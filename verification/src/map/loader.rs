//! Building a map from the contents of a Tiled-style map file: its size,
//! its tile layers and its named properties. Reading and decoding the file
//! itself happens outside the library.
use vstd::prelude::*;
use vstd::utf8::encode_utf8;
use crate::enums::CellAttribute;
use crate::map::{spec_tile_id_to_attr, MapConnection, MapData, MapManager, MonsterSpawnConfigs, Rect, Tile};
use crate::messages::{decimal, default_map_title};

verus! {

/// One layer of a map file.
#[derive(Debug, Clone)]
pub struct MapLayer {
    pub name: String,
    /// `"tilelayer"` for a layer of tiles.
    pub layer_type: String,
    /// Tile ids, row by row, when the layer has them.
    pub data: Option<Vec<u32>>,
}

/// The tile every position starts with: walkable, not safe.
pub open spec fn blank_tile() -> Tile {
    Tile { attr: CellAttribute::Walk, is_safe_zone: false }
}

/// `t` after a layer put `tile_id` on it. Id 0 leaves the tile as it is; on
/// a safe-zone layer any other id makes it a walkable safe tile; on another
/// layer the id decides the tile (see [`spec_tile_id_to_attr`]).
pub open spec fn tile_after(t: Tile, tile_id: u32, safety: bool) -> Tile {
    if tile_id == 0 {
        t
    } else if safety {
        Tile { attr: CellAttribute::Walk, is_safe_zone: true }
    } else {
        Tile { attr: spec_tile_id_to_attr(tile_id), is_safe_zone: tile_id == 10 }
    }
}

/// `tiles` after one layer of ids; ids past the end of `tiles` are ignored.
pub open spec fn layer_applied(tiles: Seq<Tile>, data: Seq<u32>, safety: bool) -> Seq<Tile> {
    Seq::new(tiles.len(), |i: int| if i < data.len() { tile_after(tiles[i], data[i], safety) } else { tiles[i] })
}

/// The lower-case ASCII letter of `b`, other bytes unchanged.
pub open spec fn ascii_lower(b: u8) -> u8 {
    if 65 <= b <= 90 { (b + 32) as u8 } else { b }
}

/// The bytes `s` hold "safe" at `i`, in any letter case.
pub open spec fn safe_at(s: Seq<u8>, i: int) -> bool {
    &&& 0 <= i
    &&& i + 4 <= s.len()
    &&& ascii_lower(s[i]) == 115
    &&& ascii_lower(s[i + 1]) == 97
    &&& ascii_lower(s[i + 2]) == 102
    &&& ascii_lower(s[i + 3]) == 101
}

/// A layer whose name, in lower case, holds "safe" (so also "safety")
/// marks safe zones. `name` is the UTF-8 encoding of the layer's name.
pub open spec fn spec_is_safety_layer(name: Seq<u8>) -> bool {
    exists|i: int| #[trigger] safe_at(name, i)
}

/// A layer of tiles whose ids are given.
pub open spec fn is_tile_layer(l: MapLayer) -> bool {
    l.layer_type@ == "tilelayer"@ && l.data is Some
}

/// The tiles of a `count`-tile map after its layers, in file order.
pub open spec fn tiles_after_layers(count: nat, layers: Seq<MapLayer>) -> Seq<Tile>
    decreases layers.len(),
{
    if layers.len() == 0 {
        Seq::new(count, |_i: int| blank_tile())
    } else {
        let before = tiles_after_layers(count, layers.drop_last());
        let l = layers.last();
        if is_tile_layer(l) {
            layer_applied(before, l.data->Some_0@, spec_is_safety_layer(encode_utf8(l.name@)))
        } else {
            before
        }
    }
}

/// A map has exactly one tile per position, whatever its layers hold.
pub proof fn law_one_tile_per_position(count: nat, layers: Seq<MapLayer>)
    ensures
        tiles_after_layers(count, layers).len() == count,
    decreases layers.len(),
{
    if layers.len() > 0 {
        law_one_tile_per_position(count, layers.drop_last());
    }
}

/// The value of property `name`: the last entry of `props` with that name.
pub open spec fn spec_property(props: Seq<(String, String)>, name: Seq<char>) -> Option<String>
    decreases props.len(),
{
    if props.len() == 0 {
        None
    } else if props.last().0@ == name {
        Some(props.last().1)
    } else {
        spec_property(props.drop_last(), name)
    }
}

/// The ASCII digits `d` read as a decimal number.
pub open spec fn decimal_value(d: Seq<u8>) -> nat
    decreases d.len(),
{
    if d.len() == 0 {
        0
    } else {
        decimal_value(d.drop_last()) * 10 + (d.last() - 48) as nat
    }
}

/// `d` is a non-empty run of ASCII digits.
pub open spec fn all_digits(d: Seq<u8>) -> bool {
    d.len() > 0 && forall|i: int| 0 <= i < d.len() ==> 48 <= #[trigger] d[i] <= 57
}

/// A `u16` written in decimal, as `str::parse::<u16>` reads it: an optional
/// `+`, then at least one digit, with a value that fits.
pub open spec fn spec_parse_u16(s: Seq<u8>) -> Option<u16> {
    let d = if s.len() > 0 && s[0] == 43 { s.drop_first() } else { s };
    if all_digits(d) && decimal_value(d) <= u16::MAX {
        Some(decimal_value(d) as u16)
    } else {
        None
    }
}

proof fn lemma_decimal_value_grows(d: Seq<u8>, i: int)
    requires
        0 <= i <= d.len(),
        all_digits(d) || d.len() == 0,
    ensures
        decimal_value(d.take(i)) <= decimal_value(d),
    decreases d.len() - i,
{
    if i < d.len() {
        lemma_decimal_value_grows(d, i + 1);
        assert(d.take(i + 1).drop_last() =~= d.take(i));
    } else {
        assert(d.take(i) =~= d);
    }
}

/// Whether a layer named `name` marks safe zones (see [`spec_is_safety_layer`]).
pub fn is_safety_layer(name: &str) -> (r: bool)
    ensures
        r == spec_is_safety_layer(encode_utf8(name@)),
{
    let b = name.as_bytes();
    let ghost s = encode_utf8(name@);
    assert(b@ == s);
    if b.len() < 4 {
        return false;
    }
    let last: usize = b.len() - 4;
    let mut i: usize = 0;
    while i <= last
        invariant
            b@ == s,
            s == encode_utf8(name@),
            s.len() >= 4,
            last == s.len() - 4,
            i <= last + 1,
            forall|j: int| 0 <= j < i ==> !safe_at(s, j),
        decreases s.len() - i,
    {
        if (b[i] == 115 || b[i] == 83) && (b[i + 1] == 97 || b[i + 1] == 65) && (b[i + 2] == 102 || b[i + 2]
            == 70) && (b[i + 3] == 101 || b[i + 3] == 69) {
            assert(safe_at(s, i as int));
            assert(spec_is_safety_layer(s));
            return true;
        }
        i = i + 1;
    }
    assert forall|j: int| !safe_at(s, j) by {
        if 0 <= j < i {
        }
    }
    false
}

/// The tiles after `layer` (ids past the end of `tiles` are ignored).
fn apply_layer(tiles: &mut Vec<Tile>, data: &Vec<u32>, safety: bool)
    ensures
        final(tiles)@ == layer_applied(old(tiles)@, data@, safety),
{
    let ghost start = tiles@;
    let mut i: usize = 0;
    while i < data.len() && i < tiles.len()
        invariant
            tiles@.len() == start.len(),
            i <= start.len(),
            forall|j: int| 0 <= j < i ==> #[trigger] tiles@[j] == layer_applied(start, data@, safety)[j],
            forall|j: int| i <= j < start.len() ==> #[trigger] tiles@[j] == start[j],
        decreases start.len() - i,
    {
        let id = data[i];
        if id != 0 {
            if safety {
                tiles.set(i, Tile { attr: CellAttribute::Walk, is_safe_zone: true });
            } else {
                let attr = MapManager::tile_id_to_attr(id);
                let is_sz = MapManager::tile_id_is_safe_zone(id);
                tiles.set(i, Tile { attr, is_safe_zone: is_sz });
            }
        }
        i = i + 1;
    }
    assert(tiles@ =~= layer_applied(start, data@, safety));
}

/// The tiles of a `width` by `height` map after its layers: every tile
/// starts walkable and not safe, then each tile layer is laid on in order
/// (see [`tiles_after_layers`]); other layers are skipped.
pub fn build_tiles(width: u16, height: u16, layers: &Vec<MapLayer>) -> (r: Vec<Tile>)
    requires
        width * height <= u16::MAX,
    ensures
        r@ == tiles_after_layers((width * height) as nat, layers@),
{
    let count: u16 = width * height;
    let mut tiles: Vec<Tile> = Vec::new();
    let mut k: u16 = 0;
    while k < count
        invariant
            k <= count,
            tiles@ == Seq::new(k as nat, |_i: int| blank_tile()),
        decreases count - k,
    {
        tiles.push(Tile { attr: CellAttribute::Walk, is_safe_zone: false });
        k = k + 1;
        assert(tiles@ =~= Seq::new(k as nat, |_i: int| blank_tile()));
    }
    let tile_layer = String::from_str("tilelayer");
    proof {
        reveal_strlit("tilelayer");
    }
    let mut i: usize = 0;
    while i < layers.len()
        invariant
            i <= layers@.len(),
            tile_layer@ == "tilelayer"@,
            tiles@ == tiles_after_layers(count as nat, layers@.take(i as int)),
        decreases layers@.len() - i,
    {
        let layer = &layers[i];
        proof {
            assert(layers@.take(i as int + 1).drop_last() =~= layers@.take(i as int));
        }
        if layer.layer_type == tile_layer {
            match &layer.data {
                Some(data) => {
                    let safety = is_safety_layer(layer.name.as_str());
                    apply_layer(&mut tiles, data, safety);
                },
                None => {},
            }
        }
        i = i + 1;
    }
    proof {
        assert(layers@.take(layers@.len() as int) =~= layers@);
    }
    tiles
}

/// The value of property `name` (see [`spec_property`]).
pub fn property(props: &Vec<(String, String)>, name: &str) -> (r: Option<String>)
    ensures
        r == spec_property(props@, name@),
{
    let key = String::from_str(name);
    let mut i: usize = props.len();
    assert(props@.take(i as int) =~= props@);
    while i > 0
        invariant
            i <= props@.len(),
            key@ == name@,
            spec_property(props@, name@) == spec_property(props@.take(i as int), name@),
        decreases i,
    {
        proof {
            assert(props@.take(i as int).drop_last() =~= props@.take(i as int - 1));
        }
        if props[i - 1].0 == key {
            return Some(props[i - 1].1.clone());
        }
        i = i - 1;
    }
    None
}

/// Reads a `u16` written in decimal (see [`spec_parse_u16`]); `s` is given
/// as the UTF-8 bytes of the text.
pub fn parse_u16(s: &[u8]) -> (r: Option<u16>)
    ensures
        r == spec_parse_u16(s@),
{
    let start: usize = if s.len() > 0 && s[0] == 43 { 1 } else { 0 };
    let ghost d = if s@.len() > 0 && s@[0] == 43 { s@.drop_first() } else { s@ };
    assert(d =~= s@.skip(start as int));
    if start >= s.len() {
        assert(d.len() == 0);
        return None;
    }
    let mut v: u32 = 0;
    let mut big = false;
    let mut i: usize = start;
    while i < s.len()
        invariant
            start <= i <= s@.len(),
            d =~= s@.skip(start as int),
            d == (if s@.len() > 0 && s@[0] == 43 { s@.drop_first() } else { s@ }),
            forall|j: int| start <= j < i ==> 48 <= #[trigger] s@[j] <= 57,
            !big ==> v == decimal_value(d.take(i - start)) && v <= u16::MAX,
            big ==> decimal_value(d.take(i - start)) > u16::MAX,
        decreases s@.len() - i,
    {
        let c = s[i];
        if c < 48 || c > 57 {
            assert(!all_digits(d)) by {
                assert(d[i - start] == c);
            }
            return None;
        }
        proof {
            assert(d.take(i - start + 1).drop_last() =~= d.take(i - start));
            assert(d.take(i - start + 1).last() == c);
        }
        if !big {
            v = v * 10 + (c - 48) as u32;
            if v > 65535 {
                big = true;
            }
        } else {
            assert(decimal_value(d.take(i - start + 1)) >= decimal_value(d.take(i - start)) * 10);
        }
        i = i + 1;
    }
    assert(d.take(i - start) =~= d);
    assert(all_digits(d)) by {
        assert forall|j: int| 0 <= j < d.len() implies 48 <= #[trigger] d[j] <= 57 by {
            assert(d[j] == s@[j + start]);
        }
    }
    if big {
        None
    } else {
        Some(v as u16)
    }
}

/// The id a map file gives its map: its `map_id` property read as a `u16`,
/// else 0.
pub open spec fn spec_map_id(props: Seq<(String, String)>) -> u16 {
    match spec_property(props, "map_id"@) {
        Some(v) => match spec_parse_u16(encode_utf8(v@)) {
            Some(id) => id,
            None => 0,
        },
        None => 0,
    }
}

/// The id a map file gives its map (see [`spec_map_id`]).
pub fn map_id_of(props: &Vec<(String, String)>) -> (r: u16)
    ensures
        r == spec_map_id(props@),
{
    proof {
        reveal_strlit("map_id");
    }
    match property(props, "map_id") {
        Some(v) => match parse_u16(v.as_str().as_bytes()) {
            Some(id) => id,
            None => 0,
        },
        None => 0,
    }
}

/// A map built from the contents of its file: the size, the named
/// properties and the layers, the file's name without extension, and the
/// connections, safe zone and spawn settings decoded from their properties.
/// The id comes from the `map_id` property (see [`spec_map_id`]); the title
/// from `title`, else a default naming the id; the file name from
/// `filename`, else `file_stem`; the tiles from the layers.
pub fn build_map(
    width: u16,
    height: u16,
    props: &Vec<(String, String)>,
    layers: &Vec<MapLayer>,
    file_stem: String,
    connections: Vec<MapConnection>,
    safe_zone: Option<Rect>,
    spawn_configs: MonsterSpawnConfigs,
) -> (r: MapData)
    requires
        width * height <= u16::MAX,
    ensures
        r.id == spec_map_id(props@),
        r.width == width && r.height == height,
        r.title@ == (match spec_property(props@, "title"@) {
            Some(t) => t@,
            None => "Map "@ + decimal(spec_map_id(props@) as nat),
        }),
        r.filename == (match spec_property(props@, "filename"@) {
            Some(f) => f,
            None => file_stem,
        }),
        r.tiles@ == tiles_after_layers((width * height) as nat, layers@),
        r.connections == connections,
        r.safe_zone == safe_zone,
        r.spawn_configs == spawn_configs,
{
    let id = map_id_of(props);
    let title = match property(props, "title") {
        Some(t) => t,
        None => default_map_title(id),
    };
    let filename = match property(props, "filename") {
        Some(f) => f,
        None => file_stem,
    };
    let tiles = build_tiles(width, height, layers);
    MapData { id, width, height, title, filename, tiles, connections, safe_zone, spawn_configs }
}

} // verus!
