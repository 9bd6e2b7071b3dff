//! Maps: tiles, safe zones, connections between maps and spawn settings.
pub mod loader;

use vstd::prelude::*;
use std::collections::HashMap;
use crate::enums::CellAttribute;

verus! {

broadcast use vstd::std_specs::hash::group_hash_axioms;

/// One tile of a map.
#[derive(Debug, Clone, Copy)]
pub struct Tile {
    pub attr: CellAttribute,
    pub is_safe_zone: bool,
}

/// A gate from a tile of one map to a tile of another.
#[derive(Debug, Clone, Copy)]
pub struct MapConnection {
    pub source_x: i32,
    pub source_y: i32,
    pub target_map_id: u16,
    pub target_x: i32,
    pub target_y: i32,
}

/// A rectangle: `w` columns from `x`, `h` rows from `y`.
#[derive(Debug, Clone, Copy)]
pub struct Rect {
    pub x: i32,
    pub y: i32,
    pub w: i32,
    pub h: i32,
}

/// `(x, y)` lies inside `r`.
pub open spec fn rect_contains(r: Rect, x: i32, y: i32) -> bool {
    r.x <= x < r.x + r.w && r.y <= y < r.y + r.h
}

impl Rect {
    /// Whether `(x, y)` lies inside the rectangle (bounds computed exactly).
    pub fn contains(&self, x: i32, y: i32) -> (r: bool)
        ensures
            r == rect_contains(*self, x, y),
    {
        x >= self.x && (x as i64) < self.x as i64 + self.w as i64 && y >= self.y && (y as i64) < self.y as i64
            + self.h as i64
    }
}

/// The monster spawn settings of a map.
#[derive(Debug, Clone, Default)]
pub struct MonsterSpawnConfigs {
    pub monsters: Vec<MonsterSpawnConfig>,
}

/// Spawn settings of one kind of monster on a map.
#[derive(Debug, Clone, Copy)]
pub struct MonsterSpawnConfig {
    pub monster_id: u16,
    pub count: u8,
    /// Milliseconds between spawns.
    pub interval: u64,
    pub x: i32,
    pub y: i32,
    pub w: i32,
    pub h: i32,
    pub range: u8,
}

/// A map: its tiles, row by row, and its settings.
#[derive(Debug, Clone)]
pub struct MapData {
    pub id: u16,
    pub width: u16,
    pub height: u16,
    pub title: String,
    pub filename: String,
    pub tiles: Vec<Tile>,
    pub connections: Vec<MapConnection>,
    pub safe_zone: Option<Rect>,
    pub spawn_configs: MonsterSpawnConfigs,
}

/// Index of `(x, y)` in the row-by-row tile list of a `width` by `height`
/// map, when the position lies on the map.
pub open spec fn spec_tile_index(width: u16, height: u16, x: i32, y: i32) -> Option<int> {
    if x < 0 || y < 0 || x >= width || y >= height {
        None
    } else {
        Some(y * width + x)
    }
}

/// The tile at `(x, y)`, when there is one.
pub open spec fn spec_tile_at(m: MapData, x: i32, y: i32) -> Option<Tile> {
    match spec_tile_index(m.width, m.height, x, y) {
        Some(i) => if i < m.tiles@.len() { Some(m.tiles@[i]) } else { None },
        None => None,
    }
}

/// `(x, y)` is a walkable tile of `m`.
pub open spec fn spec_walkable_at(m: MapData, x: i32, y: i32) -> bool {
    spec_tile_at(m, x, y) matches Some(t) && t.attr == CellAttribute::Walk
}

/// `(x, y)` lies in a safe zone of `m`: a tile marked safe, or the map's
/// safe rectangle.
pub open spec fn spec_safe_zone_at(m: MapData, x: i32, y: i32) -> bool {
    (spec_tile_at(m, x, y) matches Some(t) && t.is_safe_zone)
    || (m.safe_zone matches Some(r) && rect_contains(r, x, y))
}

/// The first connection of `cs` that starts at `(x, y)`.
pub open spec fn first_connection_at(cs: Seq<MapConnection>, x: i32, y: i32) -> Option<MapConnection>
    decreases cs.len(),
{
    if cs.len() == 0 {
        None
    } else if cs[0].source_x == x && cs[0].source_y == y {
        Some(cs[0])
    } else {
        first_connection_at(cs.drop_first(), x, y)
    }
}

impl MapData {
    /// Index of `(x, y)` in the tile list, when the position lies on the map.
    pub fn tile_index(&self, x: i32, y: i32) -> (r: Option<usize>)
        ensures
            match r {
                Some(i) => spec_tile_index(self.width, self.height, x, y) == Some(i as int),
                None => spec_tile_index(self.width, self.height, x, y) is None,
            },
    {
        if x < 0 || y < 0 || x >= self.width as i32 || y >= self.height as i32 {
            return None;
        }
        let w = self.width as usize;
        assert((y as usize) * w <= 65535 * 65535) by (nonlinear_arith)
            requires
                (y as usize) < 65536,
                w < 65536,
        ;
        Some((y as usize) * w + (x as usize))
    }

    /// The tile at `(x, y)`.
    pub fn tile_at(&self, x: i32, y: i32) -> (r: Option<&Tile>)
        ensures
            match r {
                Some(t) => spec_tile_at(*self, x, y) == Some(*t),
                None => spec_tile_at(*self, x, y) is None,
            },
    {
        match self.tile_index(x, y) {
            Some(i) => if i < self.tiles.len() {
                Some(&self.tiles[i])
            } else {
                None
            },
            None => None,
        }
    }

    /// Whether `(x, y)` is a walkable tile.
    pub fn is_walkable_at(&self, x: i32, y: i32) -> (r: bool)
        ensures
            r == spec_walkable_at(*self, x, y),
    {
        match self.tile_at(x, y) {
            Some(t) => t.attr == CellAttribute::Walk,
            None => false,
        }
    }

    /// Whether `(x, y)` lies in a safe zone.
    pub fn is_safe_zone_at(&self, x: i32, y: i32) -> (r: bool)
        ensures
            r == spec_safe_zone_at(*self, x, y),
    {
        match self.tile_at(x, y) {
            Some(t) => {
                if t.is_safe_zone {
                    return true;
                }
            },
            None => {},
        }
        match self.safe_zone {
            Some(sz) => sz.contains(x, y),
            None => false,
        }
    }
}

/// Attribute of a tile id of the map files: 0, 1 (grass, road) and 10 (safe
/// grass) are walkable, 3 (water) is a low wall, anything else a high wall.
pub open spec fn spec_tile_id_to_attr(tile_id: u32) -> CellAttribute {
    if tile_id == 0 || tile_id == 1 || tile_id == 10 {
        CellAttribute::Walk
    } else if tile_id == 3 {
        CellAttribute::LowWall
    } else {
        CellAttribute::HighWall
    }
}

/// The loaded maps, by id.
#[derive(Clone)]
pub struct MapManager {
    maps: HashMap<u16, MapData>,
}

impl View for MapManager {
    type V = Map<u16, MapData>;

    closed spec fn view(&self) -> Map<u16, MapData> {
        self.maps@
    }
}

impl MapManager {
    /// No map.
    pub fn new() -> (r: Self)
        ensures
            r@ == Map::<u16, MapData>::empty(),
    {
        MapManager { maps: HashMap::new() }
    }

    /// Adds `map` under its id, replacing a map with the same id.
    pub fn insert_map(&mut self, map: MapData)
        ensures
            final(self)@ == old(self)@.insert(map.id, map),
    {
        let id = map.id;
        self.maps.insert(id, map);
    }

    /// The map with id `id`.
    pub fn get_map(&self, id: u16) -> (r: Option<&MapData>)
        ensures
            r == (if self@.contains_key(id) { Some(&self@[id]) } else { None }),
    {
        self.maps.get(&id)
    }

    /// Whether `(x, y)` is walkable on map `map_id`; `false` for an unknown map.
    pub fn is_walkable(&self, map_id: u16, x: i32, y: i32) -> (r: bool)
        ensures
            r == (self@.contains_key(map_id) && spec_walkable_at(self@[map_id], x, y)),
    {
        match self.get_map(map_id) {
            Some(m) => m.is_walkable_at(x, y),
            None => false,
        }
    }

    /// Whether `(x, y)` is in a safe zone of map `map_id`; `false` for an
    /// unknown map.
    pub fn is_safe_zone(&self, map_id: u16, x: i32, y: i32) -> (r: bool)
        ensures
            r == (self@.contains_key(map_id) && spec_safe_zone_at(self@[map_id], x, y)),
    {
        match self.get_map(map_id) {
            Some(m) => m.is_safe_zone_at(x, y),
            None => false,
        }
    }

    /// Attribute of a tile id of the map files (see [`spec_tile_id_to_attr`]).
    pub fn tile_id_to_attr(tile_id: u32) -> (r: CellAttribute)
        ensures
            r == spec_tile_id_to_attr(tile_id),
    {
        match tile_id {
            0 | 1 => CellAttribute::Walk,
            2 => CellAttribute::HighWall,
            3 => CellAttribute::LowWall,
            10 => CellAttribute::Walk,
            _ => CellAttribute::HighWall,
        }
    }

    /// Whether a tile id of the map files marks a safe zone: only id 10 does.
    pub fn tile_id_is_safe_zone(tile_id: u32) -> (r: bool)
        ensures
            r == (tile_id == 10),
    {
        tile_id == 10
    }

    /// The first connection of map `map_id` that starts at `(x, y)`.
    pub fn find_connection(&self, map_id: u16, x: i32, y: i32) -> (r: Option<MapConnection>)
        ensures
            r == (if self@.contains_key(map_id) {
                first_connection_at(self@[map_id].connections@, x, y)
            } else {
                None
            }),
    {
        match self.get_map(map_id) {
            Some(map) => {
                let cs = &map.connections;
                assert(cs@.skip(0) =~= cs@);
                let mut i: usize = 0;
                while i < cs.len()
                    invariant
                        i <= cs@.len(),
                        first_connection_at(cs@, x, y) == first_connection_at(cs@.skip(i as int), x, y),
                        self@.contains_key(map_id),
                        cs@ == self@[map_id].connections@,
                    decreases cs@.len() - i,
                {
                    let c = cs[i];
                    assert(cs@.skip(i as int)[0] == c);
                    assert(cs@.skip(i as int).drop_first() =~= cs@.skip(i as int + 1));
                    if c.source_x == x && c.source_y == y {
                        assert(first_connection_at(cs@.skip(i as int), x, y) == Some(c));
                        return Some(c);
                    }
                    i = i + 1;
                }
                assert(cs@.skip(i as int).len() == 0);
                None
            },
            None => None,
        }
    }

    /// Number of maps.
    pub fn map_count(&self) -> (r: usize)
        ensures
            r == self@.dom().len(),
    {
        self.maps.len()
    }
}

impl Default for MapManager {
    fn default() -> (r: Self)
        ensures
            r@ == Map::<u16, MapData>::empty(),
    {
        MapManager::new()
    }
}

} // verus!
