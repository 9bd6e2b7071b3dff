//! Monsters: templates, live monsters and the manager that spawns, moves and
//! removes them.
pub mod ai;
pub mod spawner;

use vstd::prelude::*;
use std::collections::HashMap;
use std::collections::hash_map::Entry;
use std::sync::Arc;
use std::time::Instant;
use crate::collections::hash_map_keys;
use crate::combat::sat_i32;
use crate::enums::MirDirection;
use crate::item::distance_i64;
use crate::map::{spec_walkable_at, MapManager, MonsterSpawnConfig};
use crate::monster::ai::{lemma_near_spawn_in_range, roams_near_spawn, tick_monster_simple};
use crate::rand::rand_i32_below;
use crate::time::{instant_now, millis_between};
use crate::types::{manhattan, StatRange};

verus! {

broadcast use vstd::std_specs::hash::group_hash_axioms;

/// What a monster is doing.
#[derive(Debug, Clone, Copy, PartialEq, Eq, Structural)]
pub enum MonsterState {
    Idle,
    Patrol,
    Chase,
    Attack,
    Dead,
}

/// A monster template, read from the monster data file.
#[derive(Debug, Clone)]
pub struct MonsterTemplate {
    pub id: u16,
    pub name: String,
    pub level: u16,
    pub max_hp: u32,
    pub max_mp: u32,
    pub dc: StatRange,
    pub ac: u32,
    pub mac: u32,
    pub accuracy: u32,
    pub agility: u32,
    pub exp: u32,
    /// Milliseconds between attacks.
    pub attack_speed: u64,
    /// Milliseconds between moves.
    pub move_speed: u64,
    pub image: u16,
}

/// A live monster.
#[derive(Debug)]
pub struct Monster {
    pub object_id: u32,
    pub template_id: u16,
    pub template: Arc<MonsterTemplate>,
    pub current_hp: i32,
    pub current_mp: i32,
    pub location: (i32, i32),
    pub direction: MirDirection,
    pub spawn_point: (i32, i32),
    pub state: MonsterState,
    pub target_id: Option<u32>,
    pub last_attack_time: Instant,
    pub last_move_time: Instant,
    pub map_id: u16,
    pub is_alive: bool,
}

impl Monster {
    /// A monster of `template` standing at its spawn point `(x, y)` on
    /// `map_id`, idle, facing down, alive, with its HP and MP still at 0
    /// (the spawner sets them).
    pub fn new(object_id: u32, template: Arc<MonsterTemplate>, map_id: u16, x: i32, y: i32) -> (r: Self)
        ensures
            r.object_id == object_id,
            r.template_id == template.id,
            r.template == template,
            r.current_hp == 0 && r.current_mp == 0,
            r.location == (x, y) && r.spawn_point == (x, y),
            r.direction == MirDirection::Down,
            r.state == MonsterState::Idle,
            r.target_id is None,
            r.map_id == map_id,
            r.is_alive,
    {
        let now = instant_now();
        Monster {
            object_id,
            template_id: template.id,
            template,
            current_hp: 0,
            current_mp: 0,
            location: (x, y),
            direction: MirDirection::Down,
            spawn_point: (x, y),
            state: MonsterState::Idle,
            target_id: None,
            last_attack_time: now,
            last_move_time: now,
            map_id,
            is_alive: true,
        }
    }

    /// Takes `amount` of damage and reports whether this blow killed the
    /// monster. A dead monster is left alone; one whose HP reaches 0 or less
    /// ends with HP 0, dead.
    pub fn take_damage(&mut self, amount: i32) -> (r: bool)
        ensures
            !old(self).is_alive ==> !r && *final(self) == *old(self),
            old(self).is_alive ==> {
                let hp = sat_i32(old(self).current_hp - amount);
                &&& r == (hp <= 0)
                &&& final(self).current_hp == (if hp <= 0 { 0 } else { hp })
                &&& final(self).is_alive == (hp > 0)
                &&& final(self).state == (if hp <= 0 { MonsterState::Dead } else { old(self).state })
                &&& final(self).location == old(self).location
                &&& final(self).object_id == old(self).object_id
                &&& final(self).map_id == old(self).map_id
                &&& final(self).template_id == old(self).template_id
                &&& final(self).spawn_point == old(self).spawn_point
            },
    {
        if !self.is_alive {
            return false;
        }
        self.current_hp = crate::combat::saturating_sub_i32(self.current_hp, amount);
        if self.current_hp <= 0 {
            self.current_hp = 0;
            self.is_alive = false;
            self.state = MonsterState::Dead;
            true
        } else {
            false
        }
    }

    /// Manhattan distance from the monster to `(x, y)`.
    pub fn distance_to(&self, x: i32, y: i32) -> (r: i32)
        requires
            manhattan(self.location.0 as int, self.location.1 as int, x as int, y as int) <= i32::MAX,
        ensures
            r == manhattan(self.location.0 as int, self.location.1 as int, x as int, y as int),
    {
        crate::types::manhattan_i32(self.location.0, self.location.1, x, y)
    }
}

/// `r` is a copy of `t`: every field equal, the name by its text.
pub open spec fn same_template(r: MonsterTemplate, t: MonsterTemplate) -> bool {
    &&& r.id == t.id
    &&& r.name@ == t.name@
    &&& r.level == t.level
    &&& r.max_hp == t.max_hp
    &&& r.max_mp == t.max_mp
    &&& r.dc == t.dc
    &&& r.ac == t.ac
    &&& r.mac == t.mac
    &&& r.accuracy == t.accuracy
    &&& r.agility == t.agility
    &&& r.exp == t.exp
    &&& r.attack_speed == t.attack_speed
    &&& r.move_speed == t.move_speed
    &&& r.image == t.image
}

/// A copy of a template.
fn copy_template(t: &MonsterTemplate) -> (r: MonsterTemplate)
    ensures
        same_template(r, *t),
{
    MonsterTemplate {
        id: t.id,
        name: t.name.clone(),
        level: t.level,
        max_hp: t.max_hp,
        max_mp: t.max_mp,
        dc: t.dc,
        ac: t.ac,
        mac: t.mac,
        accuracy: t.accuracy,
        agility: t.agility,
        exp: t.exp,
        attack_speed: t.attack_speed,
        move_speed: t.move_speed,
        image: t.image,
    }
}

/// First object id handed to monsters.
pub const FIRST_MONSTER_ID: u32 = 10000;

/// The live monsters, their templates, the monster ids on each map and the
/// spawn settings of each map.
pub struct MonsterManager {
    pub monsters: HashMap<u32, Monster>,
    pub templates: HashMap<u16, MonsterTemplate>,
    pub monsters_by_map: HashMap<u16, Vec<u32>>,
    pub spawn_configs: HashMap<u16, Vec<MonsterSpawnConfig>>,
    pub map_manager: Arc<MapManager>,
    /// When each map last spawned monsters.
    pub last_spawn_time: HashMap<u16, Instant>,
    /// The object id the next monster receives.
    pub next_monster_id: u32,
}

/// The ids listed on `map_id`, empty when none are.
pub open spec fn ids_on(by_map: Map<u16, Vec<u32>>, map_id: u16) -> Seq<u32> {
    if by_map.contains_key(map_id) { by_map[map_id]@ } else { Seq::empty() }
}

/// Some live monster of `ids` stands at `(x, y)`.
pub open spec fn occupied_by(ids: Seq<u32>, ms: Map<u32, Monster>, x: i32, y: i32) -> bool {
    exists|i: int| 0 <= i < ids.len() && ms.contains_key(#[trigger] ids[i]) && ms[ids[i]].location == (x, y)
        && ms[ids[i]].is_alive
}

/// The live monsters of `ids`, in list order; unknown ids are skipped.
pub open spec fn live_monsters(ids: Seq<u32>, ms: Map<u32, Monster>) -> Seq<Monster>
    decreases ids.len(),
{
    if ids.len() == 0 {
        Seq::empty()
    } else {
        let rest = live_monsters(ids.drop_last(), ms);
        if ms.contains_key(ids.last()) && ms[ids.last()].is_alive { rest.push(ms[ids.last()]) } else { rest }
    }
}

/// The ids of `ids` whose monsters are alive, in list order; unknown ids
/// are skipped.
pub open spec fn live_ids(ids: Seq<u32>, ms: Map<u32, Monster>) -> Seq<u32>
    decreases ids.len(),
{
    if ids.len() == 0 {
        Seq::empty()
    } else {
        let rest = live_ids(ids.drop_last(), ms);
        if ms.contains_key(ids.last()) && ms[ids.last()].is_alive { rest.push(ids.last()) } else { rest }
    }
}

/// The object ids of the live monsters of `ids` within `range` of `(x, y)`.
pub open spec fn near_ids(ids: Seq<u32>, ms: Map<u32, Monster>, x: i32, y: i32, range: i32) -> Seq<u32>
    decreases ids.len(),
{
    if ids.len() == 0 {
        Seq::empty()
    } else {
        let rest = near_ids(ids.drop_last(), ms, x, y, range);
        let id = ids.last();
        if ms.contains_key(id) && ms[id].is_alive && manhattan(
            ms[id].location.0 as int,
            ms[id].location.1 as int,
            x as int,
            y as int,
        ) <= range {
            rest.push(ms[id].object_id)
        } else {
            rest
        }
    }
}

/// How many of `ids` are live monsters of template `template_id`.
pub open spec fn alive_count(ids: Seq<u32>, ms: Map<u32, Monster>, template_id: u16) -> nat
    decreases ids.len(),
{
    if ids.len() == 0 {
        0
    } else {
        alive_count(ids.drop_last(), ms, template_id) + if ms.contains_key(ids.last()) && ms[ids.last()].is_alive
            && ms[ids.last()].template_id == template_id {
            1nat
        } else {
            0nat
        }
    }
}

/// The spawn area of `spawn` and the square of `range` around its corner
/// stay inside the coordinate range.
pub open spec fn spawn_in_range(spawn: MonsterSpawnConfig) -> bool {
    &&& spawn.x + spawn.w <= i32::MAX
    &&& spawn.y + spawn.h <= i32::MAX
    &&& i32::MIN + 255 <= spawn.x <= i32::MAX - 255
    &&& i32::MIN + 255 <= spawn.y <= i32::MAX - 255
}

/// Whether the spawn area of `spawn` and the square around its corner stay
/// inside the coordinate range (see [`spawn_in_range`]).
pub fn spawn_in_range_config(spawn: &MonsterSpawnConfig) -> (r: bool)
    ensures
        r == spawn_in_range(*spawn),
{
    spawn.x as i64 + spawn.w as i64 <= i32::MAX as i64 && spawn.y as i64 + spawn.h as i64 <= i32::MAX as i64
        && i32::MIN + 255 <= spawn.x && spawn.x <= i32::MAX - 255 && i32::MIN + 255 <= spawn.y && spawn.y
        <= i32::MAX - 255
}

/// The search radius around a spawn corner: the configured range, at least 1.
pub open spec fn search_range(spawn: MonsterSpawnConfig) -> int {
    if spawn.range < 1 { 1 } else { spawn.range as int }
}

impl MonsterManager {
    /// The object id the next monster receives.
    pub open spec fn next_id(&self) -> u32 {
        self.next_monster_id
    }

    /// Every monster stays near its spawn point.
    pub open spec fn wf(&self) -> bool {
        forall|id: u32| #[trigger] self.monsters@.contains_key(id) ==> roams_near_spawn(self.monsters@[id])
    }

    /// `(x, y)` on map `map_id` is walkable and no live monster listed on
    /// the map stands there.
    pub open spec fn free_at(&self, map_id: u16, x: i32, y: i32) -> bool {
        &&& self.map_manager@.contains_key(map_id)
        &&& spec_walkable_at(self.map_manager@[map_id], x, y)
        &&& !occupied_by(ids_on(self.monsters_by_map@, map_id), self.monsters@, x, y)
    }

    /// No position of the square of `search_range` around the corner of
    /// `spawn` is free.
    pub open spec fn no_free_near(&self, map_id: u16, spawn: MonsterSpawnConfig) -> bool {
        forall|dx: int, dy: int|
            -search_range(spawn) <= dx <= search_range(spawn) && -search_range(spawn) <= dy <= search_range(spawn)
                ==> !#[trigger] self.free_at(map_id, (spawn.x + dx) as i32, (spawn.y + dy) as i32)
    }

    /// No monster, template or spawn setting.
    pub fn new(map_manager: Arc<MapManager>) -> (r: Self)
        ensures
            r.monsters@ == Map::<u32, Monster>::empty(),
            r.templates@ == Map::<u16, MonsterTemplate>::empty(),
            r.monsters_by_map@ == Map::<u16, Vec<u32>>::empty(),
            r.spawn_configs@ == Map::<u16, Vec<MonsterSpawnConfig>>::empty(),
            r.map_manager == map_manager,
            r.next_id() == FIRST_MONSTER_ID,
            r.wf(),
    {
        MonsterManager {
            monsters: HashMap::new(),
            templates: HashMap::new(),
            monsters_by_map: HashMap::new(),
            spawn_configs: HashMap::new(),
            map_manager,
            last_spawn_time: HashMap::new(),
            next_monster_id: FIRST_MONSTER_ID,
        }
    }

    /// Stores `templates` in order, each under its id.
    pub fn init_templates(&mut self, templates: Vec<MonsterTemplate>)
        ensures
            final(self).templates@ == templates_loaded(old(self).templates@, templates@),
            final(self).monsters@ == old(self).monsters@,
            final(self).monsters_by_map@ == old(self).monsters_by_map@,
            final(self).spawn_configs@ == old(self).spawn_configs@,
            final(self).map_manager == old(self).map_manager,
            final(self).next_id() == old(self).next_id(),
    {
        let mut list = templates;
        let ghost all = list@;
        assert(all.len() == list.len());
        let mut i: usize = 0;
        while list.len() > 0
            invariant
                i <= all.len(),
                all.len() <= usize::MAX,
                list@ == all.skip(i as int),
                list@.len() == all.len() - i,
                self.templates@ == templates_loaded(old(self).templates@, all.take(i as int)),
                self.monsters@ == old(self).monsters@,
                self.monsters_by_map@ == old(self).monsters_by_map@,
                self.spawn_configs@ == old(self).spawn_configs@,
                self.map_manager == old(self).map_manager,
                self.next_monster_id == old(self).next_monster_id,
            decreases list@.len(),
        {
            let t = list.remove(0);
            proof {
                assert(t == all[i as int]);
                assert(all.take(i as int + 1).drop_last() =~= all.take(i as int));
                assert(list@ =~= all.skip(i as int + 1));
            }
            let id = t.id;
            self.templates.insert(id, t);
            i = i + 1;
        }
        proof {
            assert(all.take(all.len() as int) =~= all);
        }
    }

    /// Sets the spawn settings of `map_id` and starts its spawn clock.
    pub fn assign_map_spawns(&mut self, map_id: u16, configs: Vec<MonsterSpawnConfig>)
        ensures
            final(self).spawn_configs@ == old(self).spawn_configs@.insert(map_id, configs),
            final(self).monsters@ == old(self).monsters@,
            final(self).templates@ == old(self).templates@,
            final(self).monsters_by_map@ == old(self).monsters_by_map@,
            final(self).map_manager == old(self).map_manager,
            final(self).next_id() == old(self).next_id(),
    {
        self.spawn_configs.insert(map_id, configs);
        self.last_spawn_time.insert(map_id, instant_now());
    }

    /// Whether a live monster listed on `map_id` stands at `(x, y)`.
    fn is_occupied(&self, map_id: u16, x: i32, y: i32) -> (r: bool)
        ensures
            r == occupied_by(ids_on(self.monsters_by_map@, map_id), self.monsters@, x, y),
    {
        match self.monsters_by_map.get(&map_id) {
            Some(ids) => {
                let mut i: usize = 0;
                while i < ids.len()
                    invariant
                        i <= ids@.len(),
                        ids_on(self.monsters_by_map@, map_id) == ids@,
                        forall|j: int| 0 <= j < i ==> !(self.monsters@.contains_key(#[trigger] ids@[j])
                            && self.monsters@[ids@[j]].location == (x, y) && self.monsters@[ids@[j]].is_alive),
                    decreases ids@.len() - i,
                {
                    let id = ids[i];
                    match self.monsters.get(&id) {
                        Some(m) => {
                            if m.location.0 == x && m.location.1 == y && m.is_alive {
                                assert(self.monsters@.contains_key(ids@[i as int]));
                                return true;
                            }
                        },
                        None => {},
                    }
                    i = i + 1;
                }
                false
            },
            None => false,
        }
    }

    /// Whether `(x, y)` is a free place on `map`.
    fn is_free(&self, map: &crate::map::MapData, map_id: u16, x: i32, y: i32) -> (r: bool)
        requires
            self.map_manager@.contains_key(map_id),
            *map == self.map_manager@[map_id],
        ensures
            r == self.free_at(map_id, x, y),
    {
        map.is_walkable_at(x, y) && !self.is_occupied(map_id, x, y)
    }

    /// A free place to spawn `spawn` on `map_id`: twenty random tries in the
    /// spawn area, then the first free place of the square of
    /// `search_range` around its corner, column by column.
    fn find_spawn_position(&self, map_id: u16, spawn: &MonsterSpawnConfig) -> (r: Option<(i32, i32)>)
        requires
            spawn_in_range(*spawn),
        ensures
            match r {
                Some((x, y)) => self.free_at(map_id, x, y),
                None => !self.map_manager@.contains_key(map_id) || self.no_free_near(map_id, *spawn),
            },
    {
        let map = match self.map_manager.get_map(map_id) {
            Some(m) => m,
            None => return None,
        };
        let range: i32 = if spawn.range < 1 { 1 } else { spawn.range as i32 };
        let mut attempt: u32 = 0;
        while attempt < 20
            invariant
                self.map_manager@.contains_key(map_id),
                *map == self.map_manager@[map_id],
                spawn_in_range(*spawn),
            decreases 20 - attempt,
        {
            let rx = if spawn.w > 0 { spawn.x + rand_i32_below(spawn.w) } else { spawn.x };
            let ry = if spawn.h > 0 { spawn.y + rand_i32_below(spawn.h) } else { spawn.y };
            if self.is_free(map, map_id, rx, ry) {
                return Some((rx, ry));
            }
            attempt = attempt + 1;
        }
        let mut dx: i32 = -range;
        while dx <= range
            invariant
                self.map_manager@.contains_key(map_id),
                *map == self.map_manager@[map_id],
                spawn_in_range(*spawn),
                range == search_range(*spawn),
                -range <= dx <= range + 1,
                forall|ex: int, ey: int|
                    -range <= ex < dx && -range <= ey <= range ==> !#[trigger] self.free_at(
                        map_id,
                        (spawn.x + ex) as i32,
                        (spawn.y + ey) as i32,
                    ),
            decreases range + 1 - dx,
        {
            let mut dy: i32 = -range;
            while dy <= range
                invariant
                    self.map_manager@.contains_key(map_id),
                    *map == self.map_manager@[map_id],
                    spawn_in_range(*spawn),
                    range == search_range(*spawn),
                    -range <= dx <= range,
                    -range <= dy <= range + 1,
                    forall|ex: int, ey: int|
                        -range <= ex < dx && -range <= ey <= range ==> !#[trigger] self.free_at(
                            map_id,
                            (spawn.x + ex) as i32,
                            (spawn.y + ey) as i32,
                        ),
                    forall|ey: int|
                        -range <= ey < dy ==> !#[trigger] self.free_at(
                            map_id,
                            (spawn.x + dx) as i32,
                            (spawn.y + ey) as i32,
                        ),
                decreases range + 1 - dy,
            {
                let cx = spawn.x + dx;
                let cy = spawn.y + dy;
                if self.is_free(map, map_id, cx, cy) {
                    return Some((cx, cy));
                }
                dy = dy + 1;
            }
            dx = dx + 1;
        }
        None
    }
}

/// Templates by id after storing `ts` in order.
pub open spec fn templates_loaded(m: Map<u16, MonsterTemplate>, ts: Seq<MonsterTemplate>) -> Map<u16, MonsterTemplate>
    decreases ts.len(),
{
    if ts.len() == 0 {
        m
    } else {
        templates_loaded(m, ts.drop_last()).insert(ts.last().id, ts.last())
    }
}

/// The monster `spawn_monster` creates: `template`'s monster with object id
/// `id` at `pos` on `map_id`, standing at its spawn point with full HP and MP.
pub open spec fn spawned(m: Monster, id: u32, template: MonsterTemplate, map_id: u16, pos: (i32, i32)) -> bool {
    &&& m.object_id == id
    &&& m.template_id == template.id
    &&& same_template(*m.template, template)
    &&& m.current_hp == template.max_hp as i32
    &&& m.current_mp == template.max_mp as i32
    &&& m.location == pos
    &&& m.spawn_point == pos
    &&& m.direction == MirDirection::Down
    &&& m.state == MonsterState::Idle
    &&& m.target_id is None
    &&& m.map_id == map_id
    &&& m.is_alive
}

/// `after` holds the same monsters, map lists, next id, templates, spawn
/// settings and maps as `before`; the spawn clocks may differ.
pub open spec fn same_population(before: MonsterManager, after: MonsterManager) -> bool {
    &&& after.monsters@ == before.monsters@
    &&& after.monsters_by_map@ == before.monsters_by_map@
    &&& after.next_monster_id == before.next_monster_id
    &&& after.templates@ == before.templates@
    &&& after.spawn_configs@ == before.spawn_configs@
    &&& after.map_manager == before.map_manager
}

/// One monster of `spawn`'s template was spawned on `map_id` at a place that
/// was free, under the next object id, and listed on the map.
pub open spec fn spawned_one(before: MonsterManager, after: MonsterManager, map_id: u16, spawn: MonsterSpawnConfig) -> bool {
    let id = before.next_monster_id;
    &&& before.templates@.contains_key(spawn.monster_id)
    &&& after.templates@ == before.templates@
    &&& after.spawn_configs@ == before.spawn_configs@
    &&& after.map_manager == before.map_manager
    &&& after.next_monster_id == before.next_monster_id.wrapping_add(1)
    &&& exists|x: i32, y: i32| #[trigger] before.free_at(map_id, x, y)
        && after.monsters@.contains_key(id)
        && spawned(after.monsters@[id], id, before.templates@[spawn.monster_id], map_id, (x, y))
    &&& after.monsters@ == before.monsters@.insert(id, after.monsters@[id])
    &&& after.monsters_by_map@.dom() == before.monsters_by_map@.dom().insert(map_id)
    &&& ids_on(after.monsters_by_map@, map_id) == ids_on(before.monsters_by_map@, map_id).push(id)
    &&& forall|k: u16| k != map_id ==> #[trigger] ids_on(after.monsters_by_map@, k)
        == ids_on(before.monsters_by_map@, k)
}

/// One attempt to spawn `spawn` on `map_id`: a monster was spawned, or
/// nothing changed, which happens only when its template or the map is
/// unknown or no place near the spawn corner is free.
pub open spec fn spawn_attempt(before: MonsterManager, after: MonsterManager, map_id: u16, spawn: MonsterSpawnConfig) -> bool {
    ||| spawned_one(before, after, map_id, spawn)
    ||| same_population(before, after) && (!before.templates@.contains_key(spawn.monster_id)
        || !before.map_manager@.contains_key(map_id) || before.no_free_near(map_id, spawn))
}

/// `n` spawn attempts for `spawn` on `map_id`, one after the other.
pub open spec fn spawn_attempts(before: MonsterManager, after: MonsterManager, map_id: u16, spawn: MonsterSpawnConfig, n: nat) -> bool
    decreases n,
{
    if n == 0 {
        same_population(before, after)
    } else {
        exists|mid: MonsterManager| spawn_attempts(before, mid, map_id, spawn, (n - 1) as nat)
            && #[trigger] spawn_attempt(mid, after, map_id, spawn)
    }
}

/// The live monsters of template `template_id` on `map_id`, over all monsters.
pub open spec fn alive_total(ms: Map<u32, Monster>, map_id: u16, template_id: u16) -> nat {
    ms.dom().filter(|k: u32| ms[k].map_id == map_id && ms[k].template_id == template_id && ms[k].is_alive).len()
}

/// How many monsters a setting of `count` lacks when `alive` are counted,
/// the count cut to a byte as the server does.
pub open spec fn shortfall(count: u8, alive: nat) -> nat {
    if alive % 256 < count { (count - alive % 256) as nat } else { 0 }
}

/// How the live monsters of a setting are counted before topping it up.
pub enum AliveCount {
    /// Over every monster whose map is the setting's map.
    AllMonsters,
    /// Over the monsters listed on the setting's map.
    Listed,
}

/// The live monsters of template `template_id` on `map_id`, counted as `how` says.
pub open spec fn counted_alive(m: MonsterManager, map_id: u16, template_id: u16, how: AliveCount) -> nat {
    match how {
        AliveCount::AllMonsters => alive_total(m.monsters@, map_id, template_id),
        AliveCount::Listed => alive_count(ids_on(m.monsters_by_map@, map_id), m.monsters@, template_id),
    }
}

/// `spawn` was topped up on `map_id`: for a known template, as many spawn
/// attempts as its live monsters fall short of its count.
pub open spec fn topped_up(before: MonsterManager, after: MonsterManager, map_id: u16, spawn: MonsterSpawnConfig, how: AliveCount) -> bool {
    if before.templates@.contains_key(spawn.monster_id) {
        spawn_attempts(before, after, map_id, spawn, shortfall(spawn.count, counted_alive(before, map_id, spawn.monster_id, how)))
    } else {
        same_population(before, after)
    }
}

/// Each of `spawns` was topped up on `map_id`, in order.
pub open spec fn all_topped_up(before: MonsterManager, after: MonsterManager, map_id: u16, spawns: Seq<MonsterSpawnConfig>, how: AliveCount) -> bool
    decreases spawns.len(),
{
    if spawns.len() == 0 {
        same_population(before, after)
    } else {
        exists|mid: MonsterManager| all_topped_up(before, mid, map_id, spawns.drop_last(), how)
            && #[trigger] topped_up(mid, after, map_id, spawns.last(), how)
    }
}

/// The respawn check of `spawn` on `map_id`: nothing happened (its interval
/// had not passed), or as many spawn attempts were made as the live monsters
/// listed on the map fall short of its count.
pub open spec fn respawned(before: MonsterManager, after: MonsterManager, map_id: u16, spawn: MonsterSpawnConfig) -> bool {
    ||| same_population(before, after)
    ||| spawn_attempts(before, after, map_id, spawn, shortfall(spawn.count, counted_alive(before, map_id, spawn.monster_id, AliveCount::Listed)))
}

/// The respawn check of each of `spawns` on `map_id`, in order.
pub open spec fn all_respawned(before: MonsterManager, after: MonsterManager, map_id: u16, spawns: Seq<MonsterSpawnConfig>) -> bool
    decreases spawns.len(),
{
    if spawns.len() == 0 {
        same_population(before, after)
    } else {
        exists|mid: MonsterManager| all_respawned(before, mid, map_id, spawns.drop_last())
            && #[trigger] respawned(mid, after, map_id, spawns.last())
    }
}

/// A chain of spawn attempts still ends in a state that differs from its
/// last one in the spawn clocks only.
proof fn lemma_attempts_same_population(
    before: MonsterManager,
    a: MonsterManager,
    c: MonsterManager,
    map_id: u16,
    spawn: MonsterSpawnConfig,
    n: nat,
)
    requires
        spawn_attempts(before, a, map_id, spawn, n),
        same_population(a, c),
    ensures
        spawn_attempts(before, c, map_id, spawn, n),
{
    if n > 0 {
        let mid = choose|mid: MonsterManager| spawn_attempts(before, mid, map_id, spawn, (n - 1) as nat)
            && #[trigger] spawn_attempt(mid, a, map_id, spawn);
        assert(spawn_attempt(mid, c, map_id, spawn));
    }
}

/// `after` is `before` after some AI steps: only its state, position,
/// direction, target and clocks may differ, and it still roams near its
/// spawn point.
pub open spec fn ai_stepped(before: Monster, after: Monster) -> bool {
    &&& after.object_id == before.object_id
    &&& after.template_id == before.template_id
    &&& after.template == before.template
    &&& after.current_hp == before.current_hp
    &&& after.current_mp == before.current_mp
    &&& after.spawn_point == before.spawn_point
    &&& after.map_id == before.map_id
    &&& after.is_alive == before.is_alive
    &&& roams_near_spawn(after)
}

/// The AI part of a tick took `before` to `after`: the same monsters, each
/// having taken AI steps, the dead ones untouched; nothing else changed.
pub open spec fn ai_phase(before: MonsterManager, after: MonsterManager) -> bool {
    &&& after.monsters@.dom() == before.monsters@.dom()
    &&& forall|k: u32| #[trigger] before.monsters@.contains_key(k) ==> ai_stepped(before.monsters@[k], after.monsters@[k])
        && (!before.monsters@[k].is_alive ==> after.monsters@[k] == before.monsters@[k])
    &&& after.monsters_by_map@ == before.monsters_by_map@
    &&& after.next_monster_id == before.next_monster_id
    &&& after.templates@ == before.templates@
    &&& after.spawn_configs@ == before.spawn_configs@
    &&& after.map_manager == before.map_manager
}

/// The respawn check of map `map_id`, over each of its spawn settings.
pub open spec fn map_respawned(before: MonsterManager, after: MonsterManager, map_id: u16) -> bool {
    if before.spawn_configs@.contains_key(map_id) {
        all_respawned(before, after, map_id, before.spawn_configs@[map_id]@)
    } else {
        same_population(before, after)
    }
}

/// The respawn check of each of `maps`, in order.
pub open spec fn maps_respawned(before: MonsterManager, after: MonsterManager, maps: Seq<u16>) -> bool
    decreases maps.len(),
{
    if maps.len() == 0 {
        same_population(before, after)
    } else {
        exists|mid: MonsterManager| maps_respawned(before, mid, maps.drop_last())
            && #[trigger] map_respawned(mid, after, maps.last())
    }
}

/// Every id `live_ids` keeps is a live monster.
proof fn lemma_live_ids_alive(ids: Seq<u32>, ms: Map<u32, Monster>)
    ensures
        forall|j: int| 0 <= j < live_ids(ids, ms).len() ==> ms.contains_key(#[trigger] live_ids(ids, ms)[j])
            && ms[live_ids(ids, ms)[j]].is_alive,
    decreases ids.len(),
{
    if ids.len() > 0 {
        lemma_live_ids_alive(ids.drop_last(), ms);
    }
}

/// A walkable tile lies on its map, so its coordinates are small.
proof fn lemma_walkable_small(m: crate::map::MapData, x: i32, y: i32)
    requires
        spec_walkable_at(m, x, y),
    ensures
        0 <= x < 65536,
        0 <= y < 65536,
{
}

impl MonsterManager {
    /// Spawns a monster of `spawn`'s template on `map_id` at a free place
    /// (see `find_spawn_position`) and returns its object id; `None`, with
    /// nothing changed, when the template is unknown or no place is free.
    pub fn spawn_monster(&mut self, map_id: u16, spawn: &MonsterSpawnConfig) -> (r: Option<u32>)
        requires
            spawn_in_range(*spawn),
            old(self).wf(),
        ensures
            final(self).wf(),
            final(self).templates@ == old(self).templates@,
            final(self).spawn_configs@ == old(self).spawn_configs@,
            final(self).map_manager == old(self).map_manager,
            final(self).last_spawn_time@ == old(self).last_spawn_time@,
            match r {
                None => {
                    &&& final(self).monsters@ == old(self).monsters@
                    &&& final(self).monsters_by_map@ == old(self).monsters_by_map@
                    &&& final(self).next_id() == old(self).next_id()
                    &&& (!old(self).templates@.contains_key(spawn.monster_id) || !old(self).map_manager@.contains_key(map_id)
                        || old(self).no_free_near(map_id, *spawn))
                },
                Some(id) => {
                    &&& id == old(self).next_id()
                    &&& final(self).next_id() == old(self).next_id().wrapping_add(1)
                    &&& old(self).templates@.contains_key(spawn.monster_id)
                    &&& exists|x: i32, y: i32| #[trigger] old(self).free_at(map_id, x, y)
                        && final(self).monsters@.contains_key(id)
                        && spawned(final(self).monsters@[id], id, old(self).templates@[spawn.monster_id], map_id, (x, y))
                    &&& final(self).monsters@ == old(self).monsters@.insert(id, final(self).monsters@[id])
                    &&& final(self).monsters_by_map@.dom() == old(self).monsters_by_map@.dom().insert(map_id)
                    &&& ids_on(final(self).monsters_by_map@, map_id) == ids_on(old(self).monsters_by_map@, map_id).push(id)
                    &&& forall|k: u16| k != map_id ==> #[trigger] ids_on(final(self).monsters_by_map@, k)
                        == ids_on(old(self).monsters_by_map@, k)
                },
            },
            spawn_attempt(*old(self), *final(self), map_id, *spawn),
            r is Some <==> spawned_one(*old(self), *final(self), map_id, *spawn),
    {
        let template = match self.templates.get(&spawn.monster_id) {
            Some(t) => copy_template(t),
            None => return None,
        };
        let (x, y) = match self.find_spawn_position(map_id, spawn) {
            Some(p) => p,
            None => return None,
        };
        proof {
            lemma_walkable_small(self.map_manager@[map_id], x, y);
        }
        let object_id = self.next_monster_id;
        self.next_monster_id = self.next_monster_id.wrapping_add(1);
        let hp = template.max_hp as i32;
        let mp = template.max_mp as i32;
        let mut monster = Monster::new(object_id, Arc::new(template), map_id, x, y);
        monster.current_hp = hp;
        monster.current_mp = mp;
        let ghost before = self.monsters@;
        let ghost before_map = self.monsters_by_map@;
        self.monsters.insert(object_id, monster);
        let mut ids: Vec<u32> = match self.monsters_by_map.get(&map_id) {
            Some(v) => v.clone(),
            None => Vec::new(),
        };
        ids.push(object_id);
        self.monsters_by_map.insert(map_id, ids);
        proof {
            assert(self.monsters@ == before.insert(object_id, self.monsters@[object_id]));
            assert forall|k: u16| k != map_id implies #[trigger] ids_on(self.monsters_by_map@, k) == ids_on(before_map, k) by {}
            assert(self.monsters_by_map@.dom() =~= before_map.dom().insert(map_id));
        }
        Some(object_id)
    }

    /// The monster with object id `id`.
    pub fn get_monster(&self, id: u32) -> (r: Option<&Monster>)
        ensures
            r == (if self.monsters@.contains_key(id) { Some(&self.monsters@[id]) } else { None }),
    {
        self.monsters.get(&id)
    }

    /// The live monsters listed on `map_id`, in list order.
    pub fn get_monsters_on_map(&self, map_id: u16) -> (r: Vec<&Monster>)
        ensures
            r@.map_values(|m: &Monster| *m) == live_monsters(ids_on(self.monsters_by_map@, map_id), self.monsters@),
    {
        let mut r: Vec<&Monster> = Vec::new();
        match self.monsters_by_map.get(&map_id) {
            Some(ids) => {
                let ghost s = ids@;
                let mut i: usize = 0;
                while i < ids.len()
                    invariant
                        i <= s.len(),
                        s == ids@,
                        r@.map_values(|m: &Monster| *m) == live_monsters(s.take(i as int), self.monsters@),
                    decreases s.len() - i,
                {
                    let id = ids[i];
                    proof {
                        assert(s.take(i as int + 1).drop_last() =~= s.take(i as int));
                    }
                    match self.monsters.get(&id) {
                        Some(m) => {
                            if m.is_alive {
                                r.push(m);
                            }
                        },
                        None => {},
                    }
                    proof {
                        assert(r@.map_values(|m: &Monster| *m) =~= live_monsters(s.take(i as int + 1), self.monsters@));
                    }
                    i = i + 1;
                }
                proof {
                    assert(s.take(s.len() as int) =~= s);
                }
            },
            None => {
                assert(r@.map_values(|m: &Monster| *m) =~= Seq::<Monster>::empty());
            },
        }
        r
    }

    /// Removes the monster `id`, and its id from the list of its map.
    pub fn remove_monster(&mut self, id: u32)
        ensures
            final(self).monsters@ == old(self).monsters@.remove(id),
            final(self).monsters_by_map@.dom() == old(self).monsters_by_map@.dom(),
            forall|k: u16| #[trigger] ids_on(final(self).monsters_by_map@, k) == (if old(self).monsters@.contains_key(id)
                && k == old(self).monsters@[id].map_id {
                without_id(ids_on(old(self).monsters_by_map@, k), id)
            } else {
                ids_on(old(self).monsters_by_map@, k)
            }),
            final(self).templates@ == old(self).templates@,
            final(self).spawn_configs@ == old(self).spawn_configs@,
            final(self).map_manager == old(self).map_manager,
            final(self).next_id() == old(self).next_id(),
            old(self).wf() ==> final(self).wf(),
    {
        let ghost before_map = self.monsters_by_map@;
        match self.monsters.remove(&id) {
            Some(monster) => {
                let map_id = monster.map_id;
                match self.monsters_by_map.get(&map_id) {
                    Some(ids) => {
                        let kept = retain_other(ids, id);
                        self.monsters_by_map.insert(map_id, kept);
                        proof {
                            assert(self.monsters_by_map@.dom() =~= before_map.dom());
                        }
                    },
                    None => {
                        assert(without_id(Seq::<u32>::empty(), id) == Seq::<u32>::empty());
                    },
                }
            },
            None => {},
        }
    }

    /// The object ids of the live monsters listed on `map_id` within `range`
    /// (Manhattan distance) of `(x, y)`, in list order.
    pub fn get_monsters_near(&self, map_id: u16, x: i32, y: i32, range: i32) -> (r: Vec<u32>)
        ensures
            r@ == near_ids(ids_on(self.monsters_by_map@, map_id), self.monsters@, x, y, range),
    {
        let mut r: Vec<u32> = Vec::new();
        match self.monsters_by_map.get(&map_id) {
            Some(ids) => {
                let ghost s = ids@;
                let mut i: usize = 0;
                while i < ids.len()
                    invariant
                        i <= s.len(),
                        s == ids@,
                        r@ == near_ids(s.take(i as int), self.monsters@, x, y, range),
                    decreases s.len() - i,
                {
                    let id = ids[i];
                    proof {
                        assert(s.take(i as int + 1).drop_last() =~= s.take(i as int));
                    }
                    match self.monsters.get(&id) {
                        Some(m) => {
                            if m.is_alive && distance_i64(m.location.0, m.location.1, x, y) <= range as i64 {
                                r.push(m.object_id);
                            }
                        },
                        None => {},
                    }
                    i = i + 1;
                }
                proof {
                    assert(s.take(s.len() as int) =~= s);
                }
            },
            None => {},
        }
        r
    }

    /// How many live monsters of template `template_id` are listed on `map_id`.
    pub fn alive_count_on_map(&self, map_id: u16, template_id: u16) -> (r: usize)
        ensures
            r == alive_count(ids_on(self.monsters_by_map@, map_id), self.monsters@, template_id),
    {
        let mut n: usize = 0;
        match self.monsters_by_map.get(&map_id) {
            Some(ids) => {
                let ghost s = ids@;
                let mut i: usize = 0;
                while i < ids.len()
                    invariant
                        i <= s.len(),
                        s == ids@,
                        n == alive_count(s.take(i as int), self.monsters@, template_id),
                        n <= i,
                    decreases s.len() - i,
                {
                    let id = ids[i];
                    proof {
                        assert(s.take(i as int + 1).drop_last() =~= s.take(i as int));
                    }
                    match self.monsters.get(&id) {
                        Some(m) => {
                            if m.is_alive && m.template_id == template_id {
                                n = n + 1;
                            }
                        },
                        None => {},
                    }
                    i = i + 1;
                }
                proof {
                    assert(s.take(s.len() as int) =~= s);
                }
            },
            None => {},
        }
        n
    }
}

/// `ids` without any occurrence of `id`, in order.
pub open spec fn without_id(ids: Seq<u32>, id: u32) -> Seq<u32>
    decreases ids.len(),
{
    if ids.len() == 0 {
        ids
    } else if ids.last() == id {
        without_id(ids.drop_last(), id)
    } else {
        without_id(ids.drop_last(), id).push(ids.last())
    }
}

/// A copy of `ids` without any occurrence of `id`.
fn retain_other(ids: &Vec<u32>, id: u32) -> (r: Vec<u32>)
    ensures
        r@ == without_id(ids@, id),
{
    let mut r: Vec<u32> = Vec::new();
    let mut i: usize = 0;
    while i < ids.len()
        invariant
            i <= ids@.len(),
            r@ == without_id(ids@.take(i as int), id),
        decreases ids@.len() - i,
    {
        proof {
            assert(ids@.take(i as int + 1).drop_last() =~= ids@.take(i as int));
        }
        if ids[i] != id {
            r.push(ids[i]);
        }
        i = i + 1;
    }
    proof {
        assert(ids@.take(ids@.len() as int) =~= ids@);
    }
    r
}

/// `ids` without the members of `gone`, in order.
pub open spec fn without_all(ids: Seq<u32>, gone: Set<u32>) -> Seq<u32>
    decreases ids.len(),
{
    if ids.len() == 0 {
        ids
    } else if gone.contains(ids.last()) {
        without_all(ids.drop_last(), gone)
    } else {
        without_all(ids.drop_last(), gone).push(ids.last())
    }
}

proof fn lemma_without_more(ids: Seq<u32>, gone: Set<u32>, id: u32)
    ensures
        without_id(without_all(ids, gone), id) == without_all(ids, gone.insert(id)),
    decreases ids.len(),
{
    if ids.len() > 0 {
        lemma_without_more(ids.drop_last(), gone, id);
        let w = without_all(ids.drop_last(), gone);
        assert(w.push(ids.last()).drop_last() =~= w);
        assert(without_id(w, id).push(ids.last()).drop_last() =~= without_id(w, id));
    }
}

proof fn lemma_without_none(ids: Seq<u32>)
    ensures
        without_all(ids, Set::empty()) == ids,
    decreases ids.len(),
{
    if ids.len() > 0 {
        lemma_without_none(ids.drop_last());
        assert(ids.drop_last().push(ids.last()) =~= ids);
    }
}

proof fn lemma_without_same(ids: Seq<u32>, a: Set<u32>, b: Set<u32>)
    requires
        forall|i: u32| ids.contains(i) ==> (a.contains(i) <==> b.contains(i)),
    ensures
        without_all(ids, a) == without_all(ids, b),
    decreases ids.len(),
{
    if ids.len() > 0 {
        assert forall|i: u32| ids.drop_last().contains(i) implies (a.contains(i) <==> b.contains(i)) by {
            let j = choose|j: int| 0 <= j < ids.drop_last().len() && ids.drop_last()[j] == i;
            assert(ids[j] == i);
        }
        lemma_without_same(ids.drop_last(), a, b);
        assert(ids.contains(ids.last())) by {
            assert(ids[ids.len() - 1] == ids.last());
        }
    }
}

/// The dead monsters of `ms` whose map is `map_id`.
pub open spec fn dead_on(ms: Map<u32, Monster>, map_id: u16) -> Set<u32> {
    Set::new(|i: u32| ms.contains_key(i) && !ms[i].is_alive && ms[i].map_id == map_id)
}

impl MonsterManager {
    /// Every spawn setting stays inside the coordinate range.
    pub open spec fn configs_in_range(&self) -> bool {
        forall|m: u16, i: int|
            self.spawn_configs@.contains_key(m) && 0 <= i < self.spawn_configs@[m]@.len()
                ==> spawn_in_range(#[trigger] self.spawn_configs@[m]@[i])
    }

    /// The monster `id`, to change in place.
    pub fn get_monster_mut(&mut self, id: u32) -> (r: Option<&mut Monster>)
        ensures
            match r {
                Some(m) => old(self).monsters@.contains_key(id) && *m == old(self).monsters@[id]
                    && final(self).monsters@ == old(self).monsters@.insert(id, *final(m)),
                None => !old(self).monsters@.contains_key(id) && final(self).monsters@ == old(self).monsters@,
            },
            final(self).templates@ == old(self).templates@,
            final(self).monsters_by_map@ == old(self).monsters_by_map@,
            final(self).spawn_configs@ == old(self).spawn_configs@,
            final(self).map_manager == old(self).map_manager,
            final(self).next_id() == old(self).next_id(),
    {
        match self.monsters.entry(id) {
            Entry::Occupied(o) => Some(o.into_mut()),
            Entry::Vacant(_) => None,
        }
    }

    /// Tops up every spawn setting of `map_id`, in order: for a known
    /// template, as many spawn attempts are made as the live monsters of the
    /// template on the map (counted over all monsters, modulo 256) fall short
    /// of the configured count (see [`all_topped_up`]).
    pub fn spawn_all(&mut self, map_id: u16)
        requires
            old(self).wf(),
            old(self).configs_in_range(),
        ensures
            final(self).wf(),
            final(self).configs_in_range(),
            final(self).templates@ == old(self).templates@,
            final(self).spawn_configs@ == old(self).spawn_configs@,
            final(self).map_manager == old(self).map_manager,
            final(self).last_spawn_time@ == old(self).last_spawn_time@,
            forall|k: u32| old(self).monsters@.contains_key(k) ==> #[trigger] final(self).monsters@.contains_key(k),
            forall|k: u32| #[trigger] final(self).monsters@.contains_key(k) && !old(self).monsters@.contains_key(k)
                ==> final(self).monsters@[k].map_id == map_id && final(self).monsters@[k].is_alive,
            old(self).spawn_configs@.contains_key(map_id) ==> all_topped_up(
                *old(self),
                *final(self),
                map_id,
                old(self).spawn_configs@[map_id]@,
                AliveCount::AllMonsters,
            ),
            !old(self).spawn_configs@.contains_key(map_id) ==> same_population(*old(self), *final(self)),
    {
        let configs: Vec<MonsterSpawnConfig> = match self.spawn_configs.get(&map_id) {
            Some(c) => c.clone(),
            None => return,
        };
        proof {
            assert(configs@ =~= old(self).spawn_configs@[map_id]@);
        }
        let ghost m0 = self.monsters@;
        let mut i: usize = 0;
        while i < configs.len()
            invariant
                i <= configs@.len(),
                configs@ == old(self).spawn_configs@[map_id]@,
                forall|j: int| 0 <= j < configs@.len() ==> spawn_in_range(#[trigger] configs@[j]),
                self.wf(),
                self.configs_in_range(),
                self.templates@ == old(self).templates@,
                self.spawn_configs@ == old(self).spawn_configs@,
                self.map_manager == old(self).map_manager,
                self.last_spawn_time@ == old(self).last_spawn_time@,
                forall|k: u32| m0.contains_key(k) ==> #[trigger] self.monsters@.contains_key(k),
                forall|k: u32| #[trigger] self.monsters@.contains_key(k) && !m0.contains_key(k)
                    ==> self.monsters@[k].map_id == map_id && self.monsters@[k].is_alive,
                m0 == old(self).monsters@,
                all_topped_up(*old(self), *self, map_id, configs@.take(i as int), AliveCount::AllMonsters),
            decreases configs@.len() - i,
        {
            let spawn = configs[i];
            let ghost s0 = *self;
            if self.templates.contains_key(&spawn.monster_id) {
                let spawned = self.count_alive(map_id, spawn.monster_id);
                let spawned_count: u8 = (spawned % 256) as u8;
                let to_spawn: u8 = spawn.count.saturating_sub(spawned_count);
                proof {
                    assert(to_spawn == shortfall(spawn.count, counted_alive(s0, map_id, spawn.monster_id, AliveCount::AllMonsters)));
                }
                let mut n: u8 = 0;
                while n < to_spawn
                    invariant
                        n <= to_spawn,
                        spawn_in_range(spawn),
                        self.wf(),
                        self.configs_in_range(),
                        self.templates@ == old(self).templates@,
                        self.spawn_configs@ == old(self).spawn_configs@,
                        self.map_manager == old(self).map_manager,
                        self.last_spawn_time@ == old(self).last_spawn_time@,
                        forall|k: u32| m0.contains_key(k) ==> #[trigger] self.monsters@.contains_key(k),
                        forall|k: u32| #[trigger] self.monsters@.contains_key(k) && !m0.contains_key(k)
                            ==> self.monsters@[k].map_id == map_id && self.monsters@[k].is_alive,
                        spawn_attempts(s0, *self, map_id, spawn, n as nat),
                    decreases to_spawn - n,
                {
                    let ghost prev = *self;
                    self.spawn_checked(map_id, &spawn, Ghost(m0));
                    proof {
                        assert(spawn_attempts(s0, prev, map_id, spawn, n as nat) && spawn_attempt(prev, *self, map_id, spawn));
                        assert(spawn_attempts(s0, *self, map_id, spawn, (n + 1) as nat));
                    }
                    n = n + 1;
                }
                proof {
                    assert(topped_up(s0, *self, map_id, spawn, AliveCount::AllMonsters));
                }
            }
            proof {
                assert(topped_up(s0, *self, map_id, spawn, AliveCount::AllMonsters));
                assert(configs@.take(i as int + 1).drop_last() =~= configs@.take(i as int));
                assert(configs@.take(i as int + 1).last() == spawn);
                assert(all_topped_up(*old(self), s0, map_id, configs@.take(i as int), AliveCount::AllMonsters));
            }
            i = i + 1;
        }
        proof {
            assert(configs@.take(configs@.len() as int) =~= configs@);
        }
    }

    /// `spawn_monster`, keeping the facts `spawn_all` and the respawn check
    /// carry from one spawn to the next.
    fn spawn_checked(&mut self, map_id: u16, spawn: &MonsterSpawnConfig, Ghost(m0): Ghost<Map<u32, Monster>>) -> (r: Option<u32>)
        requires
            spawn_in_range(*spawn),
            old(self).wf(),
            old(self).configs_in_range(),
            forall|k: u32| m0.contains_key(k) ==> #[trigger] old(self).monsters@.contains_key(k),
            forall|k: u32| #[trigger] old(self).monsters@.contains_key(k) && !m0.contains_key(k)
                ==> old(self).monsters@[k].map_id == map_id && old(self).monsters@[k].is_alive,
        ensures
            final(self).wf(),
            final(self).configs_in_range(),
            final(self).templates@ == old(self).templates@,
            final(self).spawn_configs@ == old(self).spawn_configs@,
            final(self).map_manager == old(self).map_manager,
            final(self).last_spawn_time@ == old(self).last_spawn_time@,
            forall|k: u32| m0.contains_key(k) ==> #[trigger] final(self).monsters@.contains_key(k),
            forall|k: u32| #[trigger] final(self).monsters@.contains_key(k) && !m0.contains_key(k)
                ==> final(self).monsters@[k].map_id == map_id && final(self).monsters@[k].is_alive,
            spawn_attempt(*old(self), *final(self), map_id, *spawn),
            match r {
                Some(id) => id == old(self).next_monster_id && spawned_one(*old(self), *final(self), map_id, *spawn),
                None => same_population(*old(self), *final(self)),
            },
    {
        let ghost before = self.monsters@;
        let r = self.spawn_monster(map_id, spawn);
        proof {
            match r {
                Some(id) => {
                    let (x, y) = choose|x: i32, y: i32| #[trigger] old(self).free_at(map_id, x, y)
                        && self.monsters@.contains_key(id)
                        && spawned(self.monsters@[id], id, old(self).templates@[spawn.monster_id], map_id, (x, y));
                    assert forall|k: u32| #[trigger] self.monsters@.contains_key(k) && !m0.contains_key(k)
                        implies self.monsters@[k].map_id == map_id && self.monsters@[k].is_alive by {
                        if k != id {
                            assert(before.contains_key(k));
                        }
                    }
                },
                None => {},
            }
        }
        r
    }

    /// Number of live monsters of template `template_id` on `map_id`, over
    /// all monsters.
    fn count_alive(&self, map_id: u16, template_id: u16) -> (r: usize)
        ensures
            r == alive_total(self.monsters@, map_id, template_id),
    {
        let keys = hash_map_keys(&self.monsters);
        let ghost ms = self.monsters@;
        let ghost pred = |k: u32| ms[k].map_id == map_id && ms[k].template_id == template_id && ms[k].is_alive;
        let ghost mut seen: Set<u32> = Set::empty();
        let mut n: usize = 0;
        let mut i: usize = 0;
        while i < keys.len()
            invariant
                i <= keys@.len(),
                n <= i,
                ms == self.monsters@,
                pred == (|k: u32| ms[k].map_id == map_id && ms[k].template_id == template_id && ms[k].is_alive),
                keys@.no_duplicates(),
                forall|k: u32| #[trigger] keys@.contains(k) <==> self.monsters@.contains_key(k),
                seen.finite(),
                n == seen.len(),
                forall|k: u32| #[trigger] seen.contains(k) <==> (exists|j: int| 0 <= j < i && keys@[j] == k) && pred(k),
            decreases keys@.len() - i,
        {
            let k = keys[i];
            assert(keys@.contains(k));
            let m = self.monsters.get(&k).unwrap();
            proof {
                assert(!seen.contains(k)) by {
                    if seen.contains(k) {
                        let j = choose|j: int| 0 <= j < i && keys@[j] == k;
                        assert(keys@[j] == keys@[i as int]);
                    }
                }
            }
            if m.map_id == map_id && m.template_id == template_id && m.is_alive {
                proof {
                    seen = seen.insert(k);
                }
                n = n + 1;
            }
            proof {
                assert forall|q: u32| #[trigger] seen.contains(q) <==> (exists|j: int| 0 <= j < i + 1 && keys@[j] == q)
                    && pred(q) by {
                    if q == k {
                        assert(keys@[i as int] == q);
                    } else if exists|j: int| 0 <= j < i + 1 && keys@[j] == q {
                        let j = choose|j: int| 0 <= j < i + 1 && keys@[j] == q;
                        assert(j < i);
                    }
                }
            }
            i = i + 1;
        }
        proof {
            assert forall|q: u32| #[trigger] seen.contains(q) <==> ms.dom().filter(pred).contains(q) by {
                if seen.contains(q) {
                    let j = choose|j: int| 0 <= j < i && keys@[j] == q;
                    assert(keys@.contains(q));
                }
                if ms.contains_key(q) && pred(q) {
                    assert(keys@.contains(q));
                    let j = choose|j: int| 0 <= j < keys@.len() && keys@[j] == q;
                    assert(seen.contains(q));
                }
            }
            assert(seen =~= ms.dom().filter(pred));
        }
        n
    }

    /// Removes every dead monster, and its id from the list of its map.
    pub fn remove_dead_monsters(&mut self)
        ensures
            forall|k: u32| #[trigger] final(self).monsters@.contains_key(k)
                <==> old(self).monsters@.contains_key(k) && old(self).monsters@[k].is_alive,
            forall|k: u32| #[trigger] final(self).monsters@.contains_key(k) ==> final(self).monsters@[k]
                == old(self).monsters@[k],
            final(self).monsters_by_map@.dom() == old(self).monsters_by_map@.dom(),
            forall|m: u16| #[trigger] ids_on(final(self).monsters_by_map@, m) == without_all(
                ids_on(old(self).monsters_by_map@, m),
                dead_on(old(self).monsters@, m),
            ),
            final(self).templates@ == old(self).templates@,
            final(self).spawn_configs@ == old(self).spawn_configs@,
            final(self).map_manager == old(self).map_manager,
            final(self).next_id() == old(self).next_id(),
            old(self).wf() ==> final(self).wf(),
    {
        let keys = hash_map_keys(&self.monsters);
        let ghost ms = self.monsters@;
        let ghost bm = self.monsters_by_map@;
        let mut dead: Vec<u32> = Vec::new();
        let mut i: usize = 0;
        while i < keys.len()
            invariant
                i <= keys@.len(),
                self.monsters@ == ms,
                keys@.no_duplicates(),
                forall|k: u32| #[trigger] keys@.contains(k) <==> ms.contains_key(k),
                forall|j: int| 0 <= j < dead@.len() ==> ms.contains_key(#[trigger] dead@[j]) && !ms[dead@[j]].is_alive,
                forall|k: u32| ms.contains_key(k) && !ms[k].is_alive && (exists|t: int| 0 <= t < i && keys@[t] == k)
                    ==> #[trigger] dead@.contains(k),
                forall|j: int| 0 <= j < dead@.len() ==> exists|t: int| 0 <= t < i && keys@[t] == #[trigger] dead@[j],
                dead@.no_duplicates(),
            decreases keys@.len() - i,
        {
            let k = keys[i];
            assert(keys@.contains(k));
            let m = self.monsters.get(&k).unwrap();
            let ghost before = dead@;
            if !m.is_alive {
                proof {
                    assert(!before.contains(k)) by {
                        if before.contains(k) {
                            let j = choose|j: int| 0 <= j < before.len() && before[j] == k;
                            let t = choose|t: int| 0 <= t < i && keys@[t] == #[trigger] before[j];
                            assert(keys@[t] == keys@[i as int]);
                        }
                    }
                }
                dead.push(k);
                proof {
                    assert forall|j: int| 0 <= j < dead@.len() implies exists|t: int| 0 <= t < i + 1 && keys@[t] == #[trigger] dead@[j] by {
                        if j < before.len() {
                            assert(dead@[j] == before[j]);
                            let t = choose|t: int| 0 <= t < i && keys@[t] == #[trigger] before[j];
                        } else {
                            assert(keys@[i as int] == dead@[j]);
                        }
                    }
                    assert forall|k2: u32| ms.contains_key(k2) && !ms[k2].is_alive && (exists|t: int| 0 <= t < i + 1 && keys@[t] == k2)
                        implies #[trigger] dead@.contains(k2) by {
                        let t = choose|t: int| 0 <= t < i + 1 && keys@[t] == k2;
                        if t == i {
                            assert(dead@[dead@.len() - 1] == k2);
                        } else {
                            assert(before.contains(k2));
                            let j = choose|j: int| 0 <= j < before.len() && before[j] == k2;
                            assert(dead@[j] == k2);
                        }
                    }
                }
            } else {
                proof {
                    assert forall|k2: u32| ms.contains_key(k2) && !ms[k2].is_alive && (exists|t: int| 0 <= t < i + 1 && keys@[t] == k2)
                        implies #[trigger] dead@.contains(k2) by {
                        let t = choose|t: int| 0 <= t < i + 1 && keys@[t] == k2;
                        if t == i {
                            assert(keys@[t] == k);
                        }
                    }
                    assert forall|j: int| 0 <= j < dead@.len() implies exists|t: int| 0 <= t < i + 1 && keys@[t] == #[trigger] dead@[j] by {
                        let t = choose|t: int| 0 <= t < i && keys@[t] == #[trigger] dead@[j];
                    }
                }
            }
            i = i + 1;
        }
        proof {
            assert forall|k: u32| ms.contains_key(k) && !ms[k].is_alive implies #[trigger] dead@.contains(k) by {
                assert(keys@.contains(k));
                let t = choose|t: int| 0 <= t < keys@.len() && keys@[t] == k;
            }
            assert forall|m: u16| #[trigger] ids_on(self.monsters_by_map@, m) == without_all(
                ids_on(bm, m),
                Set::new(|i: u32| (exists|t: int| 0 <= t < 0 && dead@[t] == i) && ms[i].map_id == m),
            ) by {
                lemma_without_none(ids_on(bm, m));
                assert(Set::new(|i: u32| (exists|t: int| 0 <= t < 0 && dead@[t] == i) && ms[i].map_id == m) =~= Set::<u32>::empty());
            }
        }
        let mut j: usize = 0;
        while j < dead.len()
            invariant
                j <= dead@.len(),
                dead@.no_duplicates(),
                forall|t: int| 0 <= t < dead@.len() ==> ms.contains_key(#[trigger] dead@[t]) && !ms[dead@[t]].is_alive,
                forall|k: u32| #[trigger] self.monsters@.contains_key(k) <==> ms.contains_key(k) && !(exists|t: int|
                    0 <= t < j && dead@[t] == k),
                forall|k: u32| #[trigger] self.monsters@.contains_key(k) ==> self.monsters@[k] == ms[k],
                self.monsters_by_map@.dom() == bm.dom(),
                forall|m: u16| #[trigger] ids_on(self.monsters_by_map@, m) == without_all(
                    ids_on(bm, m),
                    Set::new(|i: u32| (exists|t: int| 0 <= t < j && dead@[t] == i) && ms[i].map_id == m),
                ),
                self.templates@ == old(self).templates@,
                self.spawn_configs@ == old(self).spawn_configs@,
                self.map_manager == old(self).map_manager,
                self.next_monster_id == old(self).next_monster_id,
                old(self).wf() ==> self.wf(),
                ms == old(self).monsters@,
            decreases dead@.len() - j,
        {
            let id = dead[j];
            let ghost prev = self.monsters_by_map@;
            assert(self.monsters@.contains_key(id)) by {
                if exists|t: int| 0 <= t < j && dead@[t] == id {
                    let t = choose|t: int| 0 <= t < j && dead@[t] == id;
                    assert(dead@[t] == dead@[j as int]);
                }
            }
            self.remove_monster(id);
            proof {
                let mid = ms[id].map_id;
                assert forall|m: u16| #[trigger] ids_on(self.monsters_by_map@, m) == without_all(
                    ids_on(bm, m),
                    Set::new(|i: u32| (exists|t: int| 0 <= t < j + 1 && dead@[t] == i) && ms[i].map_id == m),
                ) by {
                    let before_set = Set::new(|i: u32| (exists|t: int| 0 <= t < j && dead@[t] == i) && ms[i].map_id == m);
                    let after_set = Set::new(|i: u32| (exists|t: int| 0 <= t < j + 1 && dead@[t] == i) && ms[i].map_id == m);
                    if m == mid {
                        lemma_without_more(ids_on(bm, m), before_set, id);
                        assert(before_set.insert(id) =~= after_set) by {
                            assert forall|i: u32| after_set.contains(i) implies before_set.insert(i).contains(i) by {}
                            assert forall|i: u32| after_set.contains(i) && i != id implies before_set.contains(i) by {
                                let t = choose|t: int| 0 <= t < j + 1 && dead@[t] == i;
                                assert(t != j);
                            }
                            assert(after_set.contains(id)) by {
                                assert(dead@[j as int] == id);
                            }
                        }
                    } else {
                        assert(before_set =~= after_set) by {
                            assert forall|i: u32| after_set.contains(i) implies before_set.contains(i) by {
                                let t = choose|t: int| 0 <= t < j + 1 && dead@[t] == i;
                                if t == j {
                                    assert(ms[i].map_id == mid);
                                }
                            }
                        }
                    }
                }
                assert forall|k: u32| #[trigger] self.monsters@.contains_key(k) <==> ms.contains_key(k) && !(exists|t: int|
                    0 <= t < j + 1 && dead@[t] == k) by {
                    if exists|t: int| 0 <= t < j + 1 && dead@[t] == k {
                        let t = choose|t: int| 0 <= t < j + 1 && dead@[t] == k;
                        if t < j {
                            assert(exists|t2: int| 0 <= t2 < j && dead@[t2] == k);
                        }
                    }
                }
            }
            j = j + 1;
        }
        proof {
            assert forall|k: u32| #[trigger] self.monsters@.contains_key(k)
                <==> ms.contains_key(k) && ms[k].is_alive by {
                if ms.contains_key(k) && !ms[k].is_alive {
                    assert(dead@.contains(k));
                    let t = choose|t: int| 0 <= t < dead@.len() && dead@[t] == k;
                }
            }
            assert forall|m: u16| #[trigger] ids_on(self.monsters_by_map@, m) == without_all(ids_on(bm, m), dead_on(ms, m)) by {
                let s1 = Set::new(|i: u32| (exists|t: int| 0 <= t < dead@.len() && dead@[t] == i) && ms[i].map_id == m);
                assert forall|i: u32| ids_on(bm, m).contains(i) implies (s1.contains(i) <==> dead_on(ms, m).contains(i)) by {
                    if dead_on(ms, m).contains(i) {
                        assert(dead@.contains(i));
                    }
                }
                lemma_without_same(ids_on(bm, m), s1, dead_on(ms, m));
            }
        }
    }
}

impl MonsterManager {
    /// One server tick: every live monster listed on a map takes one AI
    /// step, then each map whose respawn interval has passed tops up its
    /// spawn settings (see `check_respawns`). Monsters keep to their spawn
    /// points throughout.
    pub fn tick(&mut self)
        requires
            old(self).wf(),
            old(self).configs_in_range(),
        ensures
            final(self).wf(),
            final(self).configs_in_range(),
            final(self).templates@ == old(self).templates@,
            final(self).spawn_configs@ == old(self).spawn_configs@,
            final(self).map_manager == old(self).map_manager,
            forall|k: u32| old(self).monsters@.contains_key(k) ==> #[trigger] final(self).monsters@.contains_key(k),
            exists|mid: MonsterManager, maps: Seq<u16>|
                #![trigger ai_phase(*old(self), mid), maps_respawned(mid, *final(self), maps)]
                ai_phase(*old(self), mid) && maps.no_duplicates()
                    && (forall|m: u16| #[trigger] maps.contains(m) <==> old(self).monsters_by_map@.contains_key(m))
                    && maps_respawned(mid, *final(self), maps),
    {
        let map_ids = hash_map_keys(&self.monsters_by_map);
        let ghost m0 = self.monsters@;
        let mut i: usize = 0;
        while i < map_ids.len()
            invariant
                i <= map_ids@.len(),
                self.wf(),
                self.configs_in_range(),
                self.last_spawn_time@ == old(self).last_spawn_time@,
                m0 == old(self).monsters@,
                ai_phase(*old(self), *self),
            decreases map_ids@.len() - i,
        {
            let map_id = map_ids[i];
            let live = self.get_live_ids(map_id);
            proof {
                lemma_live_ids_alive(ids_on(self.monsters_by_map@, map_id), self.monsters@);
            }
            let ghost at_start = self.monsters@;
            let mut j: usize = 0;
            while j < live.len()
                invariant
                    j <= live@.len(),
                    self.wf(),
                    self.configs_in_range(),
                    self.last_spawn_time@ == old(self).last_spawn_time@,
                    m0 == old(self).monsters@,
                    ai_phase(*old(self), *self),
                    at_start.dom() == m0.dom(),
                    forall|t: int| 0 <= t < live@.len() ==> at_start.contains_key(#[trigger] live@[t])
                        && at_start[live@[t]].is_alive,
                    forall|k: u32| #[trigger] m0.contains_key(k) ==> at_start[k].is_alive == m0[k].is_alive,
                decreases live@.len() - j,
            {
                let id = live[j];
                let ghost before = *self;
                match self.monsters.remove(&id) {
                    Some(m) => {
                        let mut m = m;
                        proof {
                            assert(before.monsters@.contains_key(id));
                            assert(m0.contains_key(id));
                            assert(m0[id].is_alive);
                            lemma_near_spawn_in_range(m);
                        }
                        tick_monster_simple(&mut m);
                        self.monsters.insert(id, m);
                        proof {
                            assert(self.monsters@.dom() =~= before.monsters@.dom());
                            assert forall|k: u32| #[trigger] m0.contains_key(k) implies ai_stepped(m0[k], self.monsters@[k])
                                && (!m0[k].is_alive ==> self.monsters@[k] == m0[k]) by {
                                if k != id {
                                    assert(self.monsters@[k] == before.monsters@[k]);
                                }
                            }
                        }
                    },
                    None => {},
                }
                j = j + 1;
            }
            i = i + 1;
        }
        let ghost mid = *self;
        let mut i: usize = 0;
        while i < map_ids.len()
            invariant
                i <= map_ids@.len(),
                self.wf(),
                self.configs_in_range(),
                self.templates@ == old(self).templates@,
                self.spawn_configs@ == old(self).spawn_configs@,
                self.map_manager == old(self).map_manager,
                forall|k: u32| m0.contains_key(k) ==> #[trigger] self.monsters@.contains_key(k),
                m0 == old(self).monsters@,
                ai_phase(*old(self), mid),
                maps_respawned(mid, *self, map_ids@.take(i as int)),
            decreases map_ids@.len() - i,
        {
            let ghost prev = *self;
            self.check_respawns(map_ids[i], Ghost(m0));
            proof {
                assert(map_respawned(prev, *self, map_ids@[i as int]));
                assert(map_ids@.take(i as int + 1).drop_last() =~= map_ids@.take(i as int));
                assert(map_ids@.take(i as int + 1).last() == map_ids@[i as int]);
                assert(maps_respawned(mid, prev, map_ids@.take(i as int)));
                assert(maps_respawned(mid, *self, map_ids@.take(i as int + 1)));
            }
            i = i + 1;
        }
        proof {
            assert(map_ids@.take(map_ids@.len() as int) =~= map_ids@);
            assert(ai_phase(*old(self), mid) && maps_respawned(mid, *self, map_ids@));
        }
    }

    /// The ids listed on `map_id` whose monsters are alive, in list order.
    fn get_live_ids(&self, map_id: u16) -> (r: Vec<u32>)
        ensures
            r@ == live_ids(ids_on(self.monsters_by_map@, map_id), self.monsters@),
    {
        let mut r: Vec<u32> = Vec::new();
        match self.monsters_by_map.get(&map_id) {
            Some(ids) => {
                let mut i: usize = 0;
                while i < ids.len()
                    invariant
                        i <= ids@.len(),
                        ids@ == ids_on(self.monsters_by_map@, map_id),
                        r@ == live_ids(ids@.take(i as int), self.monsters@),
                    decreases ids@.len() - i,
                {
                    let id = ids[i];
                    proof {
                        assert(ids@.take(i as int + 1).drop_last() =~= ids@.take(i as int));
                    }
                    match self.monsters.get(&id) {
                        Some(m) => {
                            if m.is_alive {
                                r.push(id);
                            }
                        },
                        None => {},
                    }
                    i = i + 1;
                }
                proof {
                    assert(ids@.take(ids@.len() as int) =~= ids@);
                }
            },
            None => {},
        }
        r
    }

    /// Respawns on `map_id`: for each spawn setting whose live monsters on
    /// the map (counted modulo 256) fall short of its count, once the map's
    /// spawn interval has passed since its last spawn, the shortfall is
    /// spawned and the map's spawn clock restarts.
    fn check_respawns(&mut self, map_id: u16, Ghost(m0): Ghost<Map<u32, Monster>>)
        requires
            old(self).wf(),
            old(self).configs_in_range(),
            forall|k: u32| m0.contains_key(k) ==> #[trigger] old(self).monsters@.contains_key(k),
        ensures
            final(self).wf(),
            final(self).configs_in_range(),
            final(self).templates@ == old(self).templates@,
            final(self).spawn_configs@ == old(self).spawn_configs@,
            final(self).map_manager == old(self).map_manager,
            forall|k: u32| m0.contains_key(k) ==> #[trigger] final(self).monsters@.contains_key(k),
            old(self).spawn_configs@.contains_key(map_id) ==> all_respawned(
                *old(self),
                *final(self),
                map_id,
                old(self).spawn_configs@[map_id]@,
            ),
            !old(self).spawn_configs@.contains_key(map_id) ==> same_population(*old(self), *final(self)),
            final(self).last_spawn_time@.remove(map_id) == old(self).last_spawn_time@.remove(map_id),
    {
        let configs: Vec<MonsterSpawnConfig> = match self.spawn_configs.get(&map_id) {
            Some(c) => c.clone(),
            None => return,
        };
        proof {
            assert(configs@ =~= old(self).spawn_configs@[map_id]@);
        }
        let ghost m1 = self.monsters@;
        let now = instant_now();
        let mut i: usize = 0;
        while i < configs.len()
            invariant
                i <= configs@.len(),
                configs@ == old(self).spawn_configs@[map_id]@,
                forall|j: int| 0 <= j < configs@.len() ==> spawn_in_range(#[trigger] configs@[j]),
                self.wf(),
                self.configs_in_range(),
                self.templates@ == old(self).templates@,
                self.spawn_configs@ == old(self).spawn_configs@,
                self.map_manager == old(self).map_manager,
                self.last_spawn_time@.remove(map_id) == old(self).last_spawn_time@.remove(map_id),
                forall|k: u32| m0.contains_key(k) ==> #[trigger] m1.contains_key(k),
                forall|k: u32| m1.contains_key(k) ==> #[trigger] self.monsters@.contains_key(k),
                forall|k: u32| #[trigger] self.monsters@.contains_key(k) && !m1.contains_key(k)
                    ==> self.monsters@[k].map_id == map_id && self.monsters@[k].is_alive,
                all_respawned(*old(self), *self, map_id, configs@.take(i as int)),
            decreases configs@.len() - i,
        {
            let spawn = configs[i];
            let ghost s0 = *self;
            let last: Instant = match self.last_spawn_time.get(&map_id) {
                Some(t) => *t,
                None => {
                    self.last_spawn_time.insert(map_id, now);
                    proof {
                        assert(self.last_spawn_time@.remove(map_id) =~= old(self).last_spawn_time@.remove(map_id));
                    }
                    now
                },
            };
            let elapsed = millis_between(&now, &last);
            let alive_n = self.alive_count_on_map(map_id, spawn.monster_id);
            let alive: u8 = (alive_n % 256) as u8;
            if alive < spawn.count && elapsed >= spawn.interval {
                let to_spawn: u8 = spawn.count - alive;
                proof {
                    assert(to_spawn == shortfall(spawn.count, counted_alive(s0, map_id, spawn.monster_id, AliveCount::Listed)));
                }
                let mut n: u8 = 0;
                while n < to_spawn
                    invariant
                        n <= to_spawn,
                        spawn_in_range(spawn),
                        self.wf(),
                        self.configs_in_range(),
                        self.templates@ == old(self).templates@,
                        self.spawn_configs@ == old(self).spawn_configs@,
                        self.map_manager == old(self).map_manager,
                        self.last_spawn_time@.remove(map_id) == old(self).last_spawn_time@.remove(map_id),
                        forall|k: u32| m0.contains_key(k) ==> #[trigger] m1.contains_key(k),
                        forall|k: u32| m1.contains_key(k) ==> #[trigger] self.monsters@.contains_key(k),
                        forall|k: u32| #[trigger] self.monsters@.contains_key(k) && !m1.contains_key(k)
                            ==> self.monsters@[k].map_id == map_id && self.monsters@[k].is_alive,
                        spawn_attempts(s0, *self, map_id, spawn, n as nat),
                    decreases to_spawn - n,
                {
                    let ghost prev = *self;
                    self.spawn_checked(map_id, &spawn, Ghost(m1));
                    proof {
                        assert(spawn_attempts(s0, prev, map_id, spawn, n as nat) && spawn_attempt(prev, *self, map_id, spawn));
                        assert(spawn_attempts(s0, *self, map_id, spawn, (n + 1) as nat));
                    }
                    n = n + 1;
                }
                let ghost before_clock = *self;
                self.last_spawn_time.insert(map_id, now);
                proof {
                    assert(self.last_spawn_time@.remove(map_id) =~= old(self).last_spawn_time@.remove(map_id));
                    lemma_attempts_same_population(s0, before_clock, *self, map_id, spawn, to_spawn as nat);
                    assert(respawned(s0, *self, map_id, spawn));
                }
            }
            proof {
                assert(respawned(s0, *self, map_id, spawn));
                assert(configs@.take(i as int + 1).drop_last() =~= configs@.take(i as int));
                assert(configs@.take(i as int + 1).last() == spawn);
                assert(all_respawned(*old(self), s0, map_id, configs@.take(i as int)));
            }
            i = i + 1;
        }
        proof {
            assert(configs@.take(configs@.len() as int) =~= configs@);
        }
    }
}

} // verus!
