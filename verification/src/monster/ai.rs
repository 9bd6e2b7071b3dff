//! Monster behaviour, one tick at a time:
//! - Idle: after a while, start patrolling;
//! - Patrol: walk one or two steps in a random direction, staying near the
//!   spawn point;
//! - Chase: head for the target (for now the spawn point stands in for it);
//! - Attack: strike when in reach;
//! - Dead: nothing.
use vstd::prelude::*;
use std::time::Instant;
use crate::combat::{direction_offset, spec_direction_offset};
use crate::enums::MirDirection;
use crate::monster::{Monster, MonsterState};
use crate::rand::{rand_bool, rand_u8_below};
use crate::time::{instant_now, millis_between};
use crate::types::manhattan;

verus! {

/// Reach of a monster's attack.
pub const ATTACK_RANGE: i32 = 1;

/// Distance from the spawn point beyond which a monster turns back.
pub const RETURN_RANGE: i32 = 10;

/// Milliseconds an idle monster waits before patrolling.
pub const PATROL_INTERVAL_MS: u64 = 2500;

/// Farthest a monster gets from its spawn point: a patrol step may be
/// diagonal, so one that starts `RETURN_RANGE` away can end two steps further.
pub const ROAM_LIMIT: i32 = 12;

/// `m` stands near its spawn point, which lies well inside the coordinate range.
pub open spec fn roams_near_spawn(m: Monster) -> bool {
    &&& -0x4000_0000 <= m.spawn_point.0 <= 0x4000_0000
    &&& -0x4000_0000 <= m.spawn_point.1 <= 0x4000_0000
    &&& manhattan(m.location.0 as int, m.location.1 as int, m.spawn_point.0 as int, m.spawn_point.1 as int)
        <= ROAM_LIMIT
}

/// A tick of `m` keeps its `i32` arithmetic in range, whatever the clocks
/// and draws. A live monster that chases a target, attacks, or patrols
/// measures its distance to the spawn point in `i32`; a patrol step first
/// computes the cell one step away in the drawn direction, and near the
/// spawn point a patrol may take two such steps.
pub open spec fn tick_in_range(m: Monster) -> bool {
    m.is_alive ==> match m.state {
        MonsterState::Patrol => {
            &&& dist(m.location, m.spawn_point) <= i32::MAX
            &&& i32::MIN + 1 <= m.location.0 <= i32::MAX - 1
            &&& i32::MIN + 1 <= m.location.1 <= i32::MAX - 1
            &&& (dist(m.location, m.spawn_point) <= RETURN_RANGE ==> {
                &&& i32::MIN + 2 <= m.location.0 <= i32::MAX - 2
                &&& i32::MIN + 2 <= m.location.1 <= i32::MAX - 2
            })
        },
        MonsterState::Chase => m.target_id is Some ==> dist(m.location, m.spawn_point) <= i32::MAX,
        MonsterState::Attack => dist(m.location, m.spawn_point) <= i32::MAX,
        _ => true,
    }
}

/// A monster near its spawn point is ticked without leaving the coordinate range.
pub proof fn lemma_near_spawn_in_range(m: Monster)
    requires
        roams_near_spawn(m),
    ensures
        tick_in_range(m),
{
}

/// `p` moved by the step of `d` stays in the coordinate range.
pub open spec fn step_fits(p: (i32, i32), d: MirDirection) -> bool {
    &&& i32::MIN <= p.0 + spec_direction_offset(d).0 <= i32::MAX
    &&& i32::MIN <= p.1 + spec_direction_offset(d).1 <= i32::MAX
}

/// A step toward another position stays between the two.
proof fn lemma_step_toward_fits(p: (i32, i32), to: (i32, i32))
    requires
        p != to,
    ensures
        step_fits(p, spec_direction_toward(p, to)),
{
}

/// Manhattan distance between two positions.
pub open spec fn dist(a: (i32, i32), b: (i32, i32)) -> int {
    manhattan(a.0 as int, a.1 as int, b.0 as int, b.1 as int)
}

/// The position one step from `p` in direction `d`.
pub open spec fn stepped(p: (i32, i32), d: MirDirection) -> (i32, i32) {
    ((p.0 + spec_direction_offset(d).0) as i32, (p.1 + spec_direction_offset(d).1) as i32)
}

/// The direction from `from` toward `to` along the axis with the larger gap
/// (the vertical one on a tie).
pub open spec fn spec_direction_toward(from: (i32, i32), to: (i32, i32)) -> MirDirection {
    let dx = to.0 - from.0;
    let dy = to.1 - from.1;
    if crate::types::abs(dx) > crate::types::abs(dy) {
        if dx > 0 { MirDirection::Right } else { MirDirection::Left }
    } else if dy > 0 {
        MirDirection::Down
    } else {
        MirDirection::Up
    }
}

/// Position, facing and whether the walk stops, after one patrol step in
/// direction `d` from `p`: within `RETURN_RANGE` of `spawn` the monster takes
/// the step; farther out it steps back toward `spawn` instead and stops.
pub open spec fn patrol_step(p: (i32, i32), d: MirDirection, spawn: (i32, i32)) -> ((i32, i32), MirDirection, bool) {
    if dist(p, spawn) <= RETURN_RANGE {
        (stepped(p, d), d, false)
    } else {
        let back = spec_direction_toward(p, spawn);
        (stepped(p, back), back, true)
    }
}

/// Position and facing after a patrol walk of one step, or two when `two`.
pub open spec fn patrol_walk(p: (i32, i32), d: MirDirection, spawn: (i32, i32), two: bool) -> ((i32, i32), MirDirection) {
    let first = patrol_step(p, d, spawn);
    if two && !first.2 {
        let second = patrol_step(first.0, d, spawn);
        (second.0, second.1)
    } else {
        (first.0, first.1)
    }
}

/// The parts of a monster one tick changes.
pub struct AiState {
    pub state: MonsterState,
    pub location: (i32, i32),
    pub direction: MirDirection,
    pub target_id: Option<u32>,
    /// The move clock restarts now.
    pub moved: bool,
    /// The attack clock restarts now.
    pub attacked: bool,
}

/// One tick of `m`, given the milliseconds since its last move and since its
/// last attack, and the direction and step count a patrol would draw.
pub open spec fn spec_tick(m: Monster, move_elapsed: u64, attack_elapsed: u64, dir: MirDirection, two: bool) -> AiState {
    let keep = AiState {
        state: m.state,
        location: m.location,
        direction: m.direction,
        target_id: m.target_id,
        moved: false,
        attacked: false,
    };
    if !m.is_alive {
        keep
    } else {
        match m.state {
            MonsterState::Dead => keep,
            MonsterState::Idle => if move_elapsed > PATROL_INTERVAL_MS {
                AiState { state: MonsterState::Patrol, moved: true, ..keep }
            } else {
                keep
            },
            MonsterState::Patrol => if move_elapsed < m.template.move_speed {
                keep
            } else {
                let w = patrol_walk(m.location, dir, m.spawn_point, two);
                AiState { location: w.0, direction: w.1, moved: true, ..keep }
            },
            MonsterState::Chase => if m.target_id is None {
                AiState { state: MonsterState::Patrol, ..keep }
            } else if dist(m.location, m.spawn_point) > RETURN_RANGE {
                AiState { state: MonsterState::Patrol, target_id: None, ..keep }
            } else if move_elapsed < m.template.move_speed {
                keep
            } else if dist(m.location, m.spawn_point) <= ATTACK_RANGE {
                AiState { state: MonsterState::Attack, ..keep }
            } else {
                let d = spec_direction_toward(m.location, m.spawn_point);
                AiState { location: stepped(m.location, d), direction: d, moved: true, ..keep }
            },
            MonsterState::Attack => if dist(m.location, m.spawn_point) > ATTACK_RANGE {
                AiState { state: MonsterState::Chase, ..keep }
            } else if attack_elapsed < m.template.attack_speed {
                keep
            } else {
                AiState { attacked: true, ..keep }
            },
        }
    }
}

/// `after` is `before` after a tick with outcome `o` at clock reading `now`.
pub open spec fn tick_applied(before: Monster, after: Monster, o: AiState, now: Instant) -> bool {
    &&& after.state == o.state
    &&& after.location == o.location
    &&& after.direction == o.direction
    &&& after.target_id == o.target_id
    &&& after.last_move_time == (if o.moved { now } else { before.last_move_time })
    &&& after.last_attack_time == (if o.attacked { now } else { before.last_attack_time })
    &&& after.object_id == before.object_id
    &&& after.template_id == before.template_id
    &&& after.template == before.template
    &&& after.current_hp == before.current_hp
    &&& after.current_mp == before.current_mp
    &&& after.spawn_point == before.spawn_point
    &&& after.map_id == before.map_id
    &&& after.is_alive == before.is_alive
}

/// A step toward a different position brings the monster one closer.
proof fn lemma_toward_closer(from: (i32, i32), to: (i32, i32))
    requires
        from != to,
        -0x4000_0000 <= to.0 <= 0x4000_0000,
        -0x4000_0000 <= to.1 <= 0x4000_0000,
        dist(from, to) <= 100,
    ensures
        dist(stepped(from, spec_direction_toward(from, to)), to) == dist(from, to) - 1,
{
}

/// A patrol step keeps the monster within `ROAM_LIMIT` of its spawn point.
proof fn lemma_patrol_step_stays(p: (i32, i32), d: MirDirection, spawn: (i32, i32))
    requires
        -0x4000_0000 <= spawn.0 <= 0x4000_0000,
        -0x4000_0000 <= spawn.1 <= 0x4000_0000,
        dist(p, spawn) <= ROAM_LIMIT,
    ensures
        dist(patrol_step(p, d, spawn).0, spawn) <= ROAM_LIMIT,
        patrol_step(p, d, spawn).2 ==> dist(patrol_step(p, d, spawn).0, spawn) < dist(p, spawn),
{
    if dist(p, spawn) > RETURN_RANGE {
        lemma_toward_closer(p, spawn);
    }
}

/// Every tick keeps a monster within `ROAM_LIMIT` steps of its spawn point.
pub proof fn law_tick_stays_near_spawn(m: Monster, move_elapsed: u64, attack_elapsed: u64, dir: MirDirection, two: bool)
    requires
        roams_near_spawn(m),
    ensures
        dist(spec_tick(m, move_elapsed, attack_elapsed, dir, two).location, m.spawn_point) <= ROAM_LIMIT,
{
    lemma_patrol_step_stays(m.location, dir, m.spawn_point);
    let first = patrol_step(m.location, dir, m.spawn_point);
    lemma_patrol_step_stays(first.0, dir, m.spawn_point);
    if m.location != m.spawn_point {
        lemma_toward_closer(m.location, m.spawn_point);
    }
}

/// On every monster whose tick stays in `i32` range, one tick keeps the
/// monster's identity, HP, MP, map, spawn point and liveness, leaves a dead
/// monster as it was, moves it at most two cells along each axis, and never
/// makes it dead.
pub proof fn law_tick_moves_little(m: Monster, move_elapsed: u64, attack_elapsed: u64, dir: MirDirection, two: bool)
    requires
        tick_in_range(m),
    ensures
        ({
            let o = spec_tick(m, move_elapsed, attack_elapsed, dir, two);
            &&& (!m.is_alive || m.state == MonsterState::Dead) ==> o.state == m.state && o.location == m.location
                && o.direction == m.direction && o.target_id == m.target_id && !o.moved && !o.attacked
            &&& -2 <= o.location.0 - m.location.0 <= 2
            &&& -2 <= o.location.1 - m.location.1 <= 2
            &&& o.state == MonsterState::Dead ==> m.state == MonsterState::Dead
        }),
{
    if m.is_alive && m.state == MonsterState::Patrol {
        let first = patrol_step(m.location, dir, m.spawn_point);
        if dist(m.location, m.spawn_point) > RETURN_RANGE {
            lemma_step_toward_fits(m.location, m.spawn_point);
        }
        if two && !first.2 {
            if dist(first.0, m.spawn_point) > RETURN_RANGE {
                lemma_step_toward_fits(first.0, m.spawn_point);
            }
        }
    }
    if m.is_alive && m.state == MonsterState::Chase && m.target_id is Some {
        if dist(m.location, m.spawn_point) > ATTACK_RANGE {
            lemma_step_toward_fits(m.location, m.spawn_point);
        }
    }
}

/// Monsters keep to their clocks: an idle monster starts patrolling only
/// after `PATROL_INTERVAL_MS`; a patrolling or chasing monster whose last
/// move was less than its template's `move_speed` ago keeps its place,
/// facing and move clock; a monster attacks only once its template's
/// `attack_speed` has passed since its last attack; and a tick restarts the
/// move clock only when one of these waits is over.
pub proof fn law_moves_only_when_due(m: Monster, move_elapsed: u64, attack_elapsed: u64, dir: MirDirection, two: bool)
    ensures
        ({
            let o = spec_tick(m, move_elapsed, attack_elapsed, dir, two);
            &&& m.state == MonsterState::Idle && move_elapsed <= PATROL_INTERVAL_MS ==> o.state == MonsterState::Idle
                && !o.moved
            &&& (m.state == MonsterState::Patrol || m.state == MonsterState::Chase) && move_elapsed < m.template.move_speed
                ==> o.location == m.location && o.direction == m.direction && !o.moved
            &&& o.attacked ==> m.state == MonsterState::Attack && attack_elapsed >= m.template.attack_speed
            &&& o.moved ==> (m.state == MonsterState::Idle && move_elapsed > PATROL_INTERVAL_MS)
                || move_elapsed >= m.template.move_speed
            &&& o.location != m.location ==> move_elapsed >= m.template.move_speed
        }),
{
}

/// On every monster whose tick stays in `i32` range: a chasing monster that
/// moves comes one step closer to its target; a monster strikes or turns to
/// attacking only when its target is within `ATTACK_RANGE`; and a patrolling
/// monster beyond `RETURN_RANGE` that moves comes one step closer to its
/// spawn point.
pub proof fn law_chase_closes_in(m: Monster, move_elapsed: u64, attack_elapsed: u64, dir: MirDirection, two: bool)
    requires
        tick_in_range(m),
    ensures
        ({
            let o = spec_tick(m, move_elapsed, attack_elapsed, dir, two);
            let d = dist(m.location, m.spawn_point);
            &&& m.state == MonsterState::Chase && o.location != m.location ==> dist(o.location, m.spawn_point) == d - 1
            &&& (o.attacked || (m.state == MonsterState::Chase && o.state == MonsterState::Attack)) ==> d <= ATTACK_RANGE
            &&& m.state == MonsterState::Patrol && d > RETURN_RANGE && o.location != m.location ==> dist(
                o.location,
                m.spawn_point,
            ) == d - 1
        }),
{
    if m.is_alive && m.location != m.spawn_point {
        lemma_step_toward_fits(m.location, m.spawn_point);
    }
}

/// The direction from `from` toward `to` (see [`spec_direction_toward`]).
pub fn direction_toward(from: (i32, i32), to: (i32, i32)) -> (r: MirDirection)
    ensures
        r == spec_direction_toward(from, to),
{
    let dx: i64 = to.0 as i64 - from.0 as i64;
    let dy: i64 = to.1 as i64 - from.1 as i64;
    let adx: i64 = if dx < 0 { -dx } else { dx };
    let ady: i64 = if dy < 0 { -dy } else { dy };
    if adx > ady {
        if dx > 0 {
            MirDirection::Right
        } else {
            MirDirection::Left
        }
    } else if dy > 0 {
        MirDirection::Down
    } else {
        MirDirection::Up
    }
}

/// A direction drawn at random, each of the eight equally likely.
pub fn random_direction() -> MirDirection {
    match rand_u8_below(8) {
        0 => MirDirection::Up,
        1 => MirDirection::UpRight,
        2 => MirDirection::Right,
        3 => MirDirection::DownRight,
        4 => MirDirection::Down,
        5 => MirDirection::DownLeft,
        6 => MirDirection::Left,
        _ => MirDirection::UpLeft,
    }
}

/// One step from `p` in direction `d`.
fn step(p: (i32, i32), d: MirDirection) -> (r: (i32, i32))
    requires
        step_fits(p, d),
    ensures
        r == stepped(p, d),
{
    let (dx, dy) = direction_offset(d);
    (p.0 + dx, p.1 + dy)
}

/// The distance `dist(a, b)`, computed exactly.
fn distance(a: (i32, i32), b: (i32, i32)) -> (r: i64)
    ensures
        r == dist(a, b),
{
    crate::item::distance_i64(a.0, a.1, b.0, b.1)
}

/// One patrol step (see [`patrol_step`]).
fn patrol_step_exec(p: (i32, i32), d: MirDirection, spawn: (i32, i32)) -> (r: ((i32, i32), MirDirection, bool))
    requires
        dist(p, spawn) <= RETURN_RANGE ==> step_fits(p, d),
    ensures
        r == patrol_step(p, d, spawn),
{
    if distance(p, spawn) <= RETURN_RANGE as i64 {
        (step(p, d), d, false)
    } else {
        let back = direction_toward(p, spawn);
        proof {
            lemma_step_toward_fits(p, spawn);
        }
        (step(p, back), back, true)
    }
}

/// One tick of `monster` (see [`spec_tick`]) with the given clock readings
/// and patrol draws; `now` restarts whichever clock the tick restarts.
pub fn tick_monster_with(
    monster: &mut Monster,
    now: Instant,
    move_elapsed: u64,
    attack_elapsed: u64,
    dir: MirDirection,
    two: bool,
)
    requires
        tick_in_range(*old(monster)),
    ensures
        tick_applied(*old(monster), *final(monster), spec_tick(*old(monster), move_elapsed, attack_elapsed, dir, two), now),
        roams_near_spawn(*old(monster)) ==> roams_near_spawn(*final(monster)),
{
    proof {
        if roams_near_spawn(*monster) {
            law_tick_stays_near_spawn(*monster, move_elapsed, attack_elapsed, dir, two);
        }
    }
    if !monster.is_alive {
        return;
    }
    let spawn = monster.spawn_point;
    match monster.state {
        MonsterState::Dead => {},
        MonsterState::Idle => {
            if move_elapsed > PATROL_INTERVAL_MS {
                monster.state = MonsterState::Patrol;
                monster.last_move_time = now;
            }
        },
        MonsterState::Patrol => {
            if move_elapsed < monster.template.move_speed {
                return;
            }
            let here = monster.location;
            let first = patrol_step_exec(here, dir, spawn);
            monster.location = first.0;
            monster.direction = first.1;
            if two && !first.2 {
                let second = patrol_step_exec(first.0, dir, spawn);
                monster.location = second.0;
                monster.direction = second.1;
            }
            monster.last_move_time = now;
        },
        MonsterState::Chase => {
            if monster.target_id.is_none() {
                monster.state = MonsterState::Patrol;
                return;
            }
            let here = monster.location;
            if distance(here, spawn) > RETURN_RANGE as i64 {
                monster.state = MonsterState::Patrol;
                monster.target_id = None;
                return;
            }
            if move_elapsed < monster.template.move_speed {
                return;
            }
            if distance(here, spawn) <= ATTACK_RANGE as i64 {
                monster.state = MonsterState::Attack;
                return;
            }
            let d = direction_toward(here, spawn);
            proof {
                lemma_step_toward_fits(here, spawn);
            }
            monster.direction = d;
            monster.location = step(here, d);
            monster.last_move_time = now;
        },
        MonsterState::Attack => {
            if distance(monster.location, spawn) > ATTACK_RANGE as i64 {
                monster.state = MonsterState::Chase;
                return;
            }
            if attack_elapsed < monster.template.attack_speed {
                return;
            }
            monster.last_attack_time = now;
        },
    }
}

/// One tick of `monster` (see [`spec_tick`]): the clocks are read now, and a
/// direction and a step count of 1 or 2 are drawn at random for a patrol.
pub fn tick_monster_simple(monster: &mut Monster)
    requires
        tick_in_range(*old(monster)),
    ensures
        exists|now: Instant, move_elapsed: u64, attack_elapsed: u64, dir: MirDirection, two: bool|
            #[trigger] tick_applied(*old(monster), *final(monster), spec_tick(*old(monster), move_elapsed, attack_elapsed, dir, two), now),
        roams_near_spawn(*old(monster)) ==> roams_near_spawn(*final(monster)),
{
    let now = instant_now();
    let move_elapsed = millis_between(&now, &monster.last_move_time);
    let attack_elapsed = millis_between(&now, &monster.last_attack_time);
    let dir = random_direction();
    let two = rand_bool();
    tick_monster_with(monster, now, move_elapsed, attack_elapsed, dir, two);
}

} // verus!
