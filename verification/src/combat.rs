//! Combat: hit chance, damage, and the resolution of melee attacks.
use vstd::prelude::*;
use std::time::Instant;
use crate::enums::MirDirection;
use crate::equipment::PlayerStats;
use crate::network::session::SessionState;
use crate::rand::rand_i32_below;
use crate::time::{instant_now, millis_between, millis_since};
use crate::types::{manhattan, manhattan_i32};

verus! {

/// The map a player who dies is sent back to.
pub const RESPAWN_MAP_ID: u16 = 0;

/// The place on [`RESPAWN_MAP_ID`] where a player who dies comes back.
pub const RESPAWN_LOCATION: (i32, i32) = (50, 50);

/// The state of a player killed by a monster, brought back to life: on map
/// 0 at (50, 50) with full HP and MP; everything else is kept.
pub fn respawn_state(state: &mut SessionState)
    ensures
        final(state).map_id == RESPAWN_MAP_ID,
        final(state).location == RESPAWN_LOCATION,
        final(state).current_hp == old(state).max_hp,
        final(state).current_mp == old(state).max_mp,
        final(state).max_hp == old(state).max_hp,
        final(state).max_mp == old(state).max_mp,
        final(state).account_id == old(state).account_id,
        final(state).authenticated == old(state).authenticated,
        final(state).character_id == old(state).character_id,
        final(state).direction == old(state).direction,
        final(state).character_name == old(state).character_name,
        final(state).level == old(state).level,
        final(state).experience == old(state).experience,
        final(state).gold == old(state).gold,
        final(state).last_attack_time == old(state).last_attack_time,
        final(state).equipment == old(state).equipment,
        final(state).skills == old(state).skills,
{
    state.map_id = RESPAWN_MAP_ID;
    state.location = RESPAWN_LOCATION;
    state.current_hp = state.max_hp;
    state.current_mp = state.max_mp;
}

/// `v` clamped into `[lo, hi]`.
pub open spec fn clamp(v: int, lo: int, hi: int) -> int {
    if v < lo {
        lo
    } else if v > hi {
        hi
    } else {
        v
    }
}

/// `v` saturated into the range of `i32`.
pub open spec fn sat_i32(v: int) -> int {
    clamp(v, i32::MIN as int, i32::MAX as int)
}

/// Halving rounded toward zero, as Rust's integer division does.
pub open spec fn trunc_half(v: int) -> int {
    if v >= 0 {
        v / 2
    } else {
        -((-v) / 2)
    }
}

/// The hit-rate formula stays within `i32` (the server's arithmetic would
/// overflow otherwise).
pub open spec fn hit_rate_defined(accuracy: int, agility: int) -> bool {
    &&& i32::MIN <= accuracy - agility <= i32::MAX
    &&& i32::MIN <= (accuracy - agility) * 5 <= i32::MAX
    &&& i32::MIN <= 50 + (accuracy - agility) * 5 <= i32::MAX
}

/// Hit chance in percent: `clamp(50 + (accuracy - agility) * 5, 5, 95)`.
pub open spec fn spec_hit_rate(accuracy: int, agility: int) -> int {
    clamp(50 + (accuracy - agility) * 5, 5, 95)
}

/// Physical damage: `max(1, raw - ac / 2)`, the subtraction saturating.
pub open spec fn spec_physical_damage(raw: int, target_ac: int) -> int {
    let d = sat_i32(raw - trunc_half(target_ac));
    if d < 1 {
        1
    } else {
        d
    }
}

/// The hit chance always lies between 5% and 95%.
pub proof fn law_hit_rate_bounds(accuracy: int, agility: int)
    ensures
        5 <= spec_hit_rate(accuracy, agility) <= 95,
{
}

/// Every blow that lands does at least 1 damage, whatever the defence.
pub proof fn law_damage_at_least_one(raw: int, target_ac: int)
    ensures
        spec_physical_damage(raw, target_ac) >= 1,
{
}

/// `raw` is a value a damage draw from `[min, max]` can give (`min` when the
/// range is empty or a single value).
pub open spec fn damage_draw(min: int, max: int, raw: int) -> bool {
    if min >= max {
        raw == min
    } else {
        min <= raw <= max
    }
}

/// A draw from `[min, max]` stays within `i32`.
pub open spec fn range_drawable(min: int, max: int) -> bool {
    min >= max || max - min + 1 <= i32::MAX
}

/// Hit chance in percent for the given accuracy and agility.
pub fn hit_rate(accuracy: i32, agility: i32) -> (r: i32)
    requires
        hit_rate_defined(accuracy as int, agility as int),
    ensures
        r == spec_hit_rate(accuracy as int, agility as int),
        5 <= r <= 95,
{
    let rate = 50 + (accuracy - agility) * 5;
    if rate < 5 {
        5
    } else if rate > 95 {
        95
    } else {
        rate
    }
}

/// Rolls whether an attack hits: a roll in `[0, 100)` below the hit rate.
pub fn is_hit(accuracy: i32, agility: i32) -> (r: bool)
    requires
        hit_rate_defined(accuracy as int, agility as int),
    ensures
        exists|roll: int| 0 <= roll < 100 && #[trigger] hit_by_roll(roll, accuracy as int, agility as int) == r,
{
    let rate = hit_rate(accuracy, agility);
    let roll = rand_i32_below(100);
    let r = roll < rate;
    assert(hit_by_roll(roll as int, accuracy as int, agility as int) == r);
    r
}

/// A roll in `[0, 100)` hits when it is below the hit rate.
pub open spec fn hit_by_roll(roll: int, accuracy: int, agility: int) -> bool {
    roll < spec_hit_rate(accuracy, agility)
}

/// Physical damage dealt by `raw_damage` against `target_ac`; at least 1.
pub fn physical_damage(raw_damage: i32, target_ac: i32) -> (r: i32)
    ensures
        r == spec_physical_damage(raw_damage as int, target_ac as int),
        r >= 1,
{
    let half: i64 = if target_ac >= 0 {
        (target_ac / 2) as i64
    } else {
        -((-(target_ac as i64)) / 2)
    };
    let v: i64 = raw_damage as i64 - half;
    let d: i32 = if v < i32::MIN as i64 {
        i32::MIN
    } else if v > i32::MAX as i64 {
        i32::MAX
    } else {
        v as i32
    };
    if d < 1 {
        1
    } else {
        d
    }
}

/// A random value in `[min, max]`; `min` when `min >= max`.
pub fn random_damage_in_range(min: i32, max: i32) -> (r: i32)
    requires
        range_drawable(min as int, max as int),
    ensures
        damage_draw(min as int, max as int, r as int),
{
    if min >= max {
        min
    } else {
        min + rand_i32_below(max - min + 1)
    }
}

/// Whether fewer than `cooldown_ms` milliseconds have passed since
/// `last_attack_time`; never on cooldown when the cooldown is zero.
pub fn is_on_cooldown(last_attack_time: &Instant, cooldown_ms: u64) -> (r: bool)
    ensures
        cooldown_ms == 0 ==> !r,
{
    cooldown_active(millis_since(last_attack_time), cooldown_ms)
}

/// Whether an attack made `elapsed_ms` ago still cools down.
pub fn cooldown_active(elapsed_ms: u64, cooldown_ms: u64) -> (r: bool)
    ensures
        r == (elapsed_ms < cooldown_ms),
{
    elapsed_ms < cooldown_ms
}

/// Melee reach: Manhattan distance at most 1.
pub fn is_melee_range(ax: i32, ay: i32, bx: i32, by: i32) -> (r: bool)
    requires
        manhattan(ax as int, ay as int, bx as int, by as int) <= i32::MAX,
    ensures
        r == (manhattan(ax as int, ay as int, bx as int, by as int) <= 1),
{
    manhattan_i32(ax, ay, bx, by) <= 1
}

/// The outcome of one attack.
#[derive(Debug, Clone, Copy, PartialEq, Eq, Structural)]
pub struct AttackResult {
    pub hit: bool,
    pub damage: u32,
    pub target_id: u32,
    pub target_hp_remaining: i32,
    pub target_alive: bool,
    /// The player's HP fell from above zero to zero or below in this attack.
    pub player_just_died: bool,
}

/// A miss that leaves the target at `hp`.
pub open spec fn miss(target_id: u32, hp: i32, alive: bool) -> AttackResult {
    AttackResult {
        hit: false,
        damage: 0,
        target_id,
        target_hp_remaining: hp,
        target_alive: alive,
        player_just_died: false,
    }
}

/// Attack cooldown of a player, in milliseconds.
pub const PLAYER_ATTACK_COOLDOWN_MS: u64 = 500;

/// The outcome of a player's melee attack on a monster, given the milliseconds
/// since the player's last attack, the hit roll in `[0, 100)` and the raw
/// damage drawn: the result and the monster's new HP.
pub open spec fn spec_player_attack(
    elapsed_ms: u64,
    accuracy: u32,
    player_x: i32,
    player_y: i32,
    monster_ac: u32,
    monster_agility: u32,
    monster_hp: i32,
    monster_object_id: u32,
    monster_x: i32,
    monster_y: i32,
    roll: int,
    raw: int,
) -> (AttackResult, i32) {
    if elapsed_ms < PLAYER_ATTACK_COOLDOWN_MS || manhattan(
        player_x as int,
        player_y as int,
        monster_x as int,
        monster_y as int,
    ) > 1 || !hit_by_roll(roll, (accuracy as i32) as int, (monster_agility as i32) as int) {
        (miss(monster_object_id, monster_hp, monster_hp > 0), monster_hp)
    } else {
        let d = spec_physical_damage(raw, (monster_ac as i32) as int);
        let hp = sat_i32(monster_hp - d) as i32;
        (
            AttackResult {
                hit: true,
                damage: d as u32,
                target_id: monster_object_id,
                target_hp_remaining: hp,
                target_alive: hp > 0,
                player_just_died: false,
            },
            hp,
        )
    }
}

/// A player attack made less than `PLAYER_ATTACK_COOLDOWN_MS` after the
/// last one, or on a monster more than one step away, never lands: no hit,
/// no damage, and the monster's HP is unchanged. A hit always takes at least
/// one HP off a monster that still has HP above `i32::MIN`.
pub proof fn law_player_attack_needs_cooldown_and_reach(
    elapsed_ms: u64,
    accuracy: u32,
    player_x: i32,
    player_y: i32,
    monster_ac: u32,
    monster_agility: u32,
    monster_hp: i32,
    monster_object_id: u32,
    monster_x: i32,
    monster_y: i32,
    roll: int,
    raw: int,
)
    ensures
        ({
            let (r, hp) = spec_player_attack(elapsed_ms, accuracy, player_x, player_y, monster_ac, monster_agility,
                monster_hp, monster_object_id, monster_x, monster_y, roll, raw);
            &&& (elapsed_ms < PLAYER_ATTACK_COOLDOWN_MS || manhattan(player_x as int, player_y as int, monster_x as int,
                monster_y as int) > 1) ==> !r.hit && r.damage == 0 && hp == monster_hp && r.target_hp_remaining == monster_hp
            &&& r.hit ==> elapsed_ms >= PLAYER_ATTACK_COOLDOWN_MS && (hp < monster_hp || monster_hp == i32::MIN)
            &&& r.target_id == monster_object_id && r.target_hp_remaining == hp && r.target_alive == (hp > 0)
        }),
{
}

/// The outcome of a monster's attack on a player, given the hit roll in
/// `[0, 100)` and the raw damage drawn: the result and the player's new HP.
pub open spec fn spec_monster_attack(
    accuracy: u32,
    player_ac: u32,
    player_agility: u32,
    player_hp: i32,
    roll: int,
    raw: int,
) -> (AttackResult, i32) {
    if player_hp <= 0 {
        (miss(0, player_hp, false), player_hp)
    } else if !hit_by_roll(roll, (accuracy as i32) as int, (player_agility as i32) as int) {
        (miss(0, player_hp, true), player_hp)
    } else {
        let d = spec_physical_damage(raw, (player_ac as i32) as int);
        let hp = sat_i32(player_hp - d) as i32;
        (
            AttackResult {
                hit: true,
                damage: d as u32,
                target_id: 0,
                target_hp_remaining: hp,
                target_alive: hp > 0,
                player_just_died: hp <= 0,
            },
            hp,
        )
    }
}

/// Subtracts `d` from `hp`, saturating at the bounds of `i32`.
pub fn saturating_sub_i32(hp: i32, d: i32) -> (r: i32)
    ensures
        r == sat_i32(hp - d),
{
    let v: i64 = hp as i64 - d as i64;
    if v < i32::MIN as i64 {
        i32::MIN
    } else if v > i32::MAX as i64 {
        i32::MAX
    } else {
        v as i32
    }
}

/// Combat rules.
pub struct CombatSystem;

impl CombatSystem {
    /// Hit chance in percent: `clamp(50 + (accuracy - agility) * 5, 5, 95)`.
    pub fn calculate_hit_rate(accuracy: i32, agility: i32) -> (r: i32)
        requires
            hit_rate_defined(accuracy as int, agility as int),
        ensures
            r == spec_hit_rate(accuracy as int, agility as int),
    {
        hit_rate(accuracy, agility)
    }

    /// Physical damage: `max(1, raw_damage - target_ac / 2)`.
    pub fn calculate_damage(raw_damage: i32, target_ac: i32) -> (r: i32)
        ensures
            r == spec_physical_damage(raw_damage as int, target_ac as int),
    {
        physical_damage(raw_damage, target_ac)
    }

    /// Resolves a player's melee attack for given draws: `elapsed_ms` since the
    /// last attack, the hit `roll` and the `raw` damage; updates the monster's HP.
    pub fn resolve_player_attack(
        elapsed_ms: u64,
        accuracy: u32,
        player_x: i32,
        player_y: i32,
        monster_ac: u32,
        monster_agility: u32,
        monster_current_hp: &mut i32,
        monster_object_id: u32,
        monster_x: i32,
        monster_y: i32,
        roll: i32,
        raw: i32,
    ) -> (r: AttackResult)
        requires
            elapsed_ms >= PLAYER_ATTACK_COOLDOWN_MS ==> manhattan(player_x as int, player_y as int, monster_x as int, monster_y as int) <= i32::MAX,
            elapsed_ms >= PLAYER_ATTACK_COOLDOWN_MS && manhattan(player_x as int, player_y as int, monster_x as int, monster_y as int) <= 1 ==> hit_rate_defined(
                (accuracy as i32) as int,
                (monster_agility as i32) as int,
            ),
        ensures
            (r, *final(monster_current_hp)) == spec_player_attack(
                elapsed_ms,
                accuracy,
                player_x,
                player_y,
                monster_ac,
                monster_agility,
                *old(monster_current_hp),
                monster_object_id,
                monster_x,
                monster_y,
                roll as int,
                raw as int,
            ),
    {
        let hp = *monster_current_hp;
        if elapsed_ms < PLAYER_ATTACK_COOLDOWN_MS {
            return AttackResult {
                hit: false,
                damage: 0,
                target_id: monster_object_id,
                target_hp_remaining: hp,
                target_alive: hp > 0,
                player_just_died: false,
            };
        }
        let dist = manhattan_i32(player_x, player_y, monster_x, monster_y);
        if dist > 1 {
            return AttackResult {
                hit: false,
                damage: 0,
                target_id: monster_object_id,
                target_hp_remaining: hp,
                target_alive: hp > 0,
                player_just_died: false,
            };
        }
        let rate = Self::calculate_hit_rate(accuracy as i32, monster_agility as i32);
        if !(roll < rate) {
            return AttackResult {
                hit: false,
                damage: 0,
                target_id: monster_object_id,
                target_hp_remaining: hp,
                target_alive: hp > 0,
                player_just_died: false,
            };
        }
        let damage = Self::calculate_damage(raw, monster_ac as i32);
        let new_hp = saturating_sub_i32(hp, damage);
        *monster_current_hp = new_hp;
        AttackResult {
            hit: true,
            damage: damage as u32,
            target_id: monster_object_id,
            target_hp_remaining: new_hp,
            target_alive: new_hp > 0,
            player_just_died: false,
        }
    }

    /// A player's melee attack on a monster: no effect within 500 ms of the
    /// player's last attack or beyond melee reach; otherwise a hit roll against
    /// the hit rate and, on a hit, damage drawn from `[dc_min, dc_max]` taken
    /// from the monster's HP. The clock and the draws decide which of these
    /// outcomes comes; the result is one of them.
    pub fn player_attack_monster(
        _player_level: u16,
        player_dc_min: i32,
        player_dc_max: i32,
        player_accuracy: u32,
        player_last_attack: &Instant,
        player_x: i32,
        player_y: i32,
        monster_ac: u32,
        monster_agility: u32,
        monster_current_hp: &mut i32,
        monster_object_id: u32,
        monster_x: i32,
        monster_y: i32,
    ) -> (r: AttackResult)
        requires
            manhattan(player_x as int, player_y as int, monster_x as int, monster_y as int) <= i32::MAX,
            manhattan(player_x as int, player_y as int, monster_x as int, monster_y as int) <= 1 ==> hit_rate_defined((player_accuracy as i32) as int, (monster_agility as i32) as int),
            manhattan(player_x as int, player_y as int, monster_x as int, monster_y as int) <= 1 ==> range_drawable(player_dc_min as int, player_dc_max as int),
        ensures
            exists|elapsed: u64, roll: int, raw: int|
                0 <= roll < 100 && damage_draw(player_dc_min as int, player_dc_max as int, raw)
                    && (r, *final(monster_current_hp)) == #[trigger] spec_player_attack(
                    elapsed,
                    player_accuracy,
                    player_x,
                    player_y,
                    monster_ac,
                    monster_agility,
                    *old(monster_current_hp),
                    monster_object_id,
                    monster_x,
                    monster_y,
                    roll,
                    raw,
                ),
    {
        let now = instant_now();
        let elapsed = millis_between(&now, player_last_attack);
        let mut roll: i32 = 0;
        let mut raw: i32 = player_dc_min;
        if elapsed >= PLAYER_ATTACK_COOLDOWN_MS && manhattan_i32(
            player_x,
            player_y,
            monster_x,
            monster_y,
        ) <= 1 {
            roll = rand_i32_below(100);
            let rate = Self::calculate_hit_rate(player_accuracy as i32, monster_agility as i32);
            if roll < rate {
                raw = random_damage_in_range(player_dc_min, player_dc_max);
            }
        }
        let r = Self::resolve_player_attack(
            elapsed,
            player_accuracy,
            player_x,
            player_y,
            monster_ac,
            monster_agility,
            monster_current_hp,
            monster_object_id,
            monster_x,
            monster_y,
            roll,
            raw,
        );
        r
    }

    /// Resolves a monster's attack on a player for given draws: the hit `roll`
    /// and the `raw` damage; updates the player's HP.
    pub fn resolve_monster_attack(
        monster_accuracy: u32,
        player_ac: u32,
        player_agility: u32,
        player_current_hp: &mut i32,
        roll: i32,
        raw: i32,
    ) -> (r: AttackResult)
        requires
            *old(player_current_hp) > 0 ==> hit_rate_defined((monster_accuracy as i32) as int, (player_agility as i32) as int),
        ensures
            (r, *final(player_current_hp)) == spec_monster_attack(
                monster_accuracy,
                player_ac,
                player_agility,
                *old(player_current_hp),
                roll as int,
                raw as int,
            ),
    {
        let hp = *player_current_hp;
        if hp <= 0 {
            return AttackResult {
                hit: false,
                damage: 0,
                target_id: 0,
                target_hp_remaining: hp,
                target_alive: false,
                player_just_died: false,
            };
        }
        let rate = Self::calculate_hit_rate(monster_accuracy as i32, player_agility as i32);
        if !(roll < rate) {
            return AttackResult {
                hit: false,
                damage: 0,
                target_id: 0,
                target_hp_remaining: hp,
                target_alive: true,
                player_just_died: false,
            };
        }
        let damage = Self::calculate_damage(raw, player_ac as i32);
        let new_hp = saturating_sub_i32(hp, damage);
        *player_current_hp = new_hp;
        let alive = new_hp > 0;
        AttackResult {
            hit: true,
            damage: damage as u32,
            target_id: 0,
            target_hp_remaining: new_hp,
            target_alive: alive,
            player_just_died: hp > 0 && !alive,
        }
    }

    /// A monster's attack on a player: no effect on a dead player; otherwise a
    /// hit roll and, on a hit, damage drawn from `[dc_min, dc_max]` taken from
    /// the player's HP. `player_just_died` reports the fall to zero, which the
    /// network layer answers by sending the player back to town.
    pub fn monster_attack_player(
        monster_dc_min: i32,
        monster_dc_max: i32,
        monster_accuracy: u32,
        _monster_level: u16,
        player_ac: u32,
        player_agility: u32,
        player_current_hp: &mut i32,
    ) -> (r: AttackResult)
        requires
            *old(player_current_hp) > 0 ==> hit_rate_defined((monster_accuracy as i32) as int, (player_agility as i32) as int),
            *old(player_current_hp) > 0 ==> range_drawable(monster_dc_min as int, monster_dc_max as int),
        ensures
            exists|roll: int, raw: int|
                0 <= roll < 100 && damage_draw(monster_dc_min as int, monster_dc_max as int, raw)
                    && (r, *final(player_current_hp)) == #[trigger] spec_monster_attack(
                    monster_accuracy,
                    player_ac,
                    player_agility,
                    *old(player_current_hp),
                    roll,
                    raw,
                ),
    {
        let mut roll: i32 = 0;
        let mut raw: i32 = monster_dc_min;
        if *player_current_hp > 0 {
            roll = rand_i32_below(100);
            let rate = Self::calculate_hit_rate(monster_accuracy as i32, player_agility as i32);
            if roll < rate {
                raw = random_damage_in_range(monster_dc_min, monster_dc_max);
            }
        }
        Self::resolve_monster_attack(
            monster_accuracy,
            player_ac,
            player_agility,
            player_current_hp,
            roll,
            raw,
        )
    }
}

/// A player's attack using the player's computed stats (DC range, accuracy).
pub fn player_attack_with_stats(
    stats: &PlayerStats,
    player_last_attack: &Instant,
    player_x: i32,
    player_y: i32,
    monster_ac: u32,
    monster_agility: u32,
    monster_current_hp: &mut i32,
    monster_object_id: u32,
    monster_x: i32,
    monster_y: i32,
) -> (r: AttackResult)
    requires
        manhattan(player_x as int, player_y as int, monster_x as int, monster_y as int) <= i32::MAX,
        manhattan(player_x as int, player_y as int, monster_x as int, monster_y as int) <= 1 ==> hit_rate_defined((stats.accuracy as i32) as int, (monster_agility as i32) as int),
        manhattan(player_x as int, player_y as int, monster_x as int, monster_y as int) <= 1 ==> range_drawable(stats.dc_min as int, stats.dc_max as int),
    ensures
        exists|elapsed: u64, roll: int, raw: int|
            0 <= roll < 100 && damage_draw(stats.dc_min as int, stats.dc_max as int, raw)
                && (r, *final(monster_current_hp)) == #[trigger] spec_player_attack(
                elapsed,
                stats.accuracy,
                player_x,
                player_y,
                monster_ac,
                monster_agility,
                *old(monster_current_hp),
                monster_object_id,
                monster_x,
                monster_y,
                roll,
                raw,
            ),
{
    CombatSystem::player_attack_monster(
        0,
        stats.dc_min,
        stats.dc_max,
        stats.accuracy,
        player_last_attack,
        player_x,
        player_y,
        monster_ac,
        monster_agility,
        monster_current_hp,
        monster_object_id,
        monster_x,
        monster_y,
    )
}

/// A monster's attack using the player's computed stats (AC, agility).
pub fn monster_attack_with_stats(
    stats: &PlayerStats,
    monster_dc_min: i32,
    monster_dc_max: i32,
    monster_accuracy: u32,
    monster_level: u16,
    player_current_hp: &mut i32,
) -> (r: AttackResult)
    requires
        *old(player_current_hp) > 0 ==> hit_rate_defined((monster_accuracy as i32) as int, (stats.agility as i32) as int),
        *old(player_current_hp) > 0 ==> range_drawable(monster_dc_min as int, monster_dc_max as int),
    ensures
        exists|roll: int, raw: int|
            0 <= roll < 100 && damage_draw(monster_dc_min as int, monster_dc_max as int, raw)
                && (r, *final(player_current_hp)) == #[trigger] spec_monster_attack(
                monster_accuracy,
                stats.ac as u32,
                stats.agility,
                *old(player_current_hp),
                roll,
                raw,
            ),
{
    CombatSystem::monster_attack_player(
        monster_dc_min,
        monster_dc_max,
        monster_accuracy,
        monster_level,
        stats.ac as u32,
        stats.agility,
        player_current_hp,
    )
}

/// The grid step of a direction.
pub open spec fn spec_direction_offset(dir: MirDirection) -> (i32, i32) {
    match dir {
        MirDirection::Up => (0, -1i32),
        MirDirection::UpRight => (1, -1i32),
        MirDirection::Right => (1, 0),
        MirDirection::DownRight => (1, 1),
        MirDirection::Down => (0, 1),
        MirDirection::DownLeft => (-1i32, 1),
        MirDirection::Left => (-1i32, 0),
        MirDirection::UpLeft => (-1i32, -1i32),
    }
}

/// The grid step of a direction.
pub fn direction_offset(dir: MirDirection) -> (r: (i32, i32))
    ensures
        r == spec_direction_offset(dir),
{
    match dir {
        MirDirection::Up => (0, -1),
        MirDirection::UpRight => (1, -1),
        MirDirection::Right => (1, 0),
        MirDirection::DownRight => (1, 1),
        MirDirection::Down => (0, 1),
        MirDirection::DownLeft => (-1, 1),
        MirDirection::Left => (-1, 0),
        MirDirection::UpLeft => (-1, -1),
    }
}

} // verus!
