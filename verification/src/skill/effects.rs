//! Numbers behind the skills, for the combat rules.
use vstd::prelude::*;
use crate::rand::rand_i32_below;

verus! {

/// Healing of the Healing spell for spiritual power `sc` at `skill_level`:
/// `(⌊sc / 2⌋ + 10) * (1 + level / 2)` rounded up, held to `u32` and at
/// least 1.
pub open spec fn spec_healing_amount(sc: i32, skill_level: u8) -> u32 {
    let base = sc as int / 2 + 10;
    let amount = (base * (2 + skill_level as int) + 1) / 2;
    if amount < 1 {
        1u32
    } else if amount > u32::MAX {
        u32::MAX
    } else {
        amount as u32
    }
}

/// Healing of the Healing spell, see [`spec_healing_amount`]. Every step of
/// the formula is exact on these integers, so it is computed without rounding.
pub fn healing_amount(sc: i32, skill_level: u8) -> (r: u32)
    ensures
        r == spec_healing_amount(sc, skill_level),
        r >= 1,
{
    let s: i64 = sc as i64;
    // ⌊s / 2⌋
    let half: i64 = if s >= 0 {
        (s as u64 / 2) as i64
    } else {
        -(((((-s) as u64) + 1) / 2) as i64)
    };
    assert(half == s as int / 2);
    let base: i64 = half + 10;
    let factor: i64 = 2 + skill_level as i64;
    assert(-0x4000_0000 <= base <= 0x4000_0010);
    assert(2 <= factor <= 257);
    assert(-0x100_0000_0000 <= base * factor <= 0x100_0000_0000) by (nonlinear_arith)
        requires
            -0x4000_0000 <= base <= 0x4000_0010,
            2 <= factor <= 257,
    ;
    let num: i64 = base * factor;
    // ⌈num / 2⌉ = ⌊(num + 1) / 2⌋
    let amount: i64 = if num >= 0 {
        ((num as u64 + 1) / 2) as i64
    } else {
        -((((-num) as u64) / 2) as i64)
    };
    assert(amount == (num as int + 1) / 2);
    if amount < 1 {
        1
    } else if amount > u32::MAX as i64 {
        u32::MAX
    } else {
        amount as u32
    }
}

/// Attack bonus `(min, max)` of the Fencing skill: nothing at level 0,
/// `(1, 3)`, `(2, 6)` and `(3, 10)` at levels 1 to 3, nothing above.
pub open spec fn spec_fencing_bonus(skill_level: u8) -> (i32, i32) {
    if skill_level == 1 {
        (1i32, 3i32)
    } else if skill_level == 2 {
        (2i32, 6i32)
    } else if skill_level == 3 {
        (3i32, 10i32)
    } else {
        (0i32, 0i32)
    }
}

/// Attack bonus of the Fencing skill, see [`spec_fencing_bonus`].
pub fn fencing_bonus(skill_level: u8) -> (r: (i32, i32))
    ensures
        r == spec_fencing_bonus(skill_level),
{
    match skill_level {
        0 => (0, 0),
        1 => (1, 3),
        2 => (2, 6),
        3 => (3, 10),
        _ => (0, 0),
    }
}

/// A value drawn from `[min, max]`; `min` itself when the range holds one
/// value or none.
pub fn random_in_range(min: i32, max: i32) -> (r: i32)
    requires
        max - min + 1 <= i32::MAX,
    ensures
        min >= max ==> r == min,
        min < max ==> min <= r <= max,
{
    if min >= max {
        min
    } else {
        min + rand_i32_below(max - min + 1)
    }
}

} // verus!
