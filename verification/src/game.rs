//! Rules of the world loop that do not belong to one subsystem.
use vstd::prelude::*;

verus! {

/// Ticks between two rounds of safe-zone regeneration.
pub const REGEN_EVERY_TICKS: u64 = 10;

/// Whether tick number `tick_count` regenerates players in safe zones.
pub fn regen_tick(tick_count: u64) -> (r: bool)
    ensures
        r == (tick_count % REGEN_EVERY_TICKS == 0),
{
    tick_count % REGEN_EVERY_TICKS == 0
}

/// Points regained per round from a pool of `max`: 2% of it, at least 1.
pub open spec fn spec_regen_gain(max: u32) -> u32 {
    if max / 50 < 1 { 1 } else { (max / 50) as u32 }
}

/// Points regained per round from a pool of `max` (see [`spec_regen_gain`]).
/// Two percent of a `u32` is a fiftieth of it, rounded down.
pub fn regen_gain(max: u32) -> (r: u32)
    ensures
        r == spec_regen_gain(max),
{
    let g = max / 50;
    if g < 1 { 1 } else { g }
}

/// A pool of `current` out of `max` after one round in a safe zone: it
/// grows by [`spec_regen_gain`] and stops at `max`.
pub fn regen(current: u32, max: u32) -> (r: u32)
    requires
        current + spec_regen_gain(max) <= u32::MAX,
    ensures
        r == (if current + spec_regen_gain(max) < max { current + spec_regen_gain(max) } else { max as int }),
{
    let v = current + regen_gain(max);
    if v < max { v } else { max }
}

} // verus!
