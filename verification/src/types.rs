//! Basic value types: points, stat ranges and stat blocks.
use vstd::prelude::*;
use crate::rand::rand_i32_below;

verus! {

/// Absolute value of an integer.
pub open spec fn abs(v: int) -> int {
    if v < 0 { -v } else { v }
}

/// Manhattan distance between two grid cells.
pub open spec fn manhattan(ax: int, ay: int, bx: int, by: int) -> int {
    abs(ax - bx) + abs(ay - by)
}

/// Computes `|ax - bx| + |ay - by|`; the caller keeps the result within `i32`.
pub fn manhattan_i32(ax: i32, ay: i32, bx: i32, by: i32) -> (r: i32)
    requires
        manhattan(ax as int, ay as int, bx as int, by as int) <= i32::MAX,
    ensures
        r == manhattan(ax as int, ay as int, bx as int, by as int),
{
    let dx: i32 = if ax >= bx { ax - bx } else { bx - ax };
    let dy: i32 = if ay >= by { ay - by } else { by - ay };
    dx + dy
}

/// A point on a 2D grid.
#[derive(Debug, Clone, Copy, PartialEq, Eq, Hash, Structural)]
pub struct Point {
    pub x: i32,
    pub y: i32,
}

impl Point {
    pub fn new(x: i32, y: i32) -> (r: Self)
        ensures
            r == (Point { x, y }),
    {
        Point { x, y }
    }

    /// Manhattan distance to another point.
    pub fn distance_to(&self, other: &Point) -> (r: i32)
        requires
            manhattan(self.x as int, self.y as int, other.x as int, other.y as int) <= i32::MAX,
        ensures
            r == manhattan(self.x as int, self.y as int, other.x as int, other.y as int),
    {
        manhattan_i32(self.x, self.y, other.x, other.y)
    }
}

/// A (minimum, maximum) pair of a stat.
#[derive(Debug, Clone, Copy, PartialEq, Eq, Structural)]
pub struct StatRange {
    pub min: i32,
    pub max: i32,
}

impl StatRange {
    pub fn new(min: i32, max: i32) -> (r: Self)
        ensures
            r == (StatRange { min, max }),
    {
        StatRange { min, max }
    }

    pub fn zero() -> (r: Self)
        ensures
            r == (StatRange { min: 0, max: 0 }),
    {
        StatRange { min: 0, max: 0 }
    }

    /// The range is small enough to draw from (`max - min + 1` fits in `i32`).
    pub open spec fn drawable(self) -> bool {
        self.min >= self.max || self.max - self.min + 1 <= i32::MAX
    }

    /// A random value in `[min, max]`; `min` when `min >= max`.
    pub fn random(&self) -> (r: i32)
        requires
            self.drawable(),
        ensures
            self.min >= self.max ==> r == self.min,
            self.min < self.max ==> self.min <= r <= self.max,
    {
        if self.min >= self.max {
            self.min
        } else {
            self.min + rand_i32_below(self.max - self.min + 1)
        }
    }
}

/// Base stats of a character.
#[derive(Debug, Clone, PartialEq, Eq, Structural)]
pub struct Stats {
    /// Physical attack (DC).
    pub dc: StatRange,
    /// Magic attack (MC).
    pub mc: StatRange,
    /// Spiritual attack (SC).
    pub sc: StatRange,
    /// Defence (AC).
    pub ac: StatRange,
    /// Magic defence (MAC).
    pub mac: StatRange,
    pub hp: i32,
    pub mp: i32,
    pub accuracy: u16,
    pub agility: u16,
    pub attack_speed: i16,
    pub magic_speed: i16,
    pub luck: i16,
    pub curse: i16,
    pub min_dc: i16,
    pub min_mc: i16,
    pub min_sc: i16,
}

impl Stats {
    /// All stats zero.
    pub fn zero() -> (r: Self)
        ensures
            r.dc == (StatRange { min: 0, max: 0 }) && r.mc == r.dc && r.sc == r.dc && r.ac == r.dc
                && r.mac == r.dc,
            r.hp == 0 && r.mp == 0 && r.accuracy == 0 && r.agility == 0,
            r.attack_speed == 0 && r.magic_speed == 0 && r.luck == 0 && r.curse == 0,
            r.min_dc == 0 && r.min_mc == 0 && r.min_sc == 0,
    {
        Stats {
            dc: StatRange::zero(),
            mc: StatRange::zero(),
            sc: StatRange::zero(),
            ac: StatRange::zero(),
            mac: StatRange::zero(),
            hp: 0,
            mp: 0,
            accuracy: 0,
            agility: 0,
            attack_speed: 0,
            magic_speed: 0,
            luck: 0,
            curse: 0,
            min_dc: 0,
            min_mc: 0,
            min_sc: 0,
        }
    }
}

} // verus!
