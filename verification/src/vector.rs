//! Exact three-component coordinates.
//!
//! A coordinate counts fixed sub-units: `UNIT` of them make one unit of model
//! space (one pixel of the character's skin), one degree of a rotation, or
//! one texel of a texture. Axes: +X east, +Y up, +Z south.

use vstd::prelude::*;

verus! {

/// How many sub-units make one unit.
pub const UNIT: i64 = 1024;

/// A position, size, direction or set of angles, in sub-units.
#[derive(Clone, Copy, Debug, PartialEq, Eq, Structural, Hash)]
pub struct Vector {
    pub x: i64,
    pub y: i64,
    pub z: i64,
}

/// A position in model space.
pub type MinecraftPosition = Vector;

/// The number fits a machine integer.
pub open spec fn fits(value: int) -> bool {
    i64::MIN <= value <= i64::MAX
}

impl Vector {
    pub open spec fn zero() -> Vector {
        Vector { x: 0, y: 0, z: 0 }
    }

    pub open spec fn non_negative(self) -> bool {
        self.x >= 0 && self.y >= 0 && self.z >= 0
    }

    /// Every component of the sum fits a machine integer.
    pub open spec fn sum_fits(self, other: Vector) -> bool {
        fits(self.x + other.x) && fits(self.y + other.y) && fits(self.z + other.z)
    }

    /// Every component of the difference fits a machine integer.
    pub open spec fn difference_fits(self, other: Vector) -> bool {
        fits(self.x - other.x) && fits(self.y - other.y) && fits(self.z - other.z)
    }

    /// `self` is the component-wise sum of `a` and `b`.
    pub open spec fn is_sum_of(self, a: Vector, b: Vector) -> bool {
        self.x == a.x + b.x && self.y == a.y + b.y && self.z == a.z + b.z
    }

    /// `self` is the component-wise difference `a - b`.
    pub open spec fn is_difference_of(self, a: Vector, b: Vector) -> bool {
        self.x == a.x - b.x && self.y == a.y - b.y && self.z == a.z - b.z
    }

    pub fn new(x: i64, y: i64, z: i64) -> (v: Vector)
        ensures
            v == (Vector { x, y, z }),
    {
        Vector { x, y, z }
    }

    /// The zero vector.
    pub fn new_zero() -> (v: Vector)
        ensures
            v == Vector::zero(),
    {
        Vector { x: 0, y: 0, z: 0 }
    }

    /// The vector with all three components equal to `value`.
    pub fn splat(value: i64) -> (v: Vector)
        ensures
            v == (Vector { x: value, y: value, z: value }),
    {
        Vector { x: value, y: value, z: value }
    }

    /// The vector of whole units.
    pub fn from_units(x: i32, y: i32, z: i32) -> (v: Vector)
        ensures
            v.x == x * UNIT,
            v.y == y * UNIT,
            v.z == z * UNIT,
    {
        Vector { x: (x as i64) * UNIT, y: (y as i64) * UNIT, z: (z as i64) * UNIT }
    }

    /// The vector of whole, non-negative units.
    pub fn from_sizes(x: u32, y: u32, z: u32) -> (v: Vector)
        ensures
            v.x == x * UNIT,
            v.y == y * UNIT,
            v.z == z * UNIT,
            v.non_negative(),
    {
        Vector { x: (x as i64) * UNIT, y: (y as i64) * UNIT, z: (z as i64) * UNIT }
    }

    /// The component-wise difference, where it fits.
    pub fn checked_minus(self, other: Vector) -> (difference: Option<Vector>)
        ensures
            difference.is_some() == self.difference_fits(other),
            difference matches Some(difference) ==> difference.is_difference_of(self, other),
    {
        match (self.x.checked_sub(other.x), self.y.checked_sub(other.y), self.z.checked_sub(other.z)) {
            (Some(x), Some(y), Some(z)) => Some(Vector { x, y, z }),
            _ => None,
        }
    }

    /// The component-wise sum, where it fits.
    pub fn checked_plus(self, other: Vector) -> (sum: Option<Vector>)
        ensures
            sum.is_some() == self.sum_fits(other),
            sum matches Some(sum) ==> sum.is_sum_of(self, other),
    {
        match (self.x.checked_add(other.x), self.y.checked_add(other.y), self.z.checked_add(other.z)) {
            (Some(x), Some(y), Some(z)) => Some(Vector { x, y, z }),
            _ => None,
        }
    }

    /// The component-wise sum.
    pub fn plus(self, other: Vector) -> (sum: Vector)
        requires
            self.sum_fits(other),
        ensures
            sum.is_sum_of(self, other),
    {
        Vector { x: self.x + other.x, y: self.y + other.y, z: self.z + other.z }
    }

    /// The component-wise difference.
    pub fn minus(self, other: Vector) -> (difference: Vector)
        requires
            self.difference_fits(other),
        ensures
            difference.is_difference_of(self, other),
    {
        Vector { x: self.x - other.x, y: self.y - other.y, z: self.z - other.z }
    }
}

} // verus!
