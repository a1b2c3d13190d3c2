use vstd::prelude::*;

use super::bvec2::{BVec2, bvec2};
use super::duvec3::{DUVec3, duvec3};
use super::uvec2::UVec2;
use crate::scalar::{fits_u64};

verus! {

/// a double unsigned integer vector made from x and y coordinates.
#[derive(Debug, Clone, Copy, PartialEq, Eq, Structural, PartialOrd, Ord)]
pub struct DUVec2 {
    pub x: u64,
    pub y: u64,
}

/// create a double unsigned integer vector from x and y coordinates.
pub fn duvec2(x: u64, y: u64) -> (r: DUVec2)
    ensures
        r.x == x && r.y == y,
{
    DUVec2 { x: x, y: y }
}

impl DUVec2 {
    /// the dot product over the integers.
    pub open spec fn dot_spec(self, o: Self) -> int {
        self.x * o.x + self.y * o.y
    }

    /// whether each product and each partial sum of the dot product, taken left to right, fits in `u64`.
    pub open spec fn can_dot(self, o: Self) -> bool {
        &&& fits_u64(self.x * o.x)
        &&& fits_u64(self.y * o.y)
        &&& fits_u64(self.x * o.x + self.y * o.y)
    }

    /// the squared length over the integers.
    pub open spec fn length_squared_spec(self) -> int {
        self.dot_spec(self)
    }

    /// whether the componentwise sum fits in `u64`.
    pub open spec fn can_add(self, o: Self) -> bool {
        &&& fits_u64(self.x + o.x)
        &&& fits_u64(self.y + o.y)
    }

    /// the componentwise sum.
    pub open spec fn sum(self, o: Self) -> Self {
        DUVec2 { x: (self.x + o.x) as u64, y: (self.y + o.y) as u64 }
    }

    /// whether the componentwise difference fits in `u64`.
    pub open spec fn can_sub(self, o: Self) -> bool {
        &&& fits_u64(self.x - o.x)
        &&& fits_u64(self.y - o.y)
    }

    /// the componentwise difference.
    pub open spec fn difference(self, o: Self) -> Self {
        DUVec2 { x: (self.x - o.x) as u64, y: (self.y - o.y) as u64 }
    }

    /// whether the componentwise product fits in `u64`.
    pub open spec fn can_mul(self, o: Self) -> bool {
        &&& fits_u64(self.x * o.x)
        &&& fits_u64(self.y * o.y)
    }

    /// the componentwise product.
    pub open spec fn product(self, o: Self) -> Self {
        DUVec2 { x: (self.x * o.x) as u64, y: (self.y * o.y) as u64 }
    }

    /// whether componentwise division is defined: no zero divisor.
    pub open spec fn can_div(self, o: Self) -> bool {
        &&& o.x != 0
        &&& o.y != 0
    }

    /// the componentwise quotient, rounded down.
    pub open spec fn quotient(self, o: Self) -> Self {
        DUVec2 { x: self.x / o.x, y: self.y / o.y }
    }

    /// the componentwise remainder.
    pub open spec fn remainder(self, o: Self) -> Self {
        DUVec2 { x: self.x % o.x, y: self.y % o.y }
    }

    /// whether every component times `k` fits in `u64`.
    pub open spec fn can_scale(self, k: u64) -> bool {
        &&& fits_u64(self.x * k)
        &&& fits_u64(self.y * k)
    }

    /// every component multiplied by `k`.
    pub open spec fn scaled(self, k: u64) -> Self {
        DUVec2 { x: (self.x * k) as u64, y: (self.y * k) as u64 }
    }

    /// a zero vector
    pub fn zero() -> (r: Self)
        ensures
            r.x == 0 && r.y == 0,
    {
        DUVec2 { x: 0, y: 0 }
    }

    /// a vector full of ones
    pub fn one() -> (r: Self)
        ensures
            r.x == 1 && r.y == 1,
    {
        DUVec2 { x: 1, y: 1 }
    }

    /// the x axis
    pub fn x_axis() -> (r: Self)
        ensures
            r.x == 1 && r.y == 0,
    {
        DUVec2 { x: 1, y: 0 }
    }

    /// the y axis
    pub fn y_axis() -> (r: Self)
        ensures
            r.x == 0 && r.y == 1,
    {
        DUVec2 { x: 0, y: 1 }
    }

    pub fn new(x: u64, y: u64) -> (r: Self)
        ensures
            r.x == x && r.y == y,
    {
        Self { x: x, y: y }
    }

    /// this vector with `z` appended.
    pub fn extend(self, z: u64) -> (r: DUVec3)
        ensures
            r.x == self.x && r.y == self.y && r.z == z,
    {
        duvec3(self.x, self.y, z)
    }

    /// the x coordinate.
    pub fn truncate(self) -> (r: u64)
        ensures
            r == self.x,
    {
        self.x
    }

    /// create a vector where every coordinate equals `value`.
    pub fn splat(value: u64) -> (r: Self)
        ensures
            r.x == value && r.y == value,
    {
        Self::new(value, value)
    }

    /// the length of the vector before being square rooted.
    pub fn length_squared(self) -> (r: u64)
        requires
            self.can_dot(self),
        ensures
            r == self.length_squared_spec(),
    {
        self.x * self.x + self.y * self.y
    }

    /// the distance between two vectors before being square rooted.
    pub fn distance_squared(self, other: Self) -> (r: u64)
        requires
            self.can_sub(other),
            self.difference(other).can_dot(self.difference(other)),
        ensures
            r == self.difference(other).length_squared_spec(),
    {
        (self - other).length_squared()
    }

    /// the dot product of two vectors.
    pub fn dot(self, other: Self) -> (r: u64)
        requires
            self.can_dot(other),
        ensures
            r == self.dot_spec(other),
    {
        self.x * other.x + self.y * other.y
    }

    /// multiplies each coordinate by the scalar.
    pub fn scale(self, scalar: u64) -> (r: Self)
        requires
            self.can_scale(scalar),
        ensures
            r == self.scaled(scalar),
    {
        Self::new(self.x * scalar, self.y * scalar)
    }

    /// whether the two components are equal, coordinate by coordinate.
    pub fn eq(self, rhs: Self) -> (r: BVec2)
        ensures
            r == (BVec2 { x: self.x == rhs.x, y: self.y == rhs.y }),
    {
        bvec2(self.x == rhs.x, self.y == rhs.y)
    }

    /// whether the first components are less than the second, coordinate by coordinate.
    pub fn less(self, rhs: Self) -> (r: BVec2)
        ensures
            r == (BVec2 { x: self.x < rhs.x, y: self.y < rhs.y }),
    {
        bvec2(self.x < rhs.x, self.y < rhs.y)
    }

    /// whether the first components are more than the second, coordinate by coordinate.
    pub fn more(self, rhs: Self) -> (r: BVec2)
        ensures
            r == (BVec2 { x: self.x > rhs.x, y: self.y > rhs.y }),
    {
        bvec2(self.x > rhs.x, self.y > rhs.y)
    }

    /// whether the first components are less than or equal to the second, coordinate by coordinate.
    pub fn less_or_eq(self, rhs: Self) -> (r: BVec2)
        ensures
            r == (BVec2 { x: self.x <= rhs.x, y: self.y <= rhs.y }),
    {
        bvec2(self.x <= rhs.x, self.y <= rhs.y)
    }

    /// whether the first components are more than or equal to the second, coordinate by coordinate.
    pub fn more_or_eq(self, rhs: Self) -> (r: BVec2)
        ensures
            r == (BVec2 { x: self.x >= rhs.x, y: self.y >= rhs.y }),
    {
        bvec2(self.x >= rhs.x, self.y >= rhs.y)
    }
}

impl vstd::std_specs::ops::AddSpecImpl<DUVec2> for DUVec2 {
    open spec fn obeys_add_spec() -> bool {
        true
    }

    open spec fn add_req(self, rhs: DUVec2) -> bool {
        self.can_add(rhs)
    }

    open spec fn add_spec(self, rhs: DUVec2) -> DUVec2 {
        self.sum(rhs)
    }
}

impl std::ops::Add<DUVec2> for DUVec2 {
    type Output = DUVec2;

    fn add(self, rhs: DUVec2) -> DUVec2 {
        DUVec2 { x: self.x + rhs.x, y: self.y + rhs.y }
    }
}

impl vstd::std_specs::ops::SubSpecImpl<DUVec2> for DUVec2 {
    open spec fn obeys_sub_spec() -> bool {
        true
    }

    open spec fn sub_req(self, rhs: DUVec2) -> bool {
        self.can_sub(rhs)
    }

    open spec fn sub_spec(self, rhs: DUVec2) -> DUVec2 {
        self.difference(rhs)
    }
}

impl std::ops::Sub<DUVec2> for DUVec2 {
    type Output = DUVec2;

    fn sub(self, rhs: DUVec2) -> DUVec2 {
        DUVec2 { x: self.x - rhs.x, y: self.y - rhs.y }
    }
}

impl vstd::std_specs::ops::MulSpecImpl<DUVec2> for DUVec2 {
    open spec fn obeys_mul_spec() -> bool {
        true
    }

    open spec fn mul_req(self, rhs: DUVec2) -> bool {
        self.can_mul(rhs)
    }

    open spec fn mul_spec(self, rhs: DUVec2) -> DUVec2 {
        self.product(rhs)
    }
}

impl std::ops::Mul<DUVec2> for DUVec2 {
    type Output = DUVec2;

    fn mul(self, rhs: DUVec2) -> DUVec2 {
        DUVec2 { x: self.x * rhs.x, y: self.y * rhs.y }
    }
}

impl vstd::std_specs::ops::DivSpecImpl<DUVec2> for DUVec2 {
    open spec fn obeys_div_spec() -> bool {
        true
    }

    open spec fn div_req(self, rhs: DUVec2) -> bool {
        self.can_div(rhs)
    }

    open spec fn div_spec(self, rhs: DUVec2) -> DUVec2 {
        self.quotient(rhs)
    }
}

impl std::ops::Div<DUVec2> for DUVec2 {
    type Output = DUVec2;

    fn div(self, rhs: DUVec2) -> DUVec2 {
        DUVec2 { x: self.x / rhs.x, y: self.y / rhs.y }
    }
}

impl vstd::std_specs::ops::RemSpecImpl<DUVec2> for DUVec2 {
    open spec fn obeys_rem_spec() -> bool {
        true
    }

    open spec fn rem_req(self, rhs: DUVec2) -> bool {
        self.can_div(rhs)
    }

    open spec fn rem_spec(self, rhs: DUVec2) -> DUVec2 {
        self.remainder(rhs)
    }
}

impl std::ops::Rem<DUVec2> for DUVec2 {
    type Output = DUVec2;

    fn rem(self, rhs: DUVec2) -> DUVec2 {
        DUVec2 { x: self.x % rhs.x, y: self.y % rhs.y }
    }
}

impl vstd::std_specs::ops::MulSpecImpl<u64> for DUVec2 {
    open spec fn obeys_mul_spec() -> bool {
        true
    }

    open spec fn mul_req(self, rhs: u64) -> bool {
        self.can_scale(rhs)
    }

    open spec fn mul_spec(self, rhs: u64) -> DUVec2 {
        self.scaled(rhs)
    }
}

impl std::ops::Mul<u64> for DUVec2 {
    type Output = DUVec2;

    fn mul(self, rhs: u64) -> DUVec2 {
        self.scale(rhs)
    }
}

impl vstd::std_specs::ops::MulSpecImpl<DUVec2> for u64 {
    open spec fn obeys_mul_spec() -> bool {
        true
    }

    open spec fn mul_req(self, rhs: DUVec2) -> bool {
        rhs.can_scale(self)
    }

    open spec fn mul_spec(self, rhs: DUVec2) -> DUVec2 {
        rhs.scaled(self)
    }
}

impl std::ops::Mul<DUVec2> for u64 {
    type Output = DUVec2;

    fn mul(self, rhs: DUVec2) -> DUVec2 {
        rhs * self
    }
}

impl vstd::std_specs::ops::DivSpecImpl<u64> for DUVec2 {
    open spec fn obeys_div_spec() -> bool {
        true
    }

    open spec fn div_req(self, rhs: u64) -> bool {
        self.can_div((DUVec2 { x: rhs, y: rhs }))
    }

    open spec fn div_spec(self, rhs: u64) -> DUVec2 {
        self.quotient((DUVec2 { x: rhs, y: rhs }))
    }
}

impl std::ops::Div<u64> for DUVec2 {
    type Output = DUVec2;

    fn div(self, rhs: u64) -> DUVec2 {
        self / DUVec2::splat(rhs)
    }
}

impl vstd::std_specs::ops::DivSpecImpl<DUVec2> for u64 {
    open spec fn obeys_div_spec() -> bool {
        true
    }

    open spec fn div_req(self, rhs: DUVec2) -> bool {
        (DUVec2 { x: self, y: self }).can_div(rhs)
    }

    open spec fn div_spec(self, rhs: DUVec2) -> DUVec2 {
        (DUVec2 { x: self, y: self }).quotient(rhs)
    }
}

impl std::ops::Div<DUVec2> for u64 {
    type Output = DUVec2;

    fn div(self, rhs: DUVec2) -> DUVec2 {
        DUVec2::splat(self) / rhs
    }
}

impl vstd::std_specs::ops::RemSpecImpl<u64> for DUVec2 {
    open spec fn obeys_rem_spec() -> bool {
        true
    }

    open spec fn rem_req(self, rhs: u64) -> bool {
        self.can_div((DUVec2 { x: rhs, y: rhs }))
    }

    open spec fn rem_spec(self, rhs: u64) -> DUVec2 {
        self.remainder((DUVec2 { x: rhs, y: rhs }))
    }
}

impl std::ops::Rem<u64> for DUVec2 {
    type Output = DUVec2;

    fn rem(self, rhs: u64) -> DUVec2 {
        self % DUVec2::splat(rhs)
    }
}

impl vstd::std_specs::ops::RemSpecImpl<DUVec2> for u64 {
    open spec fn obeys_rem_spec() -> bool {
        true
    }

    open spec fn rem_req(self, rhs: DUVec2) -> bool {
        (DUVec2 { x: self, y: self }).can_div(rhs)
    }

    open spec fn rem_spec(self, rhs: DUVec2) -> DUVec2 {
        (DUVec2 { x: self, y: self }).remainder(rhs)
    }
}

impl std::ops::Rem<DUVec2> for u64 {
    type Output = DUVec2;

    fn rem(self, rhs: DUVec2) -> DUVec2 {
        DUVec2::splat(self) % rhs
    }
}

impl vstd::std_specs::convert::FromSpecImpl<(u64, u64)> for DUVec2 {
    open spec fn obeys_from_spec() -> bool {
        true
    }

    open spec fn from_spec(v: (u64, u64)) -> DUVec2 {
        (DUVec2 { x: v.0, y: v.1 })
    }
}

impl From<(u64, u64)> for DUVec2 {
    fn from(v: (u64, u64)) -> DUVec2 {
        DUVec2 { x: v.0, y: v.1 }
    }
}

impl vstd::std_specs::convert::FromSpecImpl<[u64; 2]> for DUVec2 {
    open spec fn obeys_from_spec() -> bool {
        true
    }

    open spec fn from_spec(v: [u64; 2]) -> DUVec2 {
        (DUVec2 { x: v[0], y: v[1] })
    }
}

impl From<[u64; 2]> for DUVec2 {
    fn from(v: [u64; 2]) -> DUVec2 {
        DUVec2 { x: v[0], y: v[1] }
    }
}

impl vstd::std_specs::convert::FromSpecImpl<DUVec2> for (u64, u64) {
    open spec fn obeys_from_spec() -> bool {
        true
    }

    open spec fn from_spec(v: DUVec2) -> (u64, u64) {
        (v.x, v.y)
    }
}

impl From<DUVec2> for (u64, u64) {
    fn from(v: DUVec2) -> (u64, u64) {
        (v.x, v.y)
    }
}

impl vstd::std_specs::convert::FromSpecImpl<DUVec2> for [u64; 2] {
    open spec fn obeys_from_spec() -> bool {
        true
    }

    open spec fn from_spec(v: DUVec2) -> [u64; 2] {
        [v.x, v.y]
    }
}

impl From<DUVec2> for [u64; 2] {
    fn from(v: DUVec2) -> [u64; 2] {
        [v.x, v.y]
    }
}

impl vstd::std_specs::convert::FromSpecImpl<UVec2> for DUVec2 {
    open spec fn obeys_from_spec() -> bool {
        true
    }

    open spec fn from_spec(v: UVec2) -> DUVec2 {
        (DUVec2 { x: v.x as u64, y: v.y as u64 })
    }
}

impl From<UVec2> for DUVec2 {
    fn from(v: UVec2) -> DUVec2 {
        DUVec2 { x: v.x as u64, y: v.y as u64 }
    }
}

} // verus!
