use vstd::prelude::*;

use super::bvec2::{BVec2, bvec2};
use super::uvec3::{UVec3, uvec3};
use crate::scalar::{fits_u32};

verus! {

/// an unsigned integer vector made from x and y coordinates.
#[derive(Debug, Clone, Copy, PartialEq, Eq, Structural, PartialOrd, Ord)]
pub struct UVec2 {
    pub x: u32,
    pub y: u32,
}

/// create an unsigned integer vector from x and y coordinates.
pub fn uvec2(x: u32, y: u32) -> (r: UVec2)
    ensures
        r.x == x && r.y == y,
{
    UVec2 { x: x, y: y }
}

impl UVec2 {
    /// the dot product over the integers.
    pub open spec fn dot_spec(self, o: Self) -> int {
        self.x * o.x + self.y * o.y
    }

    /// whether each product and each partial sum of the dot product, taken left to right, fits in `u32`.
    pub open spec fn can_dot(self, o: Self) -> bool {
        &&& fits_u32(self.x * o.x)
        &&& fits_u32(self.y * o.y)
        &&& fits_u32(self.x * o.x + self.y * o.y)
    }

    /// the squared length over the integers.
    pub open spec fn length_squared_spec(self) -> int {
        self.dot_spec(self)
    }

    /// whether the componentwise sum fits in `u32`.
    pub open spec fn can_add(self, o: Self) -> bool {
        &&& fits_u32(self.x + o.x)
        &&& fits_u32(self.y + o.y)
    }

    /// the componentwise sum.
    pub open spec fn sum(self, o: Self) -> Self {
        UVec2 { x: (self.x + o.x) as u32, y: (self.y + o.y) as u32 }
    }

    /// whether the componentwise difference fits in `u32`.
    pub open spec fn can_sub(self, o: Self) -> bool {
        &&& fits_u32(self.x - o.x)
        &&& fits_u32(self.y - o.y)
    }

    /// the componentwise difference.
    pub open spec fn difference(self, o: Self) -> Self {
        UVec2 { x: (self.x - o.x) as u32, y: (self.y - o.y) as u32 }
    }

    /// whether the componentwise product fits in `u32`.
    pub open spec fn can_mul(self, o: Self) -> bool {
        &&& fits_u32(self.x * o.x)
        &&& fits_u32(self.y * o.y)
    }

    /// the componentwise product.
    pub open spec fn product(self, o: Self) -> Self {
        UVec2 { x: (self.x * o.x) as u32, y: (self.y * o.y) as u32 }
    }

    /// whether componentwise division is defined: no zero divisor.
    pub open spec fn can_div(self, o: Self) -> bool {
        &&& o.x != 0
        &&& o.y != 0
    }

    /// the componentwise quotient, rounded down.
    pub open spec fn quotient(self, o: Self) -> Self {
        UVec2 { x: self.x / o.x, y: self.y / o.y }
    }

    /// the componentwise remainder.
    pub open spec fn remainder(self, o: Self) -> Self {
        UVec2 { x: self.x % o.x, y: self.y % o.y }
    }

    /// whether every component times `k` fits in `u32`.
    pub open spec fn can_scale(self, k: u32) -> bool {
        &&& fits_u32(self.x * k)
        &&& fits_u32(self.y * k)
    }

    /// every component multiplied by `k`.
    pub open spec fn scaled(self, k: u32) -> Self {
        UVec2 { x: (self.x * k) as u32, y: (self.y * k) as u32 }
    }

    /// a zero vector
    pub fn zero() -> (r: Self)
        ensures
            r.x == 0 && r.y == 0,
    {
        UVec2 { x: 0, y: 0 }
    }

    /// a vector full of ones
    pub fn one() -> (r: Self)
        ensures
            r.x == 1 && r.y == 1,
    {
        UVec2 { x: 1, y: 1 }
    }

    /// the x axis
    pub fn x_axis() -> (r: Self)
        ensures
            r.x == 1 && r.y == 0,
    {
        UVec2 { x: 1, y: 0 }
    }

    /// the y axis
    pub fn y_axis() -> (r: Self)
        ensures
            r.x == 0 && r.y == 1,
    {
        UVec2 { x: 0, y: 1 }
    }

    pub fn new(x: u32, y: u32) -> (r: Self)
        ensures
            r.x == x && r.y == y,
    {
        Self { x: x, y: y }
    }

    /// this vector with `z` appended.
    pub fn extend(self, z: u32) -> (r: UVec3)
        ensures
            r.x == self.x && r.y == self.y && r.z == z,
    {
        uvec3(self.x, self.y, z)
    }

    /// the x coordinate.
    pub fn truncate(self) -> (r: u32)
        ensures
            r == self.x,
    {
        self.x
    }

    /// create a vector where every coordinate equals `value`.
    pub fn splat(value: u32) -> (r: Self)
        ensures
            r.x == value && r.y == value,
    {
        Self::new(value, value)
    }

    /// the length of the vector before being square rooted.
    pub fn length_squared(self) -> (r: u32)
        requires
            self.can_dot(self),
        ensures
            r == self.length_squared_spec(),
    {
        self.x * self.x + self.y * self.y
    }

    /// the distance between two vectors before being square rooted.
    pub fn distance_squared(self, other: Self) -> (r: u32)
        requires
            self.can_sub(other),
            self.difference(other).can_dot(self.difference(other)),
        ensures
            r == self.difference(other).length_squared_spec(),
    {
        (self - other).length_squared()
    }

    /// the dot product of two vectors.
    pub fn dot(self, other: Self) -> (r: u32)
        requires
            self.can_dot(other),
        ensures
            r == self.dot_spec(other),
    {
        self.x * other.x + self.y * other.y
    }

    /// multiplies each coordinate by the scalar.
    pub fn scale(self, scalar: u32) -> (r: Self)
        requires
            self.can_scale(scalar),
        ensures
            r == self.scaled(scalar),
    {
        Self::new(self.x * scalar, self.y * scalar)
    }

    /// whether the two components are equal, coordinate by coordinate.
    pub fn eq(self, rhs: Self) -> (r: BVec2)
        ensures
            r == (BVec2 { x: self.x == rhs.x, y: self.y == rhs.y }),
    {
        bvec2(self.x == rhs.x, self.y == rhs.y)
    }

    /// whether the first components are less than the second, coordinate by coordinate.
    pub fn less(self, rhs: Self) -> (r: BVec2)
        ensures
            r == (BVec2 { x: self.x < rhs.x, y: self.y < rhs.y }),
    {
        bvec2(self.x < rhs.x, self.y < rhs.y)
    }

    /// whether the first components are more than the second, coordinate by coordinate.
    pub fn more(self, rhs: Self) -> (r: BVec2)
        ensures
            r == (BVec2 { x: self.x > rhs.x, y: self.y > rhs.y }),
    {
        bvec2(self.x > rhs.x, self.y > rhs.y)
    }

    /// whether the first components are less than or equal to the second, coordinate by coordinate.
    pub fn less_or_eq(self, rhs: Self) -> (r: BVec2)
        ensures
            r == (BVec2 { x: self.x <= rhs.x, y: self.y <= rhs.y }),
    {
        bvec2(self.x <= rhs.x, self.y <= rhs.y)
    }

    /// whether the first components are more than or equal to the second, coordinate by coordinate.
    pub fn more_or_eq(self, rhs: Self) -> (r: BVec2)
        ensures
            r == (BVec2 { x: self.x >= rhs.x, y: self.y >= rhs.y }),
    {
        bvec2(self.x >= rhs.x, self.y >= rhs.y)
    }
}

impl vstd::std_specs::ops::AddSpecImpl<UVec2> for UVec2 {
    open spec fn obeys_add_spec() -> bool {
        true
    }

    open spec fn add_req(self, rhs: UVec2) -> bool {
        self.can_add(rhs)
    }

    open spec fn add_spec(self, rhs: UVec2) -> UVec2 {
        self.sum(rhs)
    }
}

impl std::ops::Add<UVec2> for UVec2 {
    type Output = UVec2;

    fn add(self, rhs: UVec2) -> UVec2 {
        UVec2 { x: self.x + rhs.x, y: self.y + rhs.y }
    }
}

impl vstd::std_specs::ops::SubSpecImpl<UVec2> for UVec2 {
    open spec fn obeys_sub_spec() -> bool {
        true
    }

    open spec fn sub_req(self, rhs: UVec2) -> bool {
        self.can_sub(rhs)
    }

    open spec fn sub_spec(self, rhs: UVec2) -> UVec2 {
        self.difference(rhs)
    }
}

impl std::ops::Sub<UVec2> for UVec2 {
    type Output = UVec2;

    fn sub(self, rhs: UVec2) -> UVec2 {
        UVec2 { x: self.x - rhs.x, y: self.y - rhs.y }
    }
}

impl vstd::std_specs::ops::MulSpecImpl<UVec2> for UVec2 {
    open spec fn obeys_mul_spec() -> bool {
        true
    }

    open spec fn mul_req(self, rhs: UVec2) -> bool {
        self.can_mul(rhs)
    }

    open spec fn mul_spec(self, rhs: UVec2) -> UVec2 {
        self.product(rhs)
    }
}

impl std::ops::Mul<UVec2> for UVec2 {
    type Output = UVec2;

    fn mul(self, rhs: UVec2) -> UVec2 {
        UVec2 { x: self.x * rhs.x, y: self.y * rhs.y }
    }
}

impl vstd::std_specs::ops::DivSpecImpl<UVec2> for UVec2 {
    open spec fn obeys_div_spec() -> bool {
        true
    }

    open spec fn div_req(self, rhs: UVec2) -> bool {
        self.can_div(rhs)
    }

    open spec fn div_spec(self, rhs: UVec2) -> UVec2 {
        self.quotient(rhs)
    }
}

impl std::ops::Div<UVec2> for UVec2 {
    type Output = UVec2;

    fn div(self, rhs: UVec2) -> UVec2 {
        UVec2 { x: self.x / rhs.x, y: self.y / rhs.y }
    }
}

impl vstd::std_specs::ops::RemSpecImpl<UVec2> for UVec2 {
    open spec fn obeys_rem_spec() -> bool {
        true
    }

    open spec fn rem_req(self, rhs: UVec2) -> bool {
        self.can_div(rhs)
    }

    open spec fn rem_spec(self, rhs: UVec2) -> UVec2 {
        self.remainder(rhs)
    }
}

impl std::ops::Rem<UVec2> for UVec2 {
    type Output = UVec2;

    fn rem(self, rhs: UVec2) -> UVec2 {
        UVec2 { x: self.x % rhs.x, y: self.y % rhs.y }
    }
}

impl vstd::std_specs::ops::MulSpecImpl<u32> for UVec2 {
    open spec fn obeys_mul_spec() -> bool {
        true
    }

    open spec fn mul_req(self, rhs: u32) -> bool {
        self.can_scale(rhs)
    }

    open spec fn mul_spec(self, rhs: u32) -> UVec2 {
        self.scaled(rhs)
    }
}

impl std::ops::Mul<u32> for UVec2 {
    type Output = UVec2;

    fn mul(self, rhs: u32) -> UVec2 {
        self.scale(rhs)
    }
}

impl vstd::std_specs::ops::MulSpecImpl<UVec2> for u32 {
    open spec fn obeys_mul_spec() -> bool {
        true
    }

    open spec fn mul_req(self, rhs: UVec2) -> bool {
        rhs.can_scale(self)
    }

    open spec fn mul_spec(self, rhs: UVec2) -> UVec2 {
        rhs.scaled(self)
    }
}

impl std::ops::Mul<UVec2> for u32 {
    type Output = UVec2;

    fn mul(self, rhs: UVec2) -> UVec2 {
        rhs * self
    }
}

impl vstd::std_specs::ops::DivSpecImpl<u32> for UVec2 {
    open spec fn obeys_div_spec() -> bool {
        true
    }

    open spec fn div_req(self, rhs: u32) -> bool {
        self.can_div((UVec2 { x: rhs, y: rhs }))
    }

    open spec fn div_spec(self, rhs: u32) -> UVec2 {
        self.quotient((UVec2 { x: rhs, y: rhs }))
    }
}

impl std::ops::Div<u32> for UVec2 {
    type Output = UVec2;

    fn div(self, rhs: u32) -> UVec2 {
        self / UVec2::splat(rhs)
    }
}

impl vstd::std_specs::ops::DivSpecImpl<UVec2> for u32 {
    open spec fn obeys_div_spec() -> bool {
        true
    }

    open spec fn div_req(self, rhs: UVec2) -> bool {
        (UVec2 { x: self, y: self }).can_div(rhs)
    }

    open spec fn div_spec(self, rhs: UVec2) -> UVec2 {
        (UVec2 { x: self, y: self }).quotient(rhs)
    }
}

impl std::ops::Div<UVec2> for u32 {
    type Output = UVec2;

    fn div(self, rhs: UVec2) -> UVec2 {
        UVec2::splat(self) / rhs
    }
}

impl vstd::std_specs::ops::RemSpecImpl<u32> for UVec2 {
    open spec fn obeys_rem_spec() -> bool {
        true
    }

    open spec fn rem_req(self, rhs: u32) -> bool {
        self.can_div((UVec2 { x: rhs, y: rhs }))
    }

    open spec fn rem_spec(self, rhs: u32) -> UVec2 {
        self.remainder((UVec2 { x: rhs, y: rhs }))
    }
}

impl std::ops::Rem<u32> for UVec2 {
    type Output = UVec2;

    fn rem(self, rhs: u32) -> UVec2 {
        self % UVec2::splat(rhs)
    }
}

impl vstd::std_specs::ops::RemSpecImpl<UVec2> for u32 {
    open spec fn obeys_rem_spec() -> bool {
        true
    }

    open spec fn rem_req(self, rhs: UVec2) -> bool {
        (UVec2 { x: self, y: self }).can_div(rhs)
    }

    open spec fn rem_spec(self, rhs: UVec2) -> UVec2 {
        (UVec2 { x: self, y: self }).remainder(rhs)
    }
}

impl std::ops::Rem<UVec2> for u32 {
    type Output = UVec2;

    fn rem(self, rhs: UVec2) -> UVec2 {
        UVec2::splat(self) % rhs
    }
}

impl vstd::std_specs::convert::FromSpecImpl<(u32, u32)> for UVec2 {
    open spec fn obeys_from_spec() -> bool {
        true
    }

    open spec fn from_spec(v: (u32, u32)) -> UVec2 {
        (UVec2 { x: v.0, y: v.1 })
    }
}

impl From<(u32, u32)> for UVec2 {
    fn from(v: (u32, u32)) -> UVec2 {
        UVec2 { x: v.0, y: v.1 }
    }
}

impl vstd::std_specs::convert::FromSpecImpl<[u32; 2]> for UVec2 {
    open spec fn obeys_from_spec() -> bool {
        true
    }

    open spec fn from_spec(v: [u32; 2]) -> UVec2 {
        (UVec2 { x: v[0], y: v[1] })
    }
}

impl From<[u32; 2]> for UVec2 {
    fn from(v: [u32; 2]) -> UVec2 {
        UVec2 { x: v[0], y: v[1] }
    }
}

impl vstd::std_specs::convert::FromSpecImpl<UVec2> for (u32, u32) {
    open spec fn obeys_from_spec() -> bool {
        true
    }

    open spec fn from_spec(v: UVec2) -> (u32, u32) {
        (v.x, v.y)
    }
}

impl From<UVec2> for (u32, u32) {
    fn from(v: UVec2) -> (u32, u32) {
        (v.x, v.y)
    }
}

impl vstd::std_specs::convert::FromSpecImpl<UVec2> for [u32; 2] {
    open spec fn obeys_from_spec() -> bool {
        true
    }

    open spec fn from_spec(v: UVec2) -> [u32; 2] {
        [v.x, v.y]
    }
}

impl From<UVec2> for [u32; 2] {
    fn from(v: UVec2) -> [u32; 2] {
        [v.x, v.y]
    }
}

} // verus!
