use vstd::prelude::*;

use super::bvec3::{BVec3, bvec3};
use super::uvec2::{UVec2, uvec2};
use super::uvec4::{UVec4, uvec4};
use crate::scalar::{fits_u32};

verus! {

/// an unsigned integer vector made from x, y and z coordinates.
#[derive(Debug, Clone, Copy, PartialEq, Eq, Structural, PartialOrd, Ord)]
pub struct UVec3 {
    pub x: u32,
    pub y: u32,
    pub z: u32,
}

/// create an unsigned integer vector from x, y and z coordinates.
pub fn uvec3(x: u32, y: u32, z: u32) -> (r: UVec3)
    ensures
        r.x == x && r.y == y && r.z == z,
{
    UVec3 { x: x, y: y, z: z }
}

impl UVec3 {
    /// the dot product over the integers.
    pub open spec fn dot_spec(self, o: Self) -> int {
        self.x * o.x + self.y * o.y + self.z * o.z
    }

    /// whether each product and each partial sum of the dot product, taken left to right, fits in `u32`.
    pub open spec fn can_dot(self, o: Self) -> bool {
        &&& fits_u32(self.x * o.x)
        &&& fits_u32(self.y * o.y)
        &&& fits_u32(self.x * o.x + self.y * o.y)
        &&& fits_u32(self.z * o.z)
        &&& fits_u32(self.x * o.x + self.y * o.y + self.z * o.z)
    }

    /// the squared length over the integers.
    pub open spec fn length_squared_spec(self) -> int {
        self.dot_spec(self)
    }

    /// whether the componentwise sum fits in `u32`.
    pub open spec fn can_add(self, o: Self) -> bool {
        &&& fits_u32(self.x + o.x)
        &&& fits_u32(self.y + o.y)
        &&& fits_u32(self.z + o.z)
    }

    /// the componentwise sum.
    pub open spec fn sum(self, o: Self) -> Self {
        UVec3 {
            x: (self.x + o.x) as u32,
            y: (self.y + o.y) as u32,
            z: (self.z + o.z) as u32,
        }
    }

    /// whether the componentwise difference fits in `u32`.
    pub open spec fn can_sub(self, o: Self) -> bool {
        &&& fits_u32(self.x - o.x)
        &&& fits_u32(self.y - o.y)
        &&& fits_u32(self.z - o.z)
    }

    /// the componentwise difference.
    pub open spec fn difference(self, o: Self) -> Self {
        UVec3 {
            x: (self.x - o.x) as u32,
            y: (self.y - o.y) as u32,
            z: (self.z - o.z) as u32,
        }
    }

    /// whether the componentwise product fits in `u32`.
    pub open spec fn can_mul(self, o: Self) -> bool {
        &&& fits_u32(self.x * o.x)
        &&& fits_u32(self.y * o.y)
        &&& fits_u32(self.z * o.z)
    }

    /// the componentwise product.
    pub open spec fn product(self, o: Self) -> Self {
        UVec3 {
            x: (self.x * o.x) as u32,
            y: (self.y * o.y) as u32,
            z: (self.z * o.z) as u32,
        }
    }

    /// whether componentwise division is defined: no zero divisor.
    pub open spec fn can_div(self, o: Self) -> bool {
        &&& o.x != 0
        &&& o.y != 0
        &&& o.z != 0
    }

    /// the componentwise quotient, rounded down.
    pub open spec fn quotient(self, o: Self) -> Self {
        UVec3 { x: self.x / o.x, y: self.y / o.y, z: self.z / o.z }
    }

    /// the componentwise remainder.
    pub open spec fn remainder(self, o: Self) -> Self {
        UVec3 { x: self.x % o.x, y: self.y % o.y, z: self.z % o.z }
    }

    /// whether every component times `k` fits in `u32`.
    pub open spec fn can_scale(self, k: u32) -> bool {
        &&& fits_u32(self.x * k)
        &&& fits_u32(self.y * k)
        &&& fits_u32(self.z * k)
    }

    /// every component multiplied by `k`.
    pub open spec fn scaled(self, k: u32) -> Self {
        UVec3 {
            x: (self.x * k) as u32,
            y: (self.y * k) as u32,
            z: (self.z * k) as u32,
        }
    }

    /// the x component of the cross product over the integers.
    pub open spec fn cross_x(self, o: Self) -> int {
        self.y * o.z - self.z * o.y
    }

    /// the y component of the cross product over the integers.
    pub open spec fn cross_y(self, o: Self) -> int {
        self.z * o.x - self.x * o.z
    }

    /// the z component of the cross product over the integers.
    pub open spec fn cross_z(self, o: Self) -> int {
        self.x * o.y - self.y * o.x
    }

    /// whether every product and difference of the cross product fits in `u32`.
    pub open spec fn can_cross(self, o: Self) -> bool {
        &&& fits_u32(self.y * o.z)
        &&& fits_u32(self.z * o.y)
        &&& fits_u32(self.cross_x(o))
        &&& fits_u32(self.z * o.x)
        &&& fits_u32(self.x * o.z)
        &&& fits_u32(self.cross_y(o))
        &&& fits_u32(self.x * o.y)
        &&& fits_u32(self.y * o.x)
        &&& fits_u32(self.cross_z(o))
    }

    /// a zero vector
    pub fn zero() -> (r: Self)
        ensures
            r.x == 0 && r.y == 0 && r.z == 0,
    {
        UVec3 { x: 0, y: 0, z: 0 }
    }

    /// a vector full of ones
    pub fn one() -> (r: Self)
        ensures
            r.x == 1 && r.y == 1 && r.z == 1,
    {
        UVec3 { x: 1, y: 1, z: 1 }
    }

    /// the x axis
    pub fn x_axis() -> (r: Self)
        ensures
            r.x == 1 && r.y == 0 && r.z == 0,
    {
        UVec3 { x: 1, y: 0, z: 0 }
    }

    /// the y axis
    pub fn y_axis() -> (r: Self)
        ensures
            r.x == 0 && r.y == 1 && r.z == 0,
    {
        UVec3 { x: 0, y: 1, z: 0 }
    }

    /// the z axis
    pub fn z_axis() -> (r: Self)
        ensures
            r.x == 0 && r.y == 0 && r.z == 1,
    {
        UVec3 { x: 0, y: 0, z: 1 }
    }

    pub fn new(x: u32, y: u32, z: u32) -> (r: Self)
        ensures
            r.x == x && r.y == y && r.z == z,
    {
        Self { x: x, y: y, z: z }
    }

    /// this vector with `w` appended.
    pub fn extend(self, w: u32) -> (r: UVec4)
        ensures
            r.x == self.x && r.y == self.y && r.z == self.z && r.w == w,
    {
        uvec4(self.x, self.y, self.z, w)
    }

    /// this vector without its last coordinate.
    pub fn truncate(self) -> (r: UVec2)
        ensures
            r.x == self.x && r.y == self.y,
    {
        uvec2(self.x, self.y)
    }

    /// create a vector where every coordinate equals `value`.
    pub fn splat(value: u32) -> (r: Self)
        ensures
            r.x == value && r.y == value && r.z == value,
    {
        Self::new(value, value, value)
    }

    /// the length of the vector before being square rooted.
    pub fn length_squared(self) -> (r: u32)
        requires
            self.can_dot(self),
        ensures
            r == self.length_squared_spec(),
    {
        self.x * self.x + self.y * self.y + self.z * self.z
    }

    /// the distance between two vectors before being square rooted.
    pub fn distance_squared(self, other: Self) -> (r: u32)
        requires
            self.can_sub(other),
            self.difference(other).can_dot(self.difference(other)),
        ensures
            r == self.difference(other).length_squared_spec(),
    {
        (self - other).length_squared()
    }

    /// the dot product of two vectors.
    pub fn dot(self, other: Self) -> (r: u32)
        requires
            self.can_dot(other),
        ensures
            r == self.dot_spec(other),
    {
        self.x * other.x + self.y * other.y + self.z * other.z
    }

    /// the cross product of two vectors: a vector perpendicular to both, not normalised.
    pub fn cross(self, other: Self) -> (r: Self)
        requires
            self.can_cross(other),
        ensures
            r.x == self.cross_x(other),
            r.y == self.cross_y(other),
            r.z == self.cross_z(other),
    {
        uvec3(
            self.y * other.z - self.z * other.y,
            self.z * other.x - self.x * other.z,
            self.x * other.y - self.y * other.x,
        )
    }

    /// multiplies each coordinate by the scalar.
    pub fn scale(self, scalar: u32) -> (r: Self)
        requires
            self.can_scale(scalar),
        ensures
            r == self.scaled(scalar),
    {
        Self::new(self.x * scalar, self.y * scalar, self.z * scalar)
    }

    /// whether the two components are equal, coordinate by coordinate.
    pub fn eq(self, rhs: Self) -> (r: BVec3)
        ensures
            r == (BVec3 { x: self.x == rhs.x, y: self.y == rhs.y, z: self.z == rhs.z }),
    {
        bvec3(self.x == rhs.x, self.y == rhs.y, self.z == rhs.z)
    }

    /// whether the first components are less than the second, coordinate by coordinate.
    pub fn less(self, rhs: Self) -> (r: BVec3)
        ensures
            r == (BVec3 { x: self.x < rhs.x, y: self.y < rhs.y, z: self.z < rhs.z }),
    {
        bvec3(self.x < rhs.x, self.y < rhs.y, self.z < rhs.z)
    }

    /// whether the first components are more than the second, coordinate by coordinate.
    pub fn more(self, rhs: Self) -> (r: BVec3)
        ensures
            r == (BVec3 { x: self.x > rhs.x, y: self.y > rhs.y, z: self.z > rhs.z }),
    {
        bvec3(self.x > rhs.x, self.y > rhs.y, self.z > rhs.z)
    }

    /// whether the first components are less than or equal to the second, coordinate by coordinate.
    pub fn less_or_eq(self, rhs: Self) -> (r: BVec3)
        ensures
            r == (BVec3 { x: self.x <= rhs.x, y: self.y <= rhs.y, z: self.z <= rhs.z }),
    {
        bvec3(self.x <= rhs.x, self.y <= rhs.y, self.z <= rhs.z)
    }

    /// whether the first components are more than or equal to the second, coordinate by coordinate.
    pub fn more_or_eq(self, rhs: Self) -> (r: BVec3)
        ensures
            r == (BVec3 { x: self.x >= rhs.x, y: self.y >= rhs.y, z: self.z >= rhs.z }),
    {
        bvec3(self.x >= rhs.x, self.y >= rhs.y, self.z >= rhs.z)
    }
}

impl vstd::std_specs::ops::AddSpecImpl<UVec3> for UVec3 {
    open spec fn obeys_add_spec() -> bool {
        true
    }

    open spec fn add_req(self, rhs: UVec3) -> bool {
        self.can_add(rhs)
    }

    open spec fn add_spec(self, rhs: UVec3) -> UVec3 {
        self.sum(rhs)
    }
}

impl std::ops::Add<UVec3> for UVec3 {
    type Output = UVec3;

    fn add(self, rhs: UVec3) -> UVec3 {
        UVec3 { x: self.x + rhs.x, y: self.y + rhs.y, z: self.z + rhs.z }
    }
}

impl vstd::std_specs::ops::SubSpecImpl<UVec3> for UVec3 {
    open spec fn obeys_sub_spec() -> bool {
        true
    }

    open spec fn sub_req(self, rhs: UVec3) -> bool {
        self.can_sub(rhs)
    }

    open spec fn sub_spec(self, rhs: UVec3) -> UVec3 {
        self.difference(rhs)
    }
}

impl std::ops::Sub<UVec3> for UVec3 {
    type Output = UVec3;

    fn sub(self, rhs: UVec3) -> UVec3 {
        UVec3 { x: self.x - rhs.x, y: self.y - rhs.y, z: self.z - rhs.z }
    }
}

impl vstd::std_specs::ops::MulSpecImpl<UVec3> for UVec3 {
    open spec fn obeys_mul_spec() -> bool {
        true
    }

    open spec fn mul_req(self, rhs: UVec3) -> bool {
        self.can_mul(rhs)
    }

    open spec fn mul_spec(self, rhs: UVec3) -> UVec3 {
        self.product(rhs)
    }
}

impl std::ops::Mul<UVec3> for UVec3 {
    type Output = UVec3;

    fn mul(self, rhs: UVec3) -> UVec3 {
        UVec3 { x: self.x * rhs.x, y: self.y * rhs.y, z: self.z * rhs.z }
    }
}

impl vstd::std_specs::ops::DivSpecImpl<UVec3> for UVec3 {
    open spec fn obeys_div_spec() -> bool {
        true
    }

    open spec fn div_req(self, rhs: UVec3) -> bool {
        self.can_div(rhs)
    }

    open spec fn div_spec(self, rhs: UVec3) -> UVec3 {
        self.quotient(rhs)
    }
}

impl std::ops::Div<UVec3> for UVec3 {
    type Output = UVec3;

    fn div(self, rhs: UVec3) -> UVec3 {
        UVec3 { x: self.x / rhs.x, y: self.y / rhs.y, z: self.z / rhs.z }
    }
}

impl vstd::std_specs::ops::RemSpecImpl<UVec3> for UVec3 {
    open spec fn obeys_rem_spec() -> bool {
        true
    }

    open spec fn rem_req(self, rhs: UVec3) -> bool {
        self.can_div(rhs)
    }

    open spec fn rem_spec(self, rhs: UVec3) -> UVec3 {
        self.remainder(rhs)
    }
}

impl std::ops::Rem<UVec3> for UVec3 {
    type Output = UVec3;

    fn rem(self, rhs: UVec3) -> UVec3 {
        UVec3 { x: self.x % rhs.x, y: self.y % rhs.y, z: self.z % rhs.z }
    }
}

impl vstd::std_specs::ops::MulSpecImpl<u32> for UVec3 {
    open spec fn obeys_mul_spec() -> bool {
        true
    }

    open spec fn mul_req(self, rhs: u32) -> bool {
        self.can_scale(rhs)
    }

    open spec fn mul_spec(self, rhs: u32) -> UVec3 {
        self.scaled(rhs)
    }
}

impl std::ops::Mul<u32> for UVec3 {
    type Output = UVec3;

    fn mul(self, rhs: u32) -> UVec3 {
        self.scale(rhs)
    }
}

impl vstd::std_specs::ops::MulSpecImpl<UVec3> for u32 {
    open spec fn obeys_mul_spec() -> bool {
        true
    }

    open spec fn mul_req(self, rhs: UVec3) -> bool {
        rhs.can_scale(self)
    }

    open spec fn mul_spec(self, rhs: UVec3) -> UVec3 {
        rhs.scaled(self)
    }
}

impl std::ops::Mul<UVec3> for u32 {
    type Output = UVec3;

    fn mul(self, rhs: UVec3) -> UVec3 {
        rhs * self
    }
}

impl vstd::std_specs::ops::DivSpecImpl<u32> for UVec3 {
    open spec fn obeys_div_spec() -> bool {
        true
    }

    open spec fn div_req(self, rhs: u32) -> bool {
        self.can_div((UVec3 { x: rhs, y: rhs, z: rhs }))
    }

    open spec fn div_spec(self, rhs: u32) -> UVec3 {
        self.quotient((UVec3 { x: rhs, y: rhs, z: rhs }))
    }
}

impl std::ops::Div<u32> for UVec3 {
    type Output = UVec3;

    fn div(self, rhs: u32) -> UVec3 {
        self / UVec3::splat(rhs)
    }
}

impl vstd::std_specs::ops::DivSpecImpl<UVec3> for u32 {
    open spec fn obeys_div_spec() -> bool {
        true
    }

    open spec fn div_req(self, rhs: UVec3) -> bool {
        (UVec3 { x: self, y: self, z: self }).can_div(rhs)
    }

    open spec fn div_spec(self, rhs: UVec3) -> UVec3 {
        (UVec3 { x: self, y: self, z: self }).quotient(rhs)
    }
}

impl std::ops::Div<UVec3> for u32 {
    type Output = UVec3;

    fn div(self, rhs: UVec3) -> UVec3 {
        UVec3::splat(self) / rhs
    }
}

impl vstd::std_specs::ops::RemSpecImpl<u32> for UVec3 {
    open spec fn obeys_rem_spec() -> bool {
        true
    }

    open spec fn rem_req(self, rhs: u32) -> bool {
        self.can_div((UVec3 { x: rhs, y: rhs, z: rhs }))
    }

    open spec fn rem_spec(self, rhs: u32) -> UVec3 {
        self.remainder((UVec3 { x: rhs, y: rhs, z: rhs }))
    }
}

impl std::ops::Rem<u32> for UVec3 {
    type Output = UVec3;

    fn rem(self, rhs: u32) -> UVec3 {
        self % UVec3::splat(rhs)
    }
}

impl vstd::std_specs::ops::RemSpecImpl<UVec3> for u32 {
    open spec fn obeys_rem_spec() -> bool {
        true
    }

    open spec fn rem_req(self, rhs: UVec3) -> bool {
        (UVec3 { x: self, y: self, z: self }).can_div(rhs)
    }

    open spec fn rem_spec(self, rhs: UVec3) -> UVec3 {
        (UVec3 { x: self, y: self, z: self }).remainder(rhs)
    }
}

impl std::ops::Rem<UVec3> for u32 {
    type Output = UVec3;

    fn rem(self, rhs: UVec3) -> UVec3 {
        UVec3::splat(self) % rhs
    }
}

impl vstd::std_specs::convert::FromSpecImpl<(u32, u32, u32)> for UVec3 {
    open spec fn obeys_from_spec() -> bool {
        true
    }

    open spec fn from_spec(v: (u32, u32, u32)) -> UVec3 {
        (UVec3 { x: v.0, y: v.1, z: v.2 })
    }
}

impl From<(u32, u32, u32)> for UVec3 {
    fn from(v: (u32, u32, u32)) -> UVec3 {
        UVec3 { x: v.0, y: v.1, z: v.2 }
    }
}

impl vstd::std_specs::convert::FromSpecImpl<[u32; 3]> for UVec3 {
    open spec fn obeys_from_spec() -> bool {
        true
    }

    open spec fn from_spec(v: [u32; 3]) -> UVec3 {
        (UVec3 { x: v[0], y: v[1], z: v[2] })
    }
}

impl From<[u32; 3]> for UVec3 {
    fn from(v: [u32; 3]) -> UVec3 {
        UVec3 { x: v[0], y: v[1], z: v[2] }
    }
}

impl vstd::std_specs::convert::FromSpecImpl<UVec3> for (u32, u32, u32) {
    open spec fn obeys_from_spec() -> bool {
        true
    }

    open spec fn from_spec(v: UVec3) -> (u32, u32, u32) {
        (v.x, v.y, v.z)
    }
}

impl From<UVec3> for (u32, u32, u32) {
    fn from(v: UVec3) -> (u32, u32, u32) {
        (v.x, v.y, v.z)
    }
}

impl vstd::std_specs::convert::FromSpecImpl<UVec3> for [u32; 3] {
    open spec fn obeys_from_spec() -> bool {
        true
    }

    open spec fn from_spec(v: UVec3) -> [u32; 3] {
        [v.x, v.y, v.z]
    }
}

impl From<UVec3> for [u32; 3] {
    fn from(v: UVec3) -> [u32; 3] {
        [v.x, v.y, v.z]
    }
}

} // verus!
