use vstd::prelude::*;

use super::bvec4::{BVec4, bvec4};
use super::uvec3::{UVec3, uvec3};
use crate::scalar::{fits_u32};

verus! {

/// an unsigned integer vector made from x, y, z and w coordinates.
#[derive(Debug, Clone, Copy, PartialEq, Eq, Structural, PartialOrd, Ord)]
pub struct UVec4 {
    pub x: u32,
    pub y: u32,
    pub z: u32,
    pub w: u32,
}

/// create an unsigned integer vector from x, y, z and w coordinates.
pub fn uvec4(x: u32, y: u32, z: u32, w: u32) -> (r: UVec4)
    ensures
        r.x == x && r.y == y && r.z == z && r.w == w,
{
    UVec4 { x: x, y: y, z: z, w: w }
}

impl UVec4 {
    /// the dot product over the integers.
    pub open spec fn dot_spec(self, o: Self) -> int {
        self.x * o.x + self.y * o.y + self.z * o.z + self.w * o.w
    }

    /// whether each product and each partial sum of the dot product, taken left to right, fits in `u32`.
    pub open spec fn can_dot(self, o: Self) -> bool {
        &&& fits_u32(self.x * o.x)
        &&& fits_u32(self.y * o.y)
        &&& fits_u32(self.x * o.x + self.y * o.y)
        &&& fits_u32(self.z * o.z)
        &&& fits_u32(self.x * o.x + self.y * o.y + self.z * o.z)
        &&& fits_u32(self.w * o.w)
        &&& fits_u32(self.x * o.x + self.y * o.y + self.z * o.z + self.w * o.w)
    }

    /// the squared length over the integers.
    pub open spec fn length_squared_spec(self) -> int {
        self.dot_spec(self)
    }

    /// whether the componentwise sum fits in `u32`.
    pub open spec fn can_add(self, o: Self) -> bool {
        &&& fits_u32(self.x + o.x)
        &&& fits_u32(self.y + o.y)
        &&& fits_u32(self.z + o.z)
        &&& fits_u32(self.w + o.w)
    }

    /// the componentwise sum.
    pub open spec fn sum(self, o: Self) -> Self {
        UVec4 {
            x: (self.x + o.x) as u32,
            y: (self.y + o.y) as u32,
            z: (self.z + o.z) as u32,
            w: (self.w + o.w) as u32,
        }
    }

    /// whether the componentwise difference fits in `u32`.
    pub open spec fn can_sub(self, o: Self) -> bool {
        &&& fits_u32(self.x - o.x)
        &&& fits_u32(self.y - o.y)
        &&& fits_u32(self.z - o.z)
        &&& fits_u32(self.w - o.w)
    }

    /// the componentwise difference.
    pub open spec fn difference(self, o: Self) -> Self {
        UVec4 {
            x: (self.x - o.x) as u32,
            y: (self.y - o.y) as u32,
            z: (self.z - o.z) as u32,
            w: (self.w - o.w) as u32,
        }
    }

    /// whether the componentwise product fits in `u32`.
    pub open spec fn can_mul(self, o: Self) -> bool {
        &&& fits_u32(self.x * o.x)
        &&& fits_u32(self.y * o.y)
        &&& fits_u32(self.z * o.z)
        &&& fits_u32(self.w * o.w)
    }

    /// the componentwise product.
    pub open spec fn product(self, o: Self) -> Self {
        UVec4 {
            x: (self.x * o.x) as u32,
            y: (self.y * o.y) as u32,
            z: (self.z * o.z) as u32,
            w: (self.w * o.w) as u32,
        }
    }

    /// whether componentwise division is defined: no zero divisor.
    pub open spec fn can_div(self, o: Self) -> bool {
        &&& o.x != 0
        &&& o.y != 0
        &&& o.z != 0
        &&& o.w != 0
    }

    /// the componentwise quotient, rounded down.
    pub open spec fn quotient(self, o: Self) -> Self {
        UVec4 { x: self.x / o.x, y: self.y / o.y, z: self.z / o.z, w: self.w / o.w }
    }

    /// the componentwise remainder.
    pub open spec fn remainder(self, o: Self) -> Self {
        UVec4 { x: self.x % o.x, y: self.y % o.y, z: self.z % o.z, w: self.w % o.w }
    }

    /// whether every component times `k` fits in `u32`.
    pub open spec fn can_scale(self, k: u32) -> bool {
        &&& fits_u32(self.x * k)
        &&& fits_u32(self.y * k)
        &&& fits_u32(self.z * k)
        &&& fits_u32(self.w * k)
    }

    /// every component multiplied by `k`.
    pub open spec fn scaled(self, k: u32) -> Self {
        UVec4 {
            x: (self.x * k) as u32,
            y: (self.y * k) as u32,
            z: (self.z * k) as u32,
            w: (self.w * k) as u32,
        }
    }

    /// a zero vector
    pub fn zero() -> (r: Self)
        ensures
            r.x == 0 && r.y == 0 && r.z == 0 && r.w == 0,
    {
        UVec4 { x: 0, y: 0, z: 0, w: 0 }
    }

    /// a vector full of ones
    pub fn one() -> (r: Self)
        ensures
            r.x == 1 && r.y == 1 && r.z == 1 && r.w == 1,
    {
        UVec4 { x: 1, y: 1, z: 1, w: 1 }
    }

    /// the x axis
    pub fn x_axis() -> (r: Self)
        ensures
            r.x == 1 && r.y == 0 && r.z == 0 && r.w == 0,
    {
        UVec4 { x: 1, y: 0, z: 0, w: 0 }
    }

    /// the y axis
    pub fn y_axis() -> (r: Self)
        ensures
            r.x == 0 && r.y == 1 && r.z == 0 && r.w == 0,
    {
        UVec4 { x: 0, y: 1, z: 0, w: 0 }
    }

    /// the z axis
    pub fn z_axis() -> (r: Self)
        ensures
            r.x == 0 && r.y == 0 && r.z == 1 && r.w == 0,
    {
        UVec4 { x: 0, y: 0, z: 1, w: 0 }
    }

    /// the w axis
    pub fn w_axis() -> (r: Self)
        ensures
            r.x == 0 && r.y == 0 && r.z == 0 && r.w == 1,
    {
        UVec4 { x: 0, y: 0, z: 0, w: 1 }
    }

    pub fn new(x: u32, y: u32, z: u32, w: u32) -> (r: Self)
        ensures
            r.x == x && r.y == y && r.z == z && r.w == w,
    {
        Self { x: x, y: y, z: z, w: w }
    }

    /// this vector without its last coordinate.
    pub fn truncate(self) -> (r: UVec3)
        ensures
            r.x == self.x && r.y == self.y && r.z == self.z,
    {
        uvec3(self.x, self.y, self.z)
    }

    /// create a vector where every coordinate equals `value`.
    pub fn splat(value: u32) -> (r: Self)
        ensures
            r.x == value && r.y == value && r.z == value && r.w == value,
    {
        Self::new(value, value, value, value)
    }

    /// the length of the vector before being square rooted.
    pub fn length_squared(self) -> (r: u32)
        requires
            self.can_dot(self),
        ensures
            r == self.length_squared_spec(),
    {
        self.x * self.x + self.y * self.y + self.z * self.z + self.w * self.w
    }

    /// the distance between two vectors before being square rooted.
    pub fn distance_squared(self, other: Self) -> (r: u32)
        requires
            self.can_sub(other),
            self.difference(other).can_dot(self.difference(other)),
        ensures
            r == self.difference(other).length_squared_spec(),
    {
        (self - other).length_squared()
    }

    /// the dot product of two vectors.
    pub fn dot(self, other: Self) -> (r: u32)
        requires
            self.can_dot(other),
        ensures
            r == self.dot_spec(other),
    {
        self.x * other.x + self.y * other.y + self.z * other.z + self.w * other.w
    }

    /// multiplies each coordinate by the scalar.
    pub fn scale(self, scalar: u32) -> (r: Self)
        requires
            self.can_scale(scalar),
        ensures
            r == self.scaled(scalar),
    {
        Self::new(self.x * scalar, self.y * scalar, self.z * scalar, self.w * scalar)
    }

    /// whether the two components are equal, coordinate by coordinate.
    pub fn eq(self, rhs: Self) -> (r: BVec4)
        ensures
            r == (BVec4 { x: self.x == rhs.x, y: self.y == rhs.y, z: self.z == rhs.z, w: self.w == rhs.w }),
    {
        bvec4(self.x == rhs.x, self.y == rhs.y, self.z == rhs.z, self.w == rhs.w)
    }

    /// whether the first components are less than the second, coordinate by coordinate.
    pub fn less(self, rhs: Self) -> (r: BVec4)
        ensures
            r == (BVec4 { x: self.x < rhs.x, y: self.y < rhs.y, z: self.z < rhs.z, w: self.w < rhs.w }),
    {
        bvec4(self.x < rhs.x, self.y < rhs.y, self.z < rhs.z, self.w < rhs.w)
    }

    /// whether the first components are more than the second, coordinate by coordinate.
    pub fn more(self, rhs: Self) -> (r: BVec4)
        ensures
            r == (BVec4 { x: self.x > rhs.x, y: self.y > rhs.y, z: self.z > rhs.z, w: self.w > rhs.w }),
    {
        bvec4(self.x > rhs.x, self.y > rhs.y, self.z > rhs.z, self.w > rhs.w)
    }

    /// whether the first components are less than or equal to the second, coordinate by coordinate.
    pub fn less_or_eq(self, rhs: Self) -> (r: BVec4)
        ensures
            r == (BVec4 { x: self.x <= rhs.x, y: self.y <= rhs.y, z: self.z <= rhs.z, w: self.w <= rhs.w }),
    {
        bvec4(self.x <= rhs.x, self.y <= rhs.y, self.z <= rhs.z, self.w <= rhs.w)
    }

    /// whether the first components are more than or equal to the second, coordinate by coordinate.
    pub fn more_or_eq(self, rhs: Self) -> (r: BVec4)
        ensures
            r == (BVec4 { x: self.x >= rhs.x, y: self.y >= rhs.y, z: self.z >= rhs.z, w: self.w >= rhs.w }),
    {
        bvec4(self.x >= rhs.x, self.y >= rhs.y, self.z >= rhs.z, self.w >= rhs.w)
    }
}

impl vstd::std_specs::ops::AddSpecImpl<UVec4> for UVec4 {
    open spec fn obeys_add_spec() -> bool {
        true
    }

    open spec fn add_req(self, rhs: UVec4) -> bool {
        self.can_add(rhs)
    }

    open spec fn add_spec(self, rhs: UVec4) -> UVec4 {
        self.sum(rhs)
    }
}

impl std::ops::Add<UVec4> for UVec4 {
    type Output = UVec4;

    fn add(self, rhs: UVec4) -> UVec4 {
        UVec4 { x: self.x + rhs.x, y: self.y + rhs.y, z: self.z + rhs.z, w: self.w + rhs.w }
    }
}

impl vstd::std_specs::ops::SubSpecImpl<UVec4> for UVec4 {
    open spec fn obeys_sub_spec() -> bool {
        true
    }

    open spec fn sub_req(self, rhs: UVec4) -> bool {
        self.can_sub(rhs)
    }

    open spec fn sub_spec(self, rhs: UVec4) -> UVec4 {
        self.difference(rhs)
    }
}

impl std::ops::Sub<UVec4> for UVec4 {
    type Output = UVec4;

    fn sub(self, rhs: UVec4) -> UVec4 {
        UVec4 { x: self.x - rhs.x, y: self.y - rhs.y, z: self.z - rhs.z, w: self.w - rhs.w }
    }
}

impl vstd::std_specs::ops::MulSpecImpl<UVec4> for UVec4 {
    open spec fn obeys_mul_spec() -> bool {
        true
    }

    open spec fn mul_req(self, rhs: UVec4) -> bool {
        self.can_mul(rhs)
    }

    open spec fn mul_spec(self, rhs: UVec4) -> UVec4 {
        self.product(rhs)
    }
}

impl std::ops::Mul<UVec4> for UVec4 {
    type Output = UVec4;

    fn mul(self, rhs: UVec4) -> UVec4 {
        UVec4 { x: self.x * rhs.x, y: self.y * rhs.y, z: self.z * rhs.z, w: self.w * rhs.w }
    }
}

impl vstd::std_specs::ops::DivSpecImpl<UVec4> for UVec4 {
    open spec fn obeys_div_spec() -> bool {
        true
    }

    open spec fn div_req(self, rhs: UVec4) -> bool {
        self.can_div(rhs)
    }

    open spec fn div_spec(self, rhs: UVec4) -> UVec4 {
        self.quotient(rhs)
    }
}

impl std::ops::Div<UVec4> for UVec4 {
    type Output = UVec4;

    fn div(self, rhs: UVec4) -> UVec4 {
        UVec4 { x: self.x / rhs.x, y: self.y / rhs.y, z: self.z / rhs.z, w: self.w / rhs.w }
    }
}

impl vstd::std_specs::ops::RemSpecImpl<UVec4> for UVec4 {
    open spec fn obeys_rem_spec() -> bool {
        true
    }

    open spec fn rem_req(self, rhs: UVec4) -> bool {
        self.can_div(rhs)
    }

    open spec fn rem_spec(self, rhs: UVec4) -> UVec4 {
        self.remainder(rhs)
    }
}

impl std::ops::Rem<UVec4> for UVec4 {
    type Output = UVec4;

    fn rem(self, rhs: UVec4) -> UVec4 {
        UVec4 { x: self.x % rhs.x, y: self.y % rhs.y, z: self.z % rhs.z, w: self.w % rhs.w }
    }
}

impl vstd::std_specs::ops::MulSpecImpl<u32> for UVec4 {
    open spec fn obeys_mul_spec() -> bool {
        true
    }

    open spec fn mul_req(self, rhs: u32) -> bool {
        self.can_scale(rhs)
    }

    open spec fn mul_spec(self, rhs: u32) -> UVec4 {
        self.scaled(rhs)
    }
}

impl std::ops::Mul<u32> for UVec4 {
    type Output = UVec4;

    fn mul(self, rhs: u32) -> UVec4 {
        self.scale(rhs)
    }
}

impl vstd::std_specs::ops::MulSpecImpl<UVec4> for u32 {
    open spec fn obeys_mul_spec() -> bool {
        true
    }

    open spec fn mul_req(self, rhs: UVec4) -> bool {
        rhs.can_scale(self)
    }

    open spec fn mul_spec(self, rhs: UVec4) -> UVec4 {
        rhs.scaled(self)
    }
}

impl std::ops::Mul<UVec4> for u32 {
    type Output = UVec4;

    fn mul(self, rhs: UVec4) -> UVec4 {
        rhs * self
    }
}

impl vstd::std_specs::ops::DivSpecImpl<u32> for UVec4 {
    open spec fn obeys_div_spec() -> bool {
        true
    }

    open spec fn div_req(self, rhs: u32) -> bool {
        self.can_div((UVec4 { x: rhs, y: rhs, z: rhs, w: rhs }))
    }

    open spec fn div_spec(self, rhs: u32) -> UVec4 {
        self.quotient((UVec4 { x: rhs, y: rhs, z: rhs, w: rhs }))
    }
}

impl std::ops::Div<u32> for UVec4 {
    type Output = UVec4;

    fn div(self, rhs: u32) -> UVec4 {
        self / UVec4::splat(rhs)
    }
}

impl vstd::std_specs::ops::DivSpecImpl<UVec4> for u32 {
    open spec fn obeys_div_spec() -> bool {
        true
    }

    open spec fn div_req(self, rhs: UVec4) -> bool {
        (UVec4 { x: self, y: self, z: self, w: self }).can_div(rhs)
    }

    open spec fn div_spec(self, rhs: UVec4) -> UVec4 {
        (UVec4 { x: self, y: self, z: self, w: self }).quotient(rhs)
    }
}

impl std::ops::Div<UVec4> for u32 {
    type Output = UVec4;

    fn div(self, rhs: UVec4) -> UVec4 {
        UVec4::splat(self) / rhs
    }
}

impl vstd::std_specs::ops::RemSpecImpl<u32> for UVec4 {
    open spec fn obeys_rem_spec() -> bool {
        true
    }

    open spec fn rem_req(self, rhs: u32) -> bool {
        self.can_div((UVec4 { x: rhs, y: rhs, z: rhs, w: rhs }))
    }

    open spec fn rem_spec(self, rhs: u32) -> UVec4 {
        self.remainder((UVec4 { x: rhs, y: rhs, z: rhs, w: rhs }))
    }
}

impl std::ops::Rem<u32> for UVec4 {
    type Output = UVec4;

    fn rem(self, rhs: u32) -> UVec4 {
        self % UVec4::splat(rhs)
    }
}

impl vstd::std_specs::ops::RemSpecImpl<UVec4> for u32 {
    open spec fn obeys_rem_spec() -> bool {
        true
    }

    open spec fn rem_req(self, rhs: UVec4) -> bool {
        (UVec4 { x: self, y: self, z: self, w: self }).can_div(rhs)
    }

    open spec fn rem_spec(self, rhs: UVec4) -> UVec4 {
        (UVec4 { x: self, y: self, z: self, w: self }).remainder(rhs)
    }
}

impl std::ops::Rem<UVec4> for u32 {
    type Output = UVec4;

    fn rem(self, rhs: UVec4) -> UVec4 {
        UVec4::splat(self) % rhs
    }
}

impl vstd::std_specs::convert::FromSpecImpl<(u32, u32, u32, u32)> for UVec4 {
    open spec fn obeys_from_spec() -> bool {
        true
    }

    open spec fn from_spec(v: (u32, u32, u32, u32)) -> UVec4 {
        (UVec4 { x: v.0, y: v.1, z: v.2, w: v.3 })
    }
}

impl From<(u32, u32, u32, u32)> for UVec4 {
    fn from(v: (u32, u32, u32, u32)) -> UVec4 {
        UVec4 { x: v.0, y: v.1, z: v.2, w: v.3 }
    }
}

impl vstd::std_specs::convert::FromSpecImpl<[u32; 4]> for UVec4 {
    open spec fn obeys_from_spec() -> bool {
        true
    }

    open spec fn from_spec(v: [u32; 4]) -> UVec4 {
        (UVec4 { x: v[0], y: v[1], z: v[2], w: v[3] })
    }
}

impl From<[u32; 4]> for UVec4 {
    fn from(v: [u32; 4]) -> UVec4 {
        UVec4 { x: v[0], y: v[1], z: v[2], w: v[3] }
    }
}

impl vstd::std_specs::convert::FromSpecImpl<UVec4> for (u32, u32, u32, u32) {
    open spec fn obeys_from_spec() -> bool {
        true
    }

    open spec fn from_spec(v: UVec4) -> (u32, u32, u32, u32) {
        (v.x, v.y, v.z, v.w)
    }
}

impl From<UVec4> for (u32, u32, u32, u32) {
    fn from(v: UVec4) -> (u32, u32, u32, u32) {
        (v.x, v.y, v.z, v.w)
    }
}

impl vstd::std_specs::convert::FromSpecImpl<UVec4> for [u32; 4] {
    open spec fn obeys_from_spec() -> bool {
        true
    }

    open spec fn from_spec(v: UVec4) -> [u32; 4] {
        [v.x, v.y, v.z, v.w]
    }
}

impl From<UVec4> for [u32; 4] {
    fn from(v: UVec4) -> [u32; 4] {
        [v.x, v.y, v.z, v.w]
    }
}

} // verus!
