use vstd::prelude::*;

use super::bvec3::{BVec3, bvec3};
use super::duvec2::{DUVec2, duvec2};
use super::duvec4::{DUVec4, duvec4};
use super::uvec3::UVec3;
use crate::scalar::{fits_u64};

verus! {

/// a double unsigned integer vector made from x, y and z coordinates.
#[derive(Debug, Clone, Copy, PartialEq, Eq, Structural, PartialOrd, Ord)]
pub struct DUVec3 {
    pub x: u64,
    pub y: u64,
    pub z: u64,
}

/// create a double unsigned integer vector from x, y and z coordinates.
pub fn duvec3(x: u64, y: u64, z: u64) -> (r: DUVec3)
    ensures
        r.x == x && r.y == y && r.z == z,
{
    DUVec3 { x: x, y: y, z: z }
}

impl DUVec3 {
    /// the dot product over the integers.
    pub open spec fn dot_spec(self, o: Self) -> int {
        self.x * o.x + self.y * o.y + self.z * o.z
    }

    /// whether each product and each partial sum of the dot product, taken left to right, fits in `u64`.
    pub open spec fn can_dot(self, o: Self) -> bool {
        &&& fits_u64(self.x * o.x)
        &&& fits_u64(self.y * o.y)
        &&& fits_u64(self.x * o.x + self.y * o.y)
        &&& fits_u64(self.z * o.z)
        &&& fits_u64(self.x * o.x + self.y * o.y + self.z * o.z)
    }

    /// the squared length over the integers.
    pub open spec fn length_squared_spec(self) -> int {
        self.dot_spec(self)
    }

    /// whether the componentwise sum fits in `u64`.
    pub open spec fn can_add(self, o: Self) -> bool {
        &&& fits_u64(self.x + o.x)
        &&& fits_u64(self.y + o.y)
        &&& fits_u64(self.z + o.z)
    }

    /// the componentwise sum.
    pub open spec fn sum(self, o: Self) -> Self {
        DUVec3 {
            x: (self.x + o.x) as u64,
            y: (self.y + o.y) as u64,
            z: (self.z + o.z) as u64,
        }
    }

    /// whether the componentwise difference fits in `u64`.
    pub open spec fn can_sub(self, o: Self) -> bool {
        &&& fits_u64(self.x - o.x)
        &&& fits_u64(self.y - o.y)
        &&& fits_u64(self.z - o.z)
    }

    /// the componentwise difference.
    pub open spec fn difference(self, o: Self) -> Self {
        DUVec3 {
            x: (self.x - o.x) as u64,
            y: (self.y - o.y) as u64,
            z: (self.z - o.z) as u64,
        }
    }

    /// whether the componentwise product fits in `u64`.
    pub open spec fn can_mul(self, o: Self) -> bool {
        &&& fits_u64(self.x * o.x)
        &&& fits_u64(self.y * o.y)
        &&& fits_u64(self.z * o.z)
    }

    /// the componentwise product.
    pub open spec fn product(self, o: Self) -> Self {
        DUVec3 {
            x: (self.x * o.x) as u64,
            y: (self.y * o.y) as u64,
            z: (self.z * o.z) as u64,
        }
    }

    /// whether componentwise division is defined: no zero divisor.
    pub open spec fn can_div(self, o: Self) -> bool {
        &&& o.x != 0
        &&& o.y != 0
        &&& o.z != 0
    }

    /// the componentwise quotient, rounded down.
    pub open spec fn quotient(self, o: Self) -> Self {
        DUVec3 { x: self.x / o.x, y: self.y / o.y, z: self.z / o.z }
    }

    /// the componentwise remainder.
    pub open spec fn remainder(self, o: Self) -> Self {
        DUVec3 { x: self.x % o.x, y: self.y % o.y, z: self.z % o.z }
    }

    /// whether every component times `k` fits in `u64`.
    pub open spec fn can_scale(self, k: u64) -> bool {
        &&& fits_u64(self.x * k)
        &&& fits_u64(self.y * k)
        &&& fits_u64(self.z * k)
    }

    /// every component multiplied by `k`.
    pub open spec fn scaled(self, k: u64) -> Self {
        DUVec3 {
            x: (self.x * k) as u64,
            y: (self.y * k) as u64,
            z: (self.z * k) as u64,
        }
    }

    /// the x component of the cross product over the integers.
    pub open spec fn cross_x(self, o: Self) -> int {
        self.y * o.z - self.z * o.y
    }

    /// the y component of the cross product over the integers.
    pub open spec fn cross_y(self, o: Self) -> int {
        self.z * o.x - self.x * o.z
    }

    /// the z component of the cross product over the integers.
    pub open spec fn cross_z(self, o: Self) -> int {
        self.x * o.y - self.y * o.x
    }

    /// whether every product and difference of the cross product fits in `u64`.
    pub open spec fn can_cross(self, o: Self) -> bool {
        &&& fits_u64(self.y * o.z)
        &&& fits_u64(self.z * o.y)
        &&& fits_u64(self.cross_x(o))
        &&& fits_u64(self.z * o.x)
        &&& fits_u64(self.x * o.z)
        &&& fits_u64(self.cross_y(o))
        &&& fits_u64(self.x * o.y)
        &&& fits_u64(self.y * o.x)
        &&& fits_u64(self.cross_z(o))
    }

    /// a zero vector
    pub fn zero() -> (r: Self)
        ensures
            r.x == 0 && r.y == 0 && r.z == 0,
    {
        DUVec3 { x: 0, y: 0, z: 0 }
    }

    /// a vector full of ones
    pub fn one() -> (r: Self)
        ensures
            r.x == 1 && r.y == 1 && r.z == 1,
    {
        DUVec3 { x: 1, y: 1, z: 1 }
    }

    /// the x axis
    pub fn x_axis() -> (r: Self)
        ensures
            r.x == 1 && r.y == 0 && r.z == 0,
    {
        DUVec3 { x: 1, y: 0, z: 0 }
    }

    /// the y axis
    pub fn y_axis() -> (r: Self)
        ensures
            r.x == 0 && r.y == 1 && r.z == 0,
    {
        DUVec3 { x: 0, y: 1, z: 0 }
    }

    /// the z axis
    pub fn z_axis() -> (r: Self)
        ensures
            r.x == 0 && r.y == 0 && r.z == 1,
    {
        DUVec3 { x: 0, y: 0, z: 1 }
    }

    pub fn new(x: u64, y: u64, z: u64) -> (r: Self)
        ensures
            r.x == x && r.y == y && r.z == z,
    {
        Self { x: x, y: y, z: z }
    }

    /// this vector with `w` appended.
    pub fn extend(self, w: u64) -> (r: DUVec4)
        ensures
            r.x == self.x && r.y == self.y && r.z == self.z && r.w == w,
    {
        duvec4(self.x, self.y, self.z, w)
    }

    /// this vector without its last coordinate.
    pub fn truncate(self) -> (r: DUVec2)
        ensures
            r.x == self.x && r.y == self.y,
    {
        duvec2(self.x, self.y)
    }

    /// create a vector where every coordinate equals `value`.
    pub fn splat(value: u64) -> (r: Self)
        ensures
            r.x == value && r.y == value && r.z == value,
    {
        Self::new(value, value, value)
    }

    /// the length of the vector before being square rooted.
    pub fn length_squared(self) -> (r: u64)
        requires
            self.can_dot(self),
        ensures
            r == self.length_squared_spec(),
    {
        self.x * self.x + self.y * self.y + self.z * self.z
    }

    /// the distance between two vectors before being square rooted.
    pub fn distance_squared(self, other: Self) -> (r: u64)
        requires
            self.can_sub(other),
            self.difference(other).can_dot(self.difference(other)),
        ensures
            r == self.difference(other).length_squared_spec(),
    {
        (self - other).length_squared()
    }

    /// the dot product of two vectors.
    pub fn dot(self, other: Self) -> (r: u64)
        requires
            self.can_dot(other),
        ensures
            r == self.dot_spec(other),
    {
        self.x * other.x + self.y * other.y + self.z * other.z
    }

    /// the cross product of two vectors: a vector perpendicular to both, not normalised.
    pub fn cross(self, other: Self) -> (r: Self)
        requires
            self.can_cross(other),
        ensures
            r.x == self.cross_x(other),
            r.y == self.cross_y(other),
            r.z == self.cross_z(other),
    {
        duvec3(
            self.y * other.z - self.z * other.y,
            self.z * other.x - self.x * other.z,
            self.x * other.y - self.y * other.x,
        )
    }

    /// multiplies each coordinate by the scalar.
    pub fn scale(self, scalar: u64) -> (r: Self)
        requires
            self.can_scale(scalar),
        ensures
            r == self.scaled(scalar),
    {
        Self::new(self.x * scalar, self.y * scalar, self.z * scalar)
    }

    /// whether the two components are equal, coordinate by coordinate.
    pub fn eq(self, rhs: Self) -> (r: BVec3)
        ensures
            r == (BVec3 { x: self.x == rhs.x, y: self.y == rhs.y, z: self.z == rhs.z }),
    {
        bvec3(self.x == rhs.x, self.y == rhs.y, self.z == rhs.z)
    }

    /// whether the first components are less than the second, coordinate by coordinate.
    pub fn less(self, rhs: Self) -> (r: BVec3)
        ensures
            r == (BVec3 { x: self.x < rhs.x, y: self.y < rhs.y, z: self.z < rhs.z }),
    {
        bvec3(self.x < rhs.x, self.y < rhs.y, self.z < rhs.z)
    }

    /// whether the first components are more than the second, coordinate by coordinate.
    pub fn more(self, rhs: Self) -> (r: BVec3)
        ensures
            r == (BVec3 { x: self.x > rhs.x, y: self.y > rhs.y, z: self.z > rhs.z }),
    {
        bvec3(self.x > rhs.x, self.y > rhs.y, self.z > rhs.z)
    }

    /// whether the first components are less than or equal to the second, coordinate by coordinate.
    pub fn less_or_eq(self, rhs: Self) -> (r: BVec3)
        ensures
            r == (BVec3 { x: self.x <= rhs.x, y: self.y <= rhs.y, z: self.z <= rhs.z }),
    {
        bvec3(self.x <= rhs.x, self.y <= rhs.y, self.z <= rhs.z)
    }

    /// whether the first components are more than or equal to the second, coordinate by coordinate.
    pub fn more_or_eq(self, rhs: Self) -> (r: BVec3)
        ensures
            r == (BVec3 { x: self.x >= rhs.x, y: self.y >= rhs.y, z: self.z >= rhs.z }),
    {
        bvec3(self.x >= rhs.x, self.y >= rhs.y, self.z >= rhs.z)
    }
}

impl vstd::std_specs::ops::AddSpecImpl<DUVec3> for DUVec3 {
    open spec fn obeys_add_spec() -> bool {
        true
    }

    open spec fn add_req(self, rhs: DUVec3) -> bool {
        self.can_add(rhs)
    }

    open spec fn add_spec(self, rhs: DUVec3) -> DUVec3 {
        self.sum(rhs)
    }
}

impl std::ops::Add<DUVec3> for DUVec3 {
    type Output = DUVec3;

    fn add(self, rhs: DUVec3) -> DUVec3 {
        DUVec3 { x: self.x + rhs.x, y: self.y + rhs.y, z: self.z + rhs.z }
    }
}

impl vstd::std_specs::ops::SubSpecImpl<DUVec3> for DUVec3 {
    open spec fn obeys_sub_spec() -> bool {
        true
    }

    open spec fn sub_req(self, rhs: DUVec3) -> bool {
        self.can_sub(rhs)
    }

    open spec fn sub_spec(self, rhs: DUVec3) -> DUVec3 {
        self.difference(rhs)
    }
}

impl std::ops::Sub<DUVec3> for DUVec3 {
    type Output = DUVec3;

    fn sub(self, rhs: DUVec3) -> DUVec3 {
        DUVec3 { x: self.x - rhs.x, y: self.y - rhs.y, z: self.z - rhs.z }
    }
}

impl vstd::std_specs::ops::MulSpecImpl<DUVec3> for DUVec3 {
    open spec fn obeys_mul_spec() -> bool {
        true
    }

    open spec fn mul_req(self, rhs: DUVec3) -> bool {
        self.can_mul(rhs)
    }

    open spec fn mul_spec(self, rhs: DUVec3) -> DUVec3 {
        self.product(rhs)
    }
}

impl std::ops::Mul<DUVec3> for DUVec3 {
    type Output = DUVec3;

    fn mul(self, rhs: DUVec3) -> DUVec3 {
        DUVec3 { x: self.x * rhs.x, y: self.y * rhs.y, z: self.z * rhs.z }
    }
}

impl vstd::std_specs::ops::DivSpecImpl<DUVec3> for DUVec3 {
    open spec fn obeys_div_spec() -> bool {
        true
    }

    open spec fn div_req(self, rhs: DUVec3) -> bool {
        self.can_div(rhs)
    }

    open spec fn div_spec(self, rhs: DUVec3) -> DUVec3 {
        self.quotient(rhs)
    }
}

impl std::ops::Div<DUVec3> for DUVec3 {
    type Output = DUVec3;

    fn div(self, rhs: DUVec3) -> DUVec3 {
        DUVec3 { x: self.x / rhs.x, y: self.y / rhs.y, z: self.z / rhs.z }
    }
}

impl vstd::std_specs::ops::RemSpecImpl<DUVec3> for DUVec3 {
    open spec fn obeys_rem_spec() -> bool {
        true
    }

    open spec fn rem_req(self, rhs: DUVec3) -> bool {
        self.can_div(rhs)
    }

    open spec fn rem_spec(self, rhs: DUVec3) -> DUVec3 {
        self.remainder(rhs)
    }
}

impl std::ops::Rem<DUVec3> for DUVec3 {
    type Output = DUVec3;

    fn rem(self, rhs: DUVec3) -> DUVec3 {
        DUVec3 { x: self.x % rhs.x, y: self.y % rhs.y, z: self.z % rhs.z }
    }
}

impl vstd::std_specs::ops::MulSpecImpl<u64> for DUVec3 {
    open spec fn obeys_mul_spec() -> bool {
        true
    }

    open spec fn mul_req(self, rhs: u64) -> bool {
        self.can_scale(rhs)
    }

    open spec fn mul_spec(self, rhs: u64) -> DUVec3 {
        self.scaled(rhs)
    }
}

impl std::ops::Mul<u64> for DUVec3 {
    type Output = DUVec3;

    fn mul(self, rhs: u64) -> DUVec3 {
        self.scale(rhs)
    }
}

impl vstd::std_specs::ops::MulSpecImpl<DUVec3> for u64 {
    open spec fn obeys_mul_spec() -> bool {
        true
    }

    open spec fn mul_req(self, rhs: DUVec3) -> bool {
        rhs.can_scale(self)
    }

    open spec fn mul_spec(self, rhs: DUVec3) -> DUVec3 {
        rhs.scaled(self)
    }
}

impl std::ops::Mul<DUVec3> for u64 {
    type Output = DUVec3;

    fn mul(self, rhs: DUVec3) -> DUVec3 {
        rhs * self
    }
}

impl vstd::std_specs::ops::DivSpecImpl<u64> for DUVec3 {
    open spec fn obeys_div_spec() -> bool {
        true
    }

    open spec fn div_req(self, rhs: u64) -> bool {
        self.can_div((DUVec3 { x: rhs, y: rhs, z: rhs }))
    }

    open spec fn div_spec(self, rhs: u64) -> DUVec3 {
        self.quotient((DUVec3 { x: rhs, y: rhs, z: rhs }))
    }
}

impl std::ops::Div<u64> for DUVec3 {
    type Output = DUVec3;

    fn div(self, rhs: u64) -> DUVec3 {
        self / DUVec3::splat(rhs)
    }
}

impl vstd::std_specs::ops::DivSpecImpl<DUVec3> for u64 {
    open spec fn obeys_div_spec() -> bool {
        true
    }

    open spec fn div_req(self, rhs: DUVec3) -> bool {
        (DUVec3 { x: self, y: self, z: self }).can_div(rhs)
    }

    open spec fn div_spec(self, rhs: DUVec3) -> DUVec3 {
        (DUVec3 { x: self, y: self, z: self }).quotient(rhs)
    }
}

impl std::ops::Div<DUVec3> for u64 {
    type Output = DUVec3;

    fn div(self, rhs: DUVec3) -> DUVec3 {
        DUVec3::splat(self) / rhs
    }
}

impl vstd::std_specs::ops::RemSpecImpl<u64> for DUVec3 {
    open spec fn obeys_rem_spec() -> bool {
        true
    }

    open spec fn rem_req(self, rhs: u64) -> bool {
        self.can_div((DUVec3 { x: rhs, y: rhs, z: rhs }))
    }

    open spec fn rem_spec(self, rhs: u64) -> DUVec3 {
        self.remainder((DUVec3 { x: rhs, y: rhs, z: rhs }))
    }
}

impl std::ops::Rem<u64> for DUVec3 {
    type Output = DUVec3;

    fn rem(self, rhs: u64) -> DUVec3 {
        self % DUVec3::splat(rhs)
    }
}

impl vstd::std_specs::ops::RemSpecImpl<DUVec3> for u64 {
    open spec fn obeys_rem_spec() -> bool {
        true
    }

    open spec fn rem_req(self, rhs: DUVec3) -> bool {
        (DUVec3 { x: self, y: self, z: self }).can_div(rhs)
    }

    open spec fn rem_spec(self, rhs: DUVec3) -> DUVec3 {
        (DUVec3 { x: self, y: self, z: self }).remainder(rhs)
    }
}

impl std::ops::Rem<DUVec3> for u64 {
    type Output = DUVec3;

    fn rem(self, rhs: DUVec3) -> DUVec3 {
        DUVec3::splat(self) % rhs
    }
}

impl vstd::std_specs::convert::FromSpecImpl<(u64, u64, u64)> for DUVec3 {
    open spec fn obeys_from_spec() -> bool {
        true
    }

    open spec fn from_spec(v: (u64, u64, u64)) -> DUVec3 {
        (DUVec3 { x: v.0, y: v.1, z: v.2 })
    }
}

impl From<(u64, u64, u64)> for DUVec3 {
    fn from(v: (u64, u64, u64)) -> DUVec3 {
        DUVec3 { x: v.0, y: v.1, z: v.2 }
    }
}

impl vstd::std_specs::convert::FromSpecImpl<[u64; 3]> for DUVec3 {
    open spec fn obeys_from_spec() -> bool {
        true
    }

    open spec fn from_spec(v: [u64; 3]) -> DUVec3 {
        (DUVec3 { x: v[0], y: v[1], z: v[2] })
    }
}

impl From<[u64; 3]> for DUVec3 {
    fn from(v: [u64; 3]) -> DUVec3 {
        DUVec3 { x: v[0], y: v[1], z: v[2] }
    }
}

impl vstd::std_specs::convert::FromSpecImpl<DUVec3> for (u64, u64, u64) {
    open spec fn obeys_from_spec() -> bool {
        true
    }

    open spec fn from_spec(v: DUVec3) -> (u64, u64, u64) {
        (v.x, v.y, v.z)
    }
}

impl From<DUVec3> for (u64, u64, u64) {
    fn from(v: DUVec3) -> (u64, u64, u64) {
        (v.x, v.y, v.z)
    }
}

impl vstd::std_specs::convert::FromSpecImpl<DUVec3> for [u64; 3] {
    open spec fn obeys_from_spec() -> bool {
        true
    }

    open spec fn from_spec(v: DUVec3) -> [u64; 3] {
        [v.x, v.y, v.z]
    }
}

impl From<DUVec3> for [u64; 3] {
    fn from(v: DUVec3) -> [u64; 3] {
        [v.x, v.y, v.z]
    }
}

impl vstd::std_specs::convert::FromSpecImpl<UVec3> for DUVec3 {
    open spec fn obeys_from_spec() -> bool {
        true
    }

    open spec fn from_spec(v: UVec3) -> DUVec3 {
        (DUVec3 { x: v.x as u64, y: v.y as u64, z: v.z as u64 })
    }
}

impl From<UVec3> for DUVec3 {
    fn from(v: UVec3) -> DUVec3 {
        DUVec3 { x: v.x as u64, y: v.y as u64, z: v.z as u64 }
    }
}

} // verus!
