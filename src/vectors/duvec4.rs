use vstd::prelude::*;

use super::bvec4::{BVec4, bvec4};
use super::duvec3::{DUVec3, duvec3};
use super::uvec4::UVec4;
use crate::scalar::{fits_u64};

verus! {

/// a double unsigned integer vector made from x, y, z and w coordinates.
#[derive(Debug, Clone, Copy, PartialEq, Eq, Structural, PartialOrd, Ord)]
pub struct DUVec4 {
    pub x: u64,
    pub y: u64,
    pub z: u64,
    pub w: u64,
}

/// create a double unsigned integer vector from x, y, z and w coordinates.
pub fn duvec4(x: u64, y: u64, z: u64, w: u64) -> (r: DUVec4)
    ensures
        r.x == x && r.y == y && r.z == z && r.w == w,
{
    DUVec4 { x: x, y: y, z: z, w: w }
}

impl DUVec4 {
    /// the dot product over the integers.
    pub open spec fn dot_spec(self, o: Self) -> int {
        self.x * o.x + self.y * o.y + self.z * o.z + self.w * o.w
    }

    /// whether each product and each partial sum of the dot product, taken left to right, fits in `u64`.
    pub open spec fn can_dot(self, o: Self) -> bool {
        &&& fits_u64(self.x * o.x)
        &&& fits_u64(self.y * o.y)
        &&& fits_u64(self.x * o.x + self.y * o.y)
        &&& fits_u64(self.z * o.z)
        &&& fits_u64(self.x * o.x + self.y * o.y + self.z * o.z)
        &&& fits_u64(self.w * o.w)
        &&& fits_u64(self.x * o.x + self.y * o.y + self.z * o.z + self.w * o.w)
    }

    /// the squared length over the integers.
    pub open spec fn length_squared_spec(self) -> int {
        self.dot_spec(self)
    }

    /// whether the componentwise sum fits in `u64`.
    pub open spec fn can_add(self, o: Self) -> bool {
        &&& fits_u64(self.x + o.x)
        &&& fits_u64(self.y + o.y)
        &&& fits_u64(self.z + o.z)
        &&& fits_u64(self.w + o.w)
    }

    /// the componentwise sum.
    pub open spec fn sum(self, o: Self) -> Self {
        DUVec4 {
            x: (self.x + o.x) as u64,
            y: (self.y + o.y) as u64,
            z: (self.z + o.z) as u64,
            w: (self.w + o.w) as u64,
        }
    }

    /// whether the componentwise difference fits in `u64`.
    pub open spec fn can_sub(self, o: Self) -> bool {
        &&& fits_u64(self.x - o.x)
        &&& fits_u64(self.y - o.y)
        &&& fits_u64(self.z - o.z)
        &&& fits_u64(self.w - o.w)
    }

    /// the componentwise difference.
    pub open spec fn difference(self, o: Self) -> Self {
        DUVec4 {
            x: (self.x - o.x) as u64,
            y: (self.y - o.y) as u64,
            z: (self.z - o.z) as u64,
            w: (self.w - o.w) as u64,
        }
    }

    /// whether the componentwise product fits in `u64`.
    pub open spec fn can_mul(self, o: Self) -> bool {
        &&& fits_u64(self.x * o.x)
        &&& fits_u64(self.y * o.y)
        &&& fits_u64(self.z * o.z)
        &&& fits_u64(self.w * o.w)
    }

    /// the componentwise product.
    pub open spec fn product(self, o: Self) -> Self {
        DUVec4 {
            x: (self.x * o.x) as u64,
            y: (self.y * o.y) as u64,
            z: (self.z * o.z) as u64,
            w: (self.w * o.w) as u64,
        }
    }

    /// whether componentwise division is defined: no zero divisor.
    pub open spec fn can_div(self, o: Self) -> bool {
        &&& o.x != 0
        &&& o.y != 0
        &&& o.z != 0
        &&& o.w != 0
    }

    /// the componentwise quotient, rounded down.
    pub open spec fn quotient(self, o: Self) -> Self {
        DUVec4 { x: self.x / o.x, y: self.y / o.y, z: self.z / o.z, w: self.w / o.w }
    }

    /// the componentwise remainder.
    pub open spec fn remainder(self, o: Self) -> Self {
        DUVec4 { x: self.x % o.x, y: self.y % o.y, z: self.z % o.z, w: self.w % o.w }
    }

    /// whether every component times `k` fits in `u64`.
    pub open spec fn can_scale(self, k: u64) -> bool {
        &&& fits_u64(self.x * k)
        &&& fits_u64(self.y * k)
        &&& fits_u64(self.z * k)
        &&& fits_u64(self.w * k)
    }

    /// every component multiplied by `k`.
    pub open spec fn scaled(self, k: u64) -> Self {
        DUVec4 {
            x: (self.x * k) as u64,
            y: (self.y * k) as u64,
            z: (self.z * k) as u64,
            w: (self.w * k) as u64,
        }
    }

    /// a zero vector
    pub fn zero() -> (r: Self)
        ensures
            r.x == 0 && r.y == 0 && r.z == 0 && r.w == 0,
    {
        DUVec4 { x: 0, y: 0, z: 0, w: 0 }
    }

    /// a vector full of ones
    pub fn one() -> (r: Self)
        ensures
            r.x == 1 && r.y == 1 && r.z == 1 && r.w == 1,
    {
        DUVec4 { x: 1, y: 1, z: 1, w: 1 }
    }

    /// the x axis
    pub fn x_axis() -> (r: Self)
        ensures
            r.x == 1 && r.y == 0 && r.z == 0 && r.w == 0,
    {
        DUVec4 { x: 1, y: 0, z: 0, w: 0 }
    }

    /// the y axis
    pub fn y_axis() -> (r: Self)
        ensures
            r.x == 0 && r.y == 1 && r.z == 0 && r.w == 0,
    {
        DUVec4 { x: 0, y: 1, z: 0, w: 0 }
    }

    /// the z axis
    pub fn z_axis() -> (r: Self)
        ensures
            r.x == 0 && r.y == 0 && r.z == 1 && r.w == 0,
    {
        DUVec4 { x: 0, y: 0, z: 1, w: 0 }
    }

    /// the w axis
    pub fn w_axis() -> (r: Self)
        ensures
            r.x == 0 && r.y == 0 && r.z == 0 && r.w == 1,
    {
        DUVec4 { x: 0, y: 0, z: 0, w: 1 }
    }

    pub fn new(x: u64, y: u64, z: u64, w: u64) -> (r: Self)
        ensures
            r.x == x && r.y == y && r.z == z && r.w == w,
    {
        Self { x: x, y: y, z: z, w: w }
    }

    /// this vector without its last coordinate.
    pub fn truncate(self) -> (r: DUVec3)
        ensures
            r.x == self.x && r.y == self.y && r.z == self.z,
    {
        duvec3(self.x, self.y, self.z)
    }

    /// create a vector where every coordinate equals `value`.
    pub fn splat(value: u64) -> (r: Self)
        ensures
            r.x == value && r.y == value && r.z == value && r.w == value,
    {
        Self::new(value, value, value, value)
    }

    /// the length of the vector before being square rooted.
    pub fn length_squared(self) -> (r: u64)
        requires
            self.can_dot(self),
        ensures
            r == self.length_squared_spec(),
    {
        self.x * self.x + self.y * self.y + self.z * self.z + self.w * self.w
    }

    /// the distance between two vectors before being square rooted.
    pub fn distance_squared(self, other: Self) -> (r: u64)
        requires
            self.can_sub(other),
            self.difference(other).can_dot(self.difference(other)),
        ensures
            r == self.difference(other).length_squared_spec(),
    {
        (self - other).length_squared()
    }

    /// the dot product of two vectors.
    pub fn dot(self, other: Self) -> (r: u64)
        requires
            self.can_dot(other),
        ensures
            r == self.dot_spec(other),
    {
        self.x * other.x + self.y * other.y + self.z * other.z + self.w * other.w
    }

    /// multiplies each coordinate by the scalar.
    pub fn scale(self, scalar: u64) -> (r: Self)
        requires
            self.can_scale(scalar),
        ensures
            r == self.scaled(scalar),
    {
        Self::new(self.x * scalar, self.y * scalar, self.z * scalar, self.w * scalar)
    }

    /// whether the two components are equal, coordinate by coordinate.
    pub fn eq(self, rhs: Self) -> (r: BVec4)
        ensures
            r == (BVec4 { x: self.x == rhs.x, y: self.y == rhs.y, z: self.z == rhs.z, w: self.w == rhs.w }),
    {
        bvec4(self.x == rhs.x, self.y == rhs.y, self.z == rhs.z, self.w == rhs.w)
    }

    /// whether the first components are less than the second, coordinate by coordinate.
    pub fn less(self, rhs: Self) -> (r: BVec4)
        ensures
            r == (BVec4 { x: self.x < rhs.x, y: self.y < rhs.y, z: self.z < rhs.z, w: self.w < rhs.w }),
    {
        bvec4(self.x < rhs.x, self.y < rhs.y, self.z < rhs.z, self.w < rhs.w)
    }

    /// whether the first components are more than the second, coordinate by coordinate.
    pub fn more(self, rhs: Self) -> (r: BVec4)
        ensures
            r == (BVec4 { x: self.x > rhs.x, y: self.y > rhs.y, z: self.z > rhs.z, w: self.w > rhs.w }),
    {
        bvec4(self.x > rhs.x, self.y > rhs.y, self.z > rhs.z, self.w > rhs.w)
    }

    /// whether the first components are less than or equal to the second, coordinate by coordinate.
    pub fn less_or_eq(self, rhs: Self) -> (r: BVec4)
        ensures
            r == (BVec4 { x: self.x <= rhs.x, y: self.y <= rhs.y, z: self.z <= rhs.z, w: self.w <= rhs.w }),
    {
        bvec4(self.x <= rhs.x, self.y <= rhs.y, self.z <= rhs.z, self.w <= rhs.w)
    }

    /// whether the first components are more than or equal to the second, coordinate by coordinate.
    pub fn more_or_eq(self, rhs: Self) -> (r: BVec4)
        ensures
            r == (BVec4 { x: self.x >= rhs.x, y: self.y >= rhs.y, z: self.z >= rhs.z, w: self.w >= rhs.w }),
    {
        bvec4(self.x >= rhs.x, self.y >= rhs.y, self.z >= rhs.z, self.w >= rhs.w)
    }
}

impl vstd::std_specs::ops::AddSpecImpl<DUVec4> for DUVec4 {
    open spec fn obeys_add_spec() -> bool {
        true
    }

    open spec fn add_req(self, rhs: DUVec4) -> bool {
        self.can_add(rhs)
    }

    open spec fn add_spec(self, rhs: DUVec4) -> DUVec4 {
        self.sum(rhs)
    }
}

impl std::ops::Add<DUVec4> for DUVec4 {
    type Output = DUVec4;

    fn add(self, rhs: DUVec4) -> DUVec4 {
        DUVec4 { x: self.x + rhs.x, y: self.y + rhs.y, z: self.z + rhs.z, w: self.w + rhs.w }
    }
}

impl vstd::std_specs::ops::SubSpecImpl<DUVec4> for DUVec4 {
    open spec fn obeys_sub_spec() -> bool {
        true
    }

    open spec fn sub_req(self, rhs: DUVec4) -> bool {
        self.can_sub(rhs)
    }

    open spec fn sub_spec(self, rhs: DUVec4) -> DUVec4 {
        self.difference(rhs)
    }
}

impl std::ops::Sub<DUVec4> for DUVec4 {
    type Output = DUVec4;

    fn sub(self, rhs: DUVec4) -> DUVec4 {
        DUVec4 { x: self.x - rhs.x, y: self.y - rhs.y, z: self.z - rhs.z, w: self.w - rhs.w }
    }
}

impl vstd::std_specs::ops::MulSpecImpl<DUVec4> for DUVec4 {
    open spec fn obeys_mul_spec() -> bool {
        true
    }

    open spec fn mul_req(self, rhs: DUVec4) -> bool {
        self.can_mul(rhs)
    }

    open spec fn mul_spec(self, rhs: DUVec4) -> DUVec4 {
        self.product(rhs)
    }
}

impl std::ops::Mul<DUVec4> for DUVec4 {
    type Output = DUVec4;

    fn mul(self, rhs: DUVec4) -> DUVec4 {
        DUVec4 { x: self.x * rhs.x, y: self.y * rhs.y, z: self.z * rhs.z, w: self.w * rhs.w }
    }
}

impl vstd::std_specs::ops::DivSpecImpl<DUVec4> for DUVec4 {
    open spec fn obeys_div_spec() -> bool {
        true
    }

    open spec fn div_req(self, rhs: DUVec4) -> bool {
        self.can_div(rhs)
    }

    open spec fn div_spec(self, rhs: DUVec4) -> DUVec4 {
        self.quotient(rhs)
    }
}

impl std::ops::Div<DUVec4> for DUVec4 {
    type Output = DUVec4;

    fn div(self, rhs: DUVec4) -> DUVec4 {
        DUVec4 { x: self.x / rhs.x, y: self.y / rhs.y, z: self.z / rhs.z, w: self.w / rhs.w }
    }
}

impl vstd::std_specs::ops::RemSpecImpl<DUVec4> for DUVec4 {
    open spec fn obeys_rem_spec() -> bool {
        true
    }

    open spec fn rem_req(self, rhs: DUVec4) -> bool {
        self.can_div(rhs)
    }

    open spec fn rem_spec(self, rhs: DUVec4) -> DUVec4 {
        self.remainder(rhs)
    }
}

impl std::ops::Rem<DUVec4> for DUVec4 {
    type Output = DUVec4;

    fn rem(self, rhs: DUVec4) -> DUVec4 {
        DUVec4 { x: self.x % rhs.x, y: self.y % rhs.y, z: self.z % rhs.z, w: self.w % rhs.w }
    }
}

impl vstd::std_specs::ops::MulSpecImpl<u64> for DUVec4 {
    open spec fn obeys_mul_spec() -> bool {
        true
    }

    open spec fn mul_req(self, rhs: u64) -> bool {
        self.can_scale(rhs)
    }

    open spec fn mul_spec(self, rhs: u64) -> DUVec4 {
        self.scaled(rhs)
    }
}

impl std::ops::Mul<u64> for DUVec4 {
    type Output = DUVec4;

    fn mul(self, rhs: u64) -> DUVec4 {
        self.scale(rhs)
    }
}

impl vstd::std_specs::ops::MulSpecImpl<DUVec4> for u64 {
    open spec fn obeys_mul_spec() -> bool {
        true
    }

    open spec fn mul_req(self, rhs: DUVec4) -> bool {
        rhs.can_scale(self)
    }

    open spec fn mul_spec(self, rhs: DUVec4) -> DUVec4 {
        rhs.scaled(self)
    }
}

impl std::ops::Mul<DUVec4> for u64 {
    type Output = DUVec4;

    fn mul(self, rhs: DUVec4) -> DUVec4 {
        rhs * self
    }
}

impl vstd::std_specs::ops::DivSpecImpl<u64> for DUVec4 {
    open spec fn obeys_div_spec() -> bool {
        true
    }

    open spec fn div_req(self, rhs: u64) -> bool {
        self.can_div((DUVec4 { x: rhs, y: rhs, z: rhs, w: rhs }))
    }

    open spec fn div_spec(self, rhs: u64) -> DUVec4 {
        self.quotient((DUVec4 { x: rhs, y: rhs, z: rhs, w: rhs }))
    }
}

impl std::ops::Div<u64> for DUVec4 {
    type Output = DUVec4;

    fn div(self, rhs: u64) -> DUVec4 {
        self / DUVec4::splat(rhs)
    }
}

impl vstd::std_specs::ops::DivSpecImpl<DUVec4> for u64 {
    open spec fn obeys_div_spec() -> bool {
        true
    }

    open spec fn div_req(self, rhs: DUVec4) -> bool {
        (DUVec4 { x: self, y: self, z: self, w: self }).can_div(rhs)
    }

    open spec fn div_spec(self, rhs: DUVec4) -> DUVec4 {
        (DUVec4 { x: self, y: self, z: self, w: self }).quotient(rhs)
    }
}

impl std::ops::Div<DUVec4> for u64 {
    type Output = DUVec4;

    fn div(self, rhs: DUVec4) -> DUVec4 {
        DUVec4::splat(self) / rhs
    }
}

impl vstd::std_specs::ops::RemSpecImpl<u64> for DUVec4 {
    open spec fn obeys_rem_spec() -> bool {
        true
    }

    open spec fn rem_req(self, rhs: u64) -> bool {
        self.can_div((DUVec4 { x: rhs, y: rhs, z: rhs, w: rhs }))
    }

    open spec fn rem_spec(self, rhs: u64) -> DUVec4 {
        self.remainder((DUVec4 { x: rhs, y: rhs, z: rhs, w: rhs }))
    }
}

impl std::ops::Rem<u64> for DUVec4 {
    type Output = DUVec4;

    fn rem(self, rhs: u64) -> DUVec4 {
        self % DUVec4::splat(rhs)
    }
}

impl vstd::std_specs::ops::RemSpecImpl<DUVec4> for u64 {
    open spec fn obeys_rem_spec() -> bool {
        true
    }

    open spec fn rem_req(self, rhs: DUVec4) -> bool {
        (DUVec4 { x: self, y: self, z: self, w: self }).can_div(rhs)
    }

    open spec fn rem_spec(self, rhs: DUVec4) -> DUVec4 {
        (DUVec4 { x: self, y: self, z: self, w: self }).remainder(rhs)
    }
}

impl std::ops::Rem<DUVec4> for u64 {
    type Output = DUVec4;

    fn rem(self, rhs: DUVec4) -> DUVec4 {
        DUVec4::splat(self) % rhs
    }
}

impl vstd::std_specs::convert::FromSpecImpl<(u64, u64, u64, u64)> for DUVec4 {
    open spec fn obeys_from_spec() -> bool {
        true
    }

    open spec fn from_spec(v: (u64, u64, u64, u64)) -> DUVec4 {
        (DUVec4 { x: v.0, y: v.1, z: v.2, w: v.3 })
    }
}

impl From<(u64, u64, u64, u64)> for DUVec4 {
    fn from(v: (u64, u64, u64, u64)) -> DUVec4 {
        DUVec4 { x: v.0, y: v.1, z: v.2, w: v.3 }
    }
}

impl vstd::std_specs::convert::FromSpecImpl<[u64; 4]> for DUVec4 {
    open spec fn obeys_from_spec() -> bool {
        true
    }

    open spec fn from_spec(v: [u64; 4]) -> DUVec4 {
        (DUVec4 { x: v[0], y: v[1], z: v[2], w: v[3] })
    }
}

impl From<[u64; 4]> for DUVec4 {
    fn from(v: [u64; 4]) -> DUVec4 {
        DUVec4 { x: v[0], y: v[1], z: v[2], w: v[3] }
    }
}

impl vstd::std_specs::convert::FromSpecImpl<DUVec4> for (u64, u64, u64, u64) {
    open spec fn obeys_from_spec() -> bool {
        true
    }

    open spec fn from_spec(v: DUVec4) -> (u64, u64, u64, u64) {
        (v.x, v.y, v.z, v.w)
    }
}

impl From<DUVec4> for (u64, u64, u64, u64) {
    fn from(v: DUVec4) -> (u64, u64, u64, u64) {
        (v.x, v.y, v.z, v.w)
    }
}

impl vstd::std_specs::convert::FromSpecImpl<DUVec4> for [u64; 4] {
    open spec fn obeys_from_spec() -> bool {
        true
    }

    open spec fn from_spec(v: DUVec4) -> [u64; 4] {
        [v.x, v.y, v.z, v.w]
    }
}

impl From<DUVec4> for [u64; 4] {
    fn from(v: DUVec4) -> [u64; 4] {
        [v.x, v.y, v.z, v.w]
    }
}

impl vstd::std_specs::convert::FromSpecImpl<UVec4> for DUVec4 {
    open spec fn obeys_from_spec() -> bool {
        true
    }

    open spec fn from_spec(v: UVec4) -> DUVec4 {
        (DUVec4 { x: v.x as u64, y: v.y as u64, z: v.z as u64, w: v.w as u64 })
    }
}

impl From<UVec4> for DUVec4 {
    fn from(v: UVec4) -> DUVec4 {
        DUVec4 { x: v.x as u64, y: v.y as u64, z: v.z as u64, w: v.w as u64 }
    }
}

} // verus!
