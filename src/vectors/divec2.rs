use vstd::prelude::*;

use super::bvec2::{BVec2, bvec2};
use super::divec3::{DIVec3, divec3};
use super::ivec2::IVec2;
use crate::scalar::{div_i64, fits_i64, trunc_div, trunc_rem};

verus! {

/// a double integer vector made from x and y coordinates.
#[derive(Debug, Clone, Copy, PartialEq, Eq, Structural, PartialOrd, Ord)]
pub struct DIVec2 {
    pub x: i64,
    pub y: i64,
}

/// create a double integer vector from x and y coordinates.
pub fn divec2(x: i64, y: i64) -> (r: DIVec2)
    ensures
        r.x == x && r.y == y,
{
    DIVec2 { x: x, y: y }
}

impl DIVec2 {
    /// the dot product over the integers.
    pub open spec fn dot_spec(self, o: Self) -> int {
        self.x * o.x + self.y * o.y
    }

    /// whether each product and each partial sum of the dot product, taken left to right, fits in `i64`.
    pub open spec fn can_dot(self, o: Self) -> bool {
        &&& fits_i64(self.x * o.x)
        &&& fits_i64(self.y * o.y)
        &&& fits_i64(self.x * o.x + self.y * o.y)
    }

    /// the squared length over the integers.
    pub open spec fn length_squared_spec(self) -> int {
        self.dot_spec(self)
    }

    /// whether the componentwise sum fits in `i64`.
    pub open spec fn can_add(self, o: Self) -> bool {
        &&& fits_i64(self.x + o.x)
        &&& fits_i64(self.y + o.y)
    }

    /// the componentwise sum.
    pub open spec fn sum(self, o: Self) -> Self {
        DIVec2 { x: (self.x + o.x) as i64, y: (self.y + o.y) as i64 }
    }

    /// whether the componentwise difference fits in `i64`.
    pub open spec fn can_sub(self, o: Self) -> bool {
        &&& fits_i64(self.x - o.x)
        &&& fits_i64(self.y - o.y)
    }

    /// the componentwise difference.
    pub open spec fn difference(self, o: Self) -> Self {
        DIVec2 { x: (self.x - o.x) as i64, y: (self.y - o.y) as i64 }
    }

    /// whether the componentwise product fits in `i64`.
    pub open spec fn can_mul(self, o: Self) -> bool {
        &&& fits_i64(self.x * o.x)
        &&& fits_i64(self.y * o.y)
    }

    /// the componentwise product.
    pub open spec fn product(self, o: Self) -> Self {
        DIVec2 { x: (self.x * o.x) as i64, y: (self.y * o.y) as i64 }
    }

    /// whether componentwise division is defined: no zero divisor and no quotient out of range.
    pub open spec fn can_div(self, o: Self) -> bool {
        &&& o.x != 0 && !(self.x == i64::MIN && o.x == -1)
        &&& o.y != 0 && !(self.y == i64::MIN && o.y == -1)
    }

    /// the componentwise quotient, rounded toward zero.
    pub open spec fn quotient(self, o: Self) -> Self {
        DIVec2 {
            x: trunc_div(self.x as int, o.x as int) as i64,
            y: trunc_div(self.y as int, o.y as int) as i64,
        }
    }

    /// the componentwise remainder, which takes the sign of the dividend.
    pub open spec fn remainder(self, o: Self) -> Self {
        DIVec2 {
            x: trunc_rem(self.x as int, o.x as int) as i64,
            y: trunc_rem(self.y as int, o.y as int) as i64,
        }
    }

    /// whether every component can be negated.
    pub open spec fn can_neg(self) -> bool {
        &&& self.x != i64::MIN
        &&& self.y != i64::MIN
    }

    /// the componentwise negation.
    pub open spec fn negation(self) -> Self {
        DIVec2 { x: (-self.x) as i64, y: (-self.y) as i64 }
    }

    /// whether every component times `k` fits in `i64`.
    pub open spec fn can_scale(self, k: i64) -> bool {
        &&& fits_i64(self.x * k)
        &&& fits_i64(self.y * k)
    }

    /// every component multiplied by `k`.
    pub open spec fn scaled(self, k: i64) -> Self {
        DIVec2 { x: (self.x * k) as i64, y: (self.y * k) as i64 }
    }

    /// a zero vector
    pub fn zero() -> (r: Self)
        ensures
            r.x == 0 && r.y == 0,
    {
        DIVec2 { x: 0, y: 0 }
    }

    /// a vector full of ones
    pub fn one() -> (r: Self)
        ensures
            r.x == 1 && r.y == 1,
    {
        DIVec2 { x: 1, y: 1 }
    }

    /// the x axis
    pub fn x_axis() -> (r: Self)
        ensures
            r.x == 1 && r.y == 0,
    {
        DIVec2 { x: 1, y: 0 }
    }

    /// the y axis
    pub fn y_axis() -> (r: Self)
        ensures
            r.x == 0 && r.y == 1,
    {
        DIVec2 { x: 0, y: 1 }
    }

    pub fn new(x: i64, y: i64) -> (r: Self)
        ensures
            r.x == x && r.y == y,
    {
        Self { x: x, y: y }
    }

    /// this vector with `z` appended.
    pub fn extend(self, z: i64) -> (r: DIVec3)
        ensures
            r.x == self.x && r.y == self.y && r.z == z,
    {
        divec3(self.x, self.y, z)
    }

    /// the x coordinate.
    pub fn truncate(self) -> (r: i64)
        ensures
            r == self.x,
    {
        self.x
    }

    /// create a vector where every coordinate equals `value`.
    pub fn splat(value: i64) -> (r: Self)
        ensures
            r.x == value && r.y == value,
    {
        Self::new(value, value)
    }

    /// the length of the vector before being square rooted.
    pub fn length_squared(self) -> (r: i64)
        requires
            self.can_dot(self),
        ensures
            r == self.length_squared_spec(),
    {
        self.x * self.x + self.y * self.y
    }

    /// the distance between two vectors before being square rooted.
    pub fn distance_squared(self, other: Self) -> (r: i64)
        requires
            self.can_sub(other),
            self.difference(other).can_dot(self.difference(other)),
        ensures
            r == self.difference(other).length_squared_spec(),
    {
        (self - other).length_squared()
    }

    /// the dot product of two vectors.
    pub fn dot(self, other: Self) -> (r: i64)
        requires
            self.can_dot(other),
        ensures
            r == self.dot_spec(other),
    {
        self.x * other.x + self.y * other.y
    }

    /// multiplies each coordinate by the scalar.
    pub fn scale(self, scalar: i64) -> (r: Self)
        requires
            self.can_scale(scalar),
        ensures
            r == self.scaled(scalar),
    {
        Self::new(self.x * scalar, self.y * scalar)
    }

    /// whether the two components are equal, coordinate by coordinate.
    pub fn eq(self, rhs: Self) -> (r: BVec2)
        ensures
            r == (BVec2 { x: self.x == rhs.x, y: self.y == rhs.y }),
    {
        bvec2(self.x == rhs.x, self.y == rhs.y)
    }

    /// whether the first components are less than the second, coordinate by coordinate.
    pub fn less(self, rhs: Self) -> (r: BVec2)
        ensures
            r == (BVec2 { x: self.x < rhs.x, y: self.y < rhs.y }),
    {
        bvec2(self.x < rhs.x, self.y < rhs.y)
    }

    /// whether the first components are more than the second, coordinate by coordinate.
    pub fn more(self, rhs: Self) -> (r: BVec2)
        ensures
            r == (BVec2 { x: self.x > rhs.x, y: self.y > rhs.y }),
    {
        bvec2(self.x > rhs.x, self.y > rhs.y)
    }

    /// whether the first components are less than or equal to the second, coordinate by coordinate.
    pub fn less_or_eq(self, rhs: Self) -> (r: BVec2)
        ensures
            r == (BVec2 { x: self.x <= rhs.x, y: self.y <= rhs.y }),
    {
        bvec2(self.x <= rhs.x, self.y <= rhs.y)
    }

    /// whether the first components are more than or equal to the second, coordinate by coordinate.
    pub fn more_or_eq(self, rhs: Self) -> (r: BVec2)
        ensures
            r == (BVec2 { x: self.x >= rhs.x, y: self.y >= rhs.y }),
    {
        bvec2(self.x >= rhs.x, self.y >= rhs.y)
    }
}

impl vstd::std_specs::ops::AddSpecImpl<DIVec2> for DIVec2 {
    open spec fn obeys_add_spec() -> bool {
        true
    }

    open spec fn add_req(self, rhs: DIVec2) -> bool {
        self.can_add(rhs)
    }

    open spec fn add_spec(self, rhs: DIVec2) -> DIVec2 {
        self.sum(rhs)
    }
}

impl std::ops::Add<DIVec2> for DIVec2 {
    type Output = DIVec2;

    fn add(self, rhs: DIVec2) -> DIVec2 {
        DIVec2 { x: self.x + rhs.x, y: self.y + rhs.y }
    }
}

impl vstd::std_specs::ops::SubSpecImpl<DIVec2> for DIVec2 {
    open spec fn obeys_sub_spec() -> bool {
        true
    }

    open spec fn sub_req(self, rhs: DIVec2) -> bool {
        self.can_sub(rhs)
    }

    open spec fn sub_spec(self, rhs: DIVec2) -> DIVec2 {
        self.difference(rhs)
    }
}

impl std::ops::Sub<DIVec2> for DIVec2 {
    type Output = DIVec2;

    fn sub(self, rhs: DIVec2) -> DIVec2 {
        DIVec2 { x: self.x - rhs.x, y: self.y - rhs.y }
    }
}

impl vstd::std_specs::ops::MulSpecImpl<DIVec2> for DIVec2 {
    open spec fn obeys_mul_spec() -> bool {
        true
    }

    open spec fn mul_req(self, rhs: DIVec2) -> bool {
        self.can_mul(rhs)
    }

    open spec fn mul_spec(self, rhs: DIVec2) -> DIVec2 {
        self.product(rhs)
    }
}

impl std::ops::Mul<DIVec2> for DIVec2 {
    type Output = DIVec2;

    fn mul(self, rhs: DIVec2) -> DIVec2 {
        DIVec2 { x: self.x * rhs.x, y: self.y * rhs.y }
    }
}

impl vstd::std_specs::ops::DivSpecImpl<DIVec2> for DIVec2 {
    open spec fn obeys_div_spec() -> bool {
        true
    }

    open spec fn div_req(self, rhs: DIVec2) -> bool {
        self.can_div(rhs)
    }

    open spec fn div_spec(self, rhs: DIVec2) -> DIVec2 {
        self.quotient(rhs)
    }
}

impl std::ops::Div<DIVec2> for DIVec2 {
    type Output = DIVec2;

    fn div(self, rhs: DIVec2) -> DIVec2 {
        DIVec2 { x: div_i64(self.x, rhs.x), y: div_i64(self.y, rhs.y) }
    }
}

impl vstd::std_specs::ops::RemSpecImpl<DIVec2> for DIVec2 {
    open spec fn obeys_rem_spec() -> bool {
        true
    }

    open spec fn rem_req(self, rhs: DIVec2) -> bool {
        self.can_div(rhs)
    }

    open spec fn rem_spec(self, rhs: DIVec2) -> DIVec2 {
        self.remainder(rhs)
    }
}

impl std::ops::Rem<DIVec2> for DIVec2 {
    type Output = DIVec2;

    fn rem(self, rhs: DIVec2) -> DIVec2 {
        DIVec2 { x: self.x % rhs.x, y: self.y % rhs.y }
    }
}

impl vstd::std_specs::ops::NegSpecImpl for DIVec2 {
    open spec fn obeys_neg_spec() -> bool {
        true
    }

    open spec fn neg_req(self) -> bool {
        self.can_neg()
    }

    open spec fn neg_spec(self) -> Self {
        self.negation()
    }
}

impl std::ops::Neg for DIVec2 {
    type Output = Self;

    fn neg(self) -> Self {
        DIVec2 { x: -self.x, y: -self.y }
    }
}

impl vstd::std_specs::ops::MulSpecImpl<i64> for DIVec2 {
    open spec fn obeys_mul_spec() -> bool {
        true
    }

    open spec fn mul_req(self, rhs: i64) -> bool {
        self.can_scale(rhs)
    }

    open spec fn mul_spec(self, rhs: i64) -> DIVec2 {
        self.scaled(rhs)
    }
}

impl std::ops::Mul<i64> for DIVec2 {
    type Output = DIVec2;

    fn mul(self, rhs: i64) -> DIVec2 {
        self.scale(rhs)
    }
}

impl vstd::std_specs::ops::MulSpecImpl<DIVec2> for i64 {
    open spec fn obeys_mul_spec() -> bool {
        true
    }

    open spec fn mul_req(self, rhs: DIVec2) -> bool {
        rhs.can_scale(self)
    }

    open spec fn mul_spec(self, rhs: DIVec2) -> DIVec2 {
        rhs.scaled(self)
    }
}

impl std::ops::Mul<DIVec2> for i64 {
    type Output = DIVec2;

    fn mul(self, rhs: DIVec2) -> DIVec2 {
        rhs * self
    }
}

impl vstd::std_specs::ops::DivSpecImpl<i64> for DIVec2 {
    open spec fn obeys_div_spec() -> bool {
        true
    }

    open spec fn div_req(self, rhs: i64) -> bool {
        self.can_div((DIVec2 { x: rhs, y: rhs }))
    }

    open spec fn div_spec(self, rhs: i64) -> DIVec2 {
        self.quotient((DIVec2 { x: rhs, y: rhs }))
    }
}

impl std::ops::Div<i64> for DIVec2 {
    type Output = DIVec2;

    fn div(self, rhs: i64) -> DIVec2 {
        self / DIVec2::splat(rhs)
    }
}

impl vstd::std_specs::ops::DivSpecImpl<DIVec2> for i64 {
    open spec fn obeys_div_spec() -> bool {
        true
    }

    open spec fn div_req(self, rhs: DIVec2) -> bool {
        (DIVec2 { x: self, y: self }).can_div(rhs)
    }

    open spec fn div_spec(self, rhs: DIVec2) -> DIVec2 {
        (DIVec2 { x: self, y: self }).quotient(rhs)
    }
}

impl std::ops::Div<DIVec2> for i64 {
    type Output = DIVec2;

    fn div(self, rhs: DIVec2) -> DIVec2 {
        DIVec2::splat(self) / rhs
    }
}

impl vstd::std_specs::ops::RemSpecImpl<i64> for DIVec2 {
    open spec fn obeys_rem_spec() -> bool {
        true
    }

    open spec fn rem_req(self, rhs: i64) -> bool {
        self.can_div((DIVec2 { x: rhs, y: rhs }))
    }

    open spec fn rem_spec(self, rhs: i64) -> DIVec2 {
        self.remainder((DIVec2 { x: rhs, y: rhs }))
    }
}

impl std::ops::Rem<i64> for DIVec2 {
    type Output = DIVec2;

    fn rem(self, rhs: i64) -> DIVec2 {
        self % DIVec2::splat(rhs)
    }
}

impl vstd::std_specs::ops::RemSpecImpl<DIVec2> for i64 {
    open spec fn obeys_rem_spec() -> bool {
        true
    }

    open spec fn rem_req(self, rhs: DIVec2) -> bool {
        (DIVec2 { x: self, y: self }).can_div(rhs)
    }

    open spec fn rem_spec(self, rhs: DIVec2) -> DIVec2 {
        (DIVec2 { x: self, y: self }).remainder(rhs)
    }
}

impl std::ops::Rem<DIVec2> for i64 {
    type Output = DIVec2;

    fn rem(self, rhs: DIVec2) -> DIVec2 {
        DIVec2::splat(self) % rhs
    }
}

impl vstd::std_specs::convert::FromSpecImpl<(i64, i64)> for DIVec2 {
    open spec fn obeys_from_spec() -> bool {
        true
    }

    open spec fn from_spec(v: (i64, i64)) -> DIVec2 {
        (DIVec2 { x: v.0, y: v.1 })
    }
}

impl From<(i64, i64)> for DIVec2 {
    fn from(v: (i64, i64)) -> DIVec2 {
        DIVec2 { x: v.0, y: v.1 }
    }
}

impl vstd::std_specs::convert::FromSpecImpl<[i64; 2]> for DIVec2 {
    open spec fn obeys_from_spec() -> bool {
        true
    }

    open spec fn from_spec(v: [i64; 2]) -> DIVec2 {
        (DIVec2 { x: v[0], y: v[1] })
    }
}

impl From<[i64; 2]> for DIVec2 {
    fn from(v: [i64; 2]) -> DIVec2 {
        DIVec2 { x: v[0], y: v[1] }
    }
}

impl vstd::std_specs::convert::FromSpecImpl<DIVec2> for (i64, i64) {
    open spec fn obeys_from_spec() -> bool {
        true
    }

    open spec fn from_spec(v: DIVec2) -> (i64, i64) {
        (v.x, v.y)
    }
}

impl From<DIVec2> for (i64, i64) {
    fn from(v: DIVec2) -> (i64, i64) {
        (v.x, v.y)
    }
}

impl vstd::std_specs::convert::FromSpecImpl<DIVec2> for [i64; 2] {
    open spec fn obeys_from_spec() -> bool {
        true
    }

    open spec fn from_spec(v: DIVec2) -> [i64; 2] {
        [v.x, v.y]
    }
}

impl From<DIVec2> for [i64; 2] {
    fn from(v: DIVec2) -> [i64; 2] {
        [v.x, v.y]
    }
}

impl vstd::std_specs::convert::FromSpecImpl<IVec2> for DIVec2 {
    open spec fn obeys_from_spec() -> bool {
        true
    }

    open spec fn from_spec(v: IVec2) -> DIVec2 {
        (DIVec2 { x: v.x as i64, y: v.y as i64 })
    }
}

impl From<IVec2> for DIVec2 {
    fn from(v: IVec2) -> DIVec2 {
        DIVec2 { x: v.x as i64, y: v.y as i64 }
    }
}

} // verus!
