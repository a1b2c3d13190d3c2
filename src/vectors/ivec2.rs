use vstd::prelude::*;

use super::bvec2::{BVec2, bvec2};
use super::ivec3::{IVec3, ivec3};
use crate::scalar::{div_i32, fits_i32, trunc_div, trunc_rem};

verus! {

/// an integer vector made from x and y coordinates.
#[derive(Debug, Clone, Copy, PartialEq, Eq, Structural, PartialOrd, Ord)]
pub struct IVec2 {
    pub x: i32,
    pub y: i32,
}

/// create an integer vector from x and y coordinates.
pub fn ivec2(x: i32, y: i32) -> (r: IVec2)
    ensures
        r.x == x && r.y == y,
{
    IVec2 { x: x, y: y }
}

impl IVec2 {
    /// the dot product over the integers.
    pub open spec fn dot_spec(self, o: Self) -> int {
        self.x * o.x + self.y * o.y
    }

    /// whether each product and each partial sum of the dot product, taken left to right, fits in `i32`.
    pub open spec fn can_dot(self, o: Self) -> bool {
        &&& fits_i32(self.x * o.x)
        &&& fits_i32(self.y * o.y)
        &&& fits_i32(self.x * o.x + self.y * o.y)
    }

    /// the squared length over the integers.
    pub open spec fn length_squared_spec(self) -> int {
        self.dot_spec(self)
    }

    /// whether the componentwise sum fits in `i32`.
    pub open spec fn can_add(self, o: Self) -> bool {
        &&& fits_i32(self.x + o.x)
        &&& fits_i32(self.y + o.y)
    }

    /// the componentwise sum.
    pub open spec fn sum(self, o: Self) -> Self {
        IVec2 { x: (self.x + o.x) as i32, y: (self.y + o.y) as i32 }
    }

    /// whether the componentwise difference fits in `i32`.
    pub open spec fn can_sub(self, o: Self) -> bool {
        &&& fits_i32(self.x - o.x)
        &&& fits_i32(self.y - o.y)
    }

    /// the componentwise difference.
    pub open spec fn difference(self, o: Self) -> Self {
        IVec2 { x: (self.x - o.x) as i32, y: (self.y - o.y) as i32 }
    }

    /// whether the componentwise product fits in `i32`.
    pub open spec fn can_mul(self, o: Self) -> bool {
        &&& fits_i32(self.x * o.x)
        &&& fits_i32(self.y * o.y)
    }

    /// the componentwise product.
    pub open spec fn product(self, o: Self) -> Self {
        IVec2 { x: (self.x * o.x) as i32, y: (self.y * o.y) as i32 }
    }

    /// whether componentwise division is defined: no zero divisor and no quotient out of range.
    pub open spec fn can_div(self, o: Self) -> bool {
        &&& o.x != 0 && !(self.x == i32::MIN && o.x == -1)
        &&& o.y != 0 && !(self.y == i32::MIN && o.y == -1)
    }

    /// the componentwise quotient, rounded toward zero.
    pub open spec fn quotient(self, o: Self) -> Self {
        IVec2 {
            x: trunc_div(self.x as int, o.x as int) as i32,
            y: trunc_div(self.y as int, o.y as int) as i32,
        }
    }

    /// the componentwise remainder, which takes the sign of the dividend.
    pub open spec fn remainder(self, o: Self) -> Self {
        IVec2 {
            x: trunc_rem(self.x as int, o.x as int) as i32,
            y: trunc_rem(self.y as int, o.y as int) as i32,
        }
    }

    /// whether every component can be negated.
    pub open spec fn can_neg(self) -> bool {
        &&& self.x != i32::MIN
        &&& self.y != i32::MIN
    }

    /// the componentwise negation.
    pub open spec fn negation(self) -> Self {
        IVec2 { x: (-self.x) as i32, y: (-self.y) as i32 }
    }

    /// whether every component times `k` fits in `i32`.
    pub open spec fn can_scale(self, k: i32) -> bool {
        &&& fits_i32(self.x * k)
        &&& fits_i32(self.y * k)
    }

    /// every component multiplied by `k`.
    pub open spec fn scaled(self, k: i32) -> Self {
        IVec2 { x: (self.x * k) as i32, y: (self.y * k) as i32 }
    }

    /// a zero vector
    pub fn zero() -> (r: Self)
        ensures
            r.x == 0 && r.y == 0,
    {
        IVec2 { x: 0, y: 0 }
    }

    /// a vector full of ones
    pub fn one() -> (r: Self)
        ensures
            r.x == 1 && r.y == 1,
    {
        IVec2 { x: 1, y: 1 }
    }

    /// the x axis
    pub fn x_axis() -> (r: Self)
        ensures
            r.x == 1 && r.y == 0,
    {
        IVec2 { x: 1, y: 0 }
    }

    /// the y axis
    pub fn y_axis() -> (r: Self)
        ensures
            r.x == 0 && r.y == 1,
    {
        IVec2 { x: 0, y: 1 }
    }

    pub fn new(x: i32, y: i32) -> (r: Self)
        ensures
            r.x == x && r.y == y,
    {
        Self { x: x, y: y }
    }

    /// this vector with `z` appended.
    pub fn extend(self, z: i32) -> (r: IVec3)
        ensures
            r.x == self.x && r.y == self.y && r.z == z,
    {
        ivec3(self.x, self.y, z)
    }

    /// the x coordinate.
    pub fn truncate(self) -> (r: i32)
        ensures
            r == self.x,
    {
        self.x
    }

    /// create a vector where every coordinate equals `value`.
    pub fn splat(value: i32) -> (r: Self)
        ensures
            r.x == value && r.y == value,
    {
        Self::new(value, value)
    }

    /// the length of the vector before being square rooted.
    pub fn length_squared(self) -> (r: i32)
        requires
            self.can_dot(self),
        ensures
            r == self.length_squared_spec(),
    {
        self.x * self.x + self.y * self.y
    }

    /// the distance between two vectors before being square rooted.
    pub fn distance_squared(self, other: Self) -> (r: i32)
        requires
            self.can_sub(other),
            self.difference(other).can_dot(self.difference(other)),
        ensures
            r == self.difference(other).length_squared_spec(),
    {
        (self - other).length_squared()
    }

    /// the dot product of two vectors.
    pub fn dot(self, other: Self) -> (r: i32)
        requires
            self.can_dot(other),
        ensures
            r == self.dot_spec(other),
    {
        self.x * other.x + self.y * other.y
    }

    /// multiplies each coordinate by the scalar.
    pub fn scale(self, scalar: i32) -> (r: Self)
        requires
            self.can_scale(scalar),
        ensures
            r == self.scaled(scalar),
    {
        Self::new(self.x * scalar, self.y * scalar)
    }

    /// whether the two components are equal, coordinate by coordinate.
    pub fn eq(self, rhs: Self) -> (r: BVec2)
        ensures
            r == (BVec2 { x: self.x == rhs.x, y: self.y == rhs.y }),
    {
        bvec2(self.x == rhs.x, self.y == rhs.y)
    }

    /// whether the first components are less than the second, coordinate by coordinate.
    pub fn less(self, rhs: Self) -> (r: BVec2)
        ensures
            r == (BVec2 { x: self.x < rhs.x, y: self.y < rhs.y }),
    {
        bvec2(self.x < rhs.x, self.y < rhs.y)
    }

    /// whether the first components are more than the second, coordinate by coordinate.
    pub fn more(self, rhs: Self) -> (r: BVec2)
        ensures
            r == (BVec2 { x: self.x > rhs.x, y: self.y > rhs.y }),
    {
        bvec2(self.x > rhs.x, self.y > rhs.y)
    }

    /// whether the first components are less than or equal to the second, coordinate by coordinate.
    pub fn less_or_eq(self, rhs: Self) -> (r: BVec2)
        ensures
            r == (BVec2 { x: self.x <= rhs.x, y: self.y <= rhs.y }),
    {
        bvec2(self.x <= rhs.x, self.y <= rhs.y)
    }

    /// whether the first components are more than or equal to the second, coordinate by coordinate.
    pub fn more_or_eq(self, rhs: Self) -> (r: BVec2)
        ensures
            r == (BVec2 { x: self.x >= rhs.x, y: self.y >= rhs.y }),
    {
        bvec2(self.x >= rhs.x, self.y >= rhs.y)
    }
}

impl vstd::std_specs::ops::AddSpecImpl<IVec2> for IVec2 {
    open spec fn obeys_add_spec() -> bool {
        true
    }

    open spec fn add_req(self, rhs: IVec2) -> bool {
        self.can_add(rhs)
    }

    open spec fn add_spec(self, rhs: IVec2) -> IVec2 {
        self.sum(rhs)
    }
}

impl std::ops::Add<IVec2> for IVec2 {
    type Output = IVec2;

    fn add(self, rhs: IVec2) -> IVec2 {
        IVec2 { x: self.x + rhs.x, y: self.y + rhs.y }
    }
}

impl vstd::std_specs::ops::SubSpecImpl<IVec2> for IVec2 {
    open spec fn obeys_sub_spec() -> bool {
        true
    }

    open spec fn sub_req(self, rhs: IVec2) -> bool {
        self.can_sub(rhs)
    }

    open spec fn sub_spec(self, rhs: IVec2) -> IVec2 {
        self.difference(rhs)
    }
}

impl std::ops::Sub<IVec2> for IVec2 {
    type Output = IVec2;

    fn sub(self, rhs: IVec2) -> IVec2 {
        IVec2 { x: self.x - rhs.x, y: self.y - rhs.y }
    }
}

impl vstd::std_specs::ops::MulSpecImpl<IVec2> for IVec2 {
    open spec fn obeys_mul_spec() -> bool {
        true
    }

    open spec fn mul_req(self, rhs: IVec2) -> bool {
        self.can_mul(rhs)
    }

    open spec fn mul_spec(self, rhs: IVec2) -> IVec2 {
        self.product(rhs)
    }
}

impl std::ops::Mul<IVec2> for IVec2 {
    type Output = IVec2;

    fn mul(self, rhs: IVec2) -> IVec2 {
        IVec2 { x: self.x * rhs.x, y: self.y * rhs.y }
    }
}

impl vstd::std_specs::ops::DivSpecImpl<IVec2> for IVec2 {
    open spec fn obeys_div_spec() -> bool {
        true
    }

    open spec fn div_req(self, rhs: IVec2) -> bool {
        self.can_div(rhs)
    }

    open spec fn div_spec(self, rhs: IVec2) -> IVec2 {
        self.quotient(rhs)
    }
}

impl std::ops::Div<IVec2> for IVec2 {
    type Output = IVec2;

    fn div(self, rhs: IVec2) -> IVec2 {
        IVec2 { x: div_i32(self.x, rhs.x), y: div_i32(self.y, rhs.y) }
    }
}

impl vstd::std_specs::ops::RemSpecImpl<IVec2> for IVec2 {
    open spec fn obeys_rem_spec() -> bool {
        true
    }

    open spec fn rem_req(self, rhs: IVec2) -> bool {
        self.can_div(rhs)
    }

    open spec fn rem_spec(self, rhs: IVec2) -> IVec2 {
        self.remainder(rhs)
    }
}

impl std::ops::Rem<IVec2> for IVec2 {
    type Output = IVec2;

    fn rem(self, rhs: IVec2) -> IVec2 {
        IVec2 { x: self.x % rhs.x, y: self.y % rhs.y }
    }
}

impl vstd::std_specs::ops::NegSpecImpl for IVec2 {
    open spec fn obeys_neg_spec() -> bool {
        true
    }

    open spec fn neg_req(self) -> bool {
        self.can_neg()
    }

    open spec fn neg_spec(self) -> Self {
        self.negation()
    }
}

impl std::ops::Neg for IVec2 {
    type Output = Self;

    fn neg(self) -> Self {
        IVec2 { x: -self.x, y: -self.y }
    }
}

impl vstd::std_specs::ops::MulSpecImpl<i32> for IVec2 {
    open spec fn obeys_mul_spec() -> bool {
        true
    }

    open spec fn mul_req(self, rhs: i32) -> bool {
        self.can_scale(rhs)
    }

    open spec fn mul_spec(self, rhs: i32) -> IVec2 {
        self.scaled(rhs)
    }
}

impl std::ops::Mul<i32> for IVec2 {
    type Output = IVec2;

    fn mul(self, rhs: i32) -> IVec2 {
        self.scale(rhs)
    }
}

impl vstd::std_specs::ops::MulSpecImpl<IVec2> for i32 {
    open spec fn obeys_mul_spec() -> bool {
        true
    }

    open spec fn mul_req(self, rhs: IVec2) -> bool {
        rhs.can_scale(self)
    }

    open spec fn mul_spec(self, rhs: IVec2) -> IVec2 {
        rhs.scaled(self)
    }
}

impl std::ops::Mul<IVec2> for i32 {
    type Output = IVec2;

    fn mul(self, rhs: IVec2) -> IVec2 {
        rhs * self
    }
}

impl vstd::std_specs::ops::DivSpecImpl<i32> for IVec2 {
    open spec fn obeys_div_spec() -> bool {
        true
    }

    open spec fn div_req(self, rhs: i32) -> bool {
        self.can_div((IVec2 { x: rhs, y: rhs }))
    }

    open spec fn div_spec(self, rhs: i32) -> IVec2 {
        self.quotient((IVec2 { x: rhs, y: rhs }))
    }
}

impl std::ops::Div<i32> for IVec2 {
    type Output = IVec2;

    fn div(self, rhs: i32) -> IVec2 {
        self / IVec2::splat(rhs)
    }
}

impl vstd::std_specs::ops::DivSpecImpl<IVec2> for i32 {
    open spec fn obeys_div_spec() -> bool {
        true
    }

    open spec fn div_req(self, rhs: IVec2) -> bool {
        (IVec2 { x: self, y: self }).can_div(rhs)
    }

    open spec fn div_spec(self, rhs: IVec2) -> IVec2 {
        (IVec2 { x: self, y: self }).quotient(rhs)
    }
}

impl std::ops::Div<IVec2> for i32 {
    type Output = IVec2;

    fn div(self, rhs: IVec2) -> IVec2 {
        IVec2::splat(self) / rhs
    }
}

impl vstd::std_specs::ops::RemSpecImpl<i32> for IVec2 {
    open spec fn obeys_rem_spec() -> bool {
        true
    }

    open spec fn rem_req(self, rhs: i32) -> bool {
        self.can_div((IVec2 { x: rhs, y: rhs }))
    }

    open spec fn rem_spec(self, rhs: i32) -> IVec2 {
        self.remainder((IVec2 { x: rhs, y: rhs }))
    }
}

impl std::ops::Rem<i32> for IVec2 {
    type Output = IVec2;

    fn rem(self, rhs: i32) -> IVec2 {
        self % IVec2::splat(rhs)
    }
}

impl vstd::std_specs::ops::RemSpecImpl<IVec2> for i32 {
    open spec fn obeys_rem_spec() -> bool {
        true
    }

    open spec fn rem_req(self, rhs: IVec2) -> bool {
        (IVec2 { x: self, y: self }).can_div(rhs)
    }

    open spec fn rem_spec(self, rhs: IVec2) -> IVec2 {
        (IVec2 { x: self, y: self }).remainder(rhs)
    }
}

impl std::ops::Rem<IVec2> for i32 {
    type Output = IVec2;

    fn rem(self, rhs: IVec2) -> IVec2 {
        IVec2::splat(self) % rhs
    }
}

impl vstd::std_specs::convert::FromSpecImpl<(i32, i32)> for IVec2 {
    open spec fn obeys_from_spec() -> bool {
        true
    }

    open spec fn from_spec(v: (i32, i32)) -> IVec2 {
        (IVec2 { x: v.0, y: v.1 })
    }
}

impl From<(i32, i32)> for IVec2 {
    fn from(v: (i32, i32)) -> IVec2 {
        IVec2 { x: v.0, y: v.1 }
    }
}

impl vstd::std_specs::convert::FromSpecImpl<[i32; 2]> for IVec2 {
    open spec fn obeys_from_spec() -> bool {
        true
    }

    open spec fn from_spec(v: [i32; 2]) -> IVec2 {
        (IVec2 { x: v[0], y: v[1] })
    }
}

impl From<[i32; 2]> for IVec2 {
    fn from(v: [i32; 2]) -> IVec2 {
        IVec2 { x: v[0], y: v[1] }
    }
}

impl vstd::std_specs::convert::FromSpecImpl<IVec2> for (i32, i32) {
    open spec fn obeys_from_spec() -> bool {
        true
    }

    open spec fn from_spec(v: IVec2) -> (i32, i32) {
        (v.x, v.y)
    }
}

impl From<IVec2> for (i32, i32) {
    fn from(v: IVec2) -> (i32, i32) {
        (v.x, v.y)
    }
}

impl vstd::std_specs::convert::FromSpecImpl<IVec2> for [i32; 2] {
    open spec fn obeys_from_spec() -> bool {
        true
    }

    open spec fn from_spec(v: IVec2) -> [i32; 2] {
        [v.x, v.y]
    }
}

impl From<IVec2> for [i32; 2] {
    fn from(v: IVec2) -> [i32; 2] {
        [v.x, v.y]
    }
}

} // verus!
