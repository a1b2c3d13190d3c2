use vstd::prelude::*;

use super::bvec4::{BVec4, bvec4};
use super::ivec3::{IVec3, ivec3};
use crate::scalar::{div_i32, fits_i32, trunc_div, trunc_rem};

verus! {

/// an integer vector made from x, y, z and w coordinates.
#[derive(Debug, Clone, Copy, PartialEq, Eq, Structural, PartialOrd, Ord)]
pub struct IVec4 {
    pub x: i32,
    pub y: i32,
    pub z: i32,
    pub w: i32,
}

/// create an integer vector from x, y, z and w coordinates.
pub fn ivec4(x: i32, y: i32, z: i32, w: i32) -> (r: IVec4)
    ensures
        r.x == x && r.y == y && r.z == z && r.w == w,
{
    IVec4 { x: x, y: y, z: z, w: w }
}

impl IVec4 {
    /// the dot product over the integers.
    pub open spec fn dot_spec(self, o: Self) -> int {
        self.x * o.x + self.y * o.y + self.z * o.z + self.w * o.w
    }

    /// whether each product and each partial sum of the dot product, taken left to right, fits in `i32`.
    pub open spec fn can_dot(self, o: Self) -> bool {
        &&& fits_i32(self.x * o.x)
        &&& fits_i32(self.y * o.y)
        &&& fits_i32(self.x * o.x + self.y * o.y)
        &&& fits_i32(self.z * o.z)
        &&& fits_i32(self.x * o.x + self.y * o.y + self.z * o.z)
        &&& fits_i32(self.w * o.w)
        &&& fits_i32(self.x * o.x + self.y * o.y + self.z * o.z + self.w * o.w)
    }

    /// the squared length over the integers.
    pub open spec fn length_squared_spec(self) -> int {
        self.dot_spec(self)
    }

    /// whether the componentwise sum fits in `i32`.
    pub open spec fn can_add(self, o: Self) -> bool {
        &&& fits_i32(self.x + o.x)
        &&& fits_i32(self.y + o.y)
        &&& fits_i32(self.z + o.z)
        &&& fits_i32(self.w + o.w)
    }

    /// the componentwise sum.
    pub open spec fn sum(self, o: Self) -> Self {
        IVec4 {
            x: (self.x + o.x) as i32,
            y: (self.y + o.y) as i32,
            z: (self.z + o.z) as i32,
            w: (self.w + o.w) as i32,
        }
    }

    /// whether the componentwise difference fits in `i32`.
    pub open spec fn can_sub(self, o: Self) -> bool {
        &&& fits_i32(self.x - o.x)
        &&& fits_i32(self.y - o.y)
        &&& fits_i32(self.z - o.z)
        &&& fits_i32(self.w - o.w)
    }

    /// the componentwise difference.
    pub open spec fn difference(self, o: Self) -> Self {
        IVec4 {
            x: (self.x - o.x) as i32,
            y: (self.y - o.y) as i32,
            z: (self.z - o.z) as i32,
            w: (self.w - o.w) as i32,
        }
    }

    /// whether the componentwise product fits in `i32`.
    pub open spec fn can_mul(self, o: Self) -> bool {
        &&& fits_i32(self.x * o.x)
        &&& fits_i32(self.y * o.y)
        &&& fits_i32(self.z * o.z)
        &&& fits_i32(self.w * o.w)
    }

    /// the componentwise product.
    pub open spec fn product(self, o: Self) -> Self {
        IVec4 {
            x: (self.x * o.x) as i32,
            y: (self.y * o.y) as i32,
            z: (self.z * o.z) as i32,
            w: (self.w * o.w) as i32,
        }
    }

    /// whether componentwise division is defined: no zero divisor and no quotient out of range.
    pub open spec fn can_div(self, o: Self) -> bool {
        &&& o.x != 0 && !(self.x == i32::MIN && o.x == -1)
        &&& o.y != 0 && !(self.y == i32::MIN && o.y == -1)
        &&& o.z != 0 && !(self.z == i32::MIN && o.z == -1)
        &&& o.w != 0 && !(self.w == i32::MIN && o.w == -1)
    }

    /// the componentwise quotient, rounded toward zero.
    pub open spec fn quotient(self, o: Self) -> Self {
        IVec4 {
            x: trunc_div(self.x as int, o.x as int) as i32,
            y: trunc_div(self.y as int, o.y as int) as i32,
            z: trunc_div(self.z as int, o.z as int) as i32,
            w: trunc_div(self.w as int, o.w as int) as i32,
        }
    }

    /// the componentwise remainder, which takes the sign of the dividend.
    pub open spec fn remainder(self, o: Self) -> Self {
        IVec4 {
            x: trunc_rem(self.x as int, o.x as int) as i32,
            y: trunc_rem(self.y as int, o.y as int) as i32,
            z: trunc_rem(self.z as int, o.z as int) as i32,
            w: trunc_rem(self.w as int, o.w as int) as i32,
        }
    }

    /// whether every component can be negated.
    pub open spec fn can_neg(self) -> bool {
        &&& self.x != i32::MIN
        &&& self.y != i32::MIN
        &&& self.z != i32::MIN
        &&& self.w != i32::MIN
    }

    /// the componentwise negation.
    pub open spec fn negation(self) -> Self {
        IVec4 {
            x: (-self.x) as i32,
            y: (-self.y) as i32,
            z: (-self.z) as i32,
            w: (-self.w) as i32,
        }
    }

    /// whether every component times `k` fits in `i32`.
    pub open spec fn can_scale(self, k: i32) -> bool {
        &&& fits_i32(self.x * k)
        &&& fits_i32(self.y * k)
        &&& fits_i32(self.z * k)
        &&& fits_i32(self.w * k)
    }

    /// every component multiplied by `k`.
    pub open spec fn scaled(self, k: i32) -> Self {
        IVec4 {
            x: (self.x * k) as i32,
            y: (self.y * k) as i32,
            z: (self.z * k) as i32,
            w: (self.w * k) as i32,
        }
    }

    /// a zero vector
    pub fn zero() -> (r: Self)
        ensures
            r.x == 0 && r.y == 0 && r.z == 0 && r.w == 0,
    {
        IVec4 { x: 0, y: 0, z: 0, w: 0 }
    }

    /// a vector full of ones
    pub fn one() -> (r: Self)
        ensures
            r.x == 1 && r.y == 1 && r.z == 1 && r.w == 1,
    {
        IVec4 { x: 1, y: 1, z: 1, w: 1 }
    }

    /// the x axis
    pub fn x_axis() -> (r: Self)
        ensures
            r.x == 1 && r.y == 0 && r.z == 0 && r.w == 0,
    {
        IVec4 { x: 1, y: 0, z: 0, w: 0 }
    }

    /// the y axis
    pub fn y_axis() -> (r: Self)
        ensures
            r.x == 0 && r.y == 1 && r.z == 0 && r.w == 0,
    {
        IVec4 { x: 0, y: 1, z: 0, w: 0 }
    }

    /// the z axis
    pub fn z_axis() -> (r: Self)
        ensures
            r.x == 0 && r.y == 0 && r.z == 1 && r.w == 0,
    {
        IVec4 { x: 0, y: 0, z: 1, w: 0 }
    }

    /// the w axis
    pub fn w_axis() -> (r: Self)
        ensures
            r.x == 0 && r.y == 0 && r.z == 0 && r.w == 1,
    {
        IVec4 { x: 0, y: 0, z: 0, w: 1 }
    }

    pub fn new(x: i32, y: i32, z: i32, w: i32) -> (r: Self)
        ensures
            r.x == x && r.y == y && r.z == z && r.w == w,
    {
        Self { x: x, y: y, z: z, w: w }
    }

    /// this vector without its last coordinate.
    pub fn truncate(self) -> (r: IVec3)
        ensures
            r.x == self.x && r.y == self.y && r.z == self.z,
    {
        ivec3(self.x, self.y, self.z)
    }

    /// create a vector where every coordinate equals `value`.
    pub fn splat(value: i32) -> (r: Self)
        ensures
            r.x == value && r.y == value && r.z == value && r.w == value,
    {
        Self::new(value, value, value, value)
    }

    /// the length of the vector before being square rooted.
    pub fn length_squared(self) -> (r: i32)
        requires
            self.can_dot(self),
        ensures
            r == self.length_squared_spec(),
    {
        self.x * self.x + self.y * self.y + self.z * self.z + self.w * self.w
    }

    /// the distance between two vectors before being square rooted.
    pub fn distance_squared(self, other: Self) -> (r: i32)
        requires
            self.can_sub(other),
            self.difference(other).can_dot(self.difference(other)),
        ensures
            r == self.difference(other).length_squared_spec(),
    {
        (self - other).length_squared()
    }

    /// the dot product of two vectors.
    pub fn dot(self, other: Self) -> (r: i32)
        requires
            self.can_dot(other),
        ensures
            r == self.dot_spec(other),
    {
        self.x * other.x + self.y * other.y + self.z * other.z + self.w * other.w
    }

    /// multiplies each coordinate by the scalar.
    pub fn scale(self, scalar: i32) -> (r: Self)
        requires
            self.can_scale(scalar),
        ensures
            r == self.scaled(scalar),
    {
        Self::new(self.x * scalar, self.y * scalar, self.z * scalar, self.w * scalar)
    }

    /// whether the two components are equal, coordinate by coordinate.
    pub fn eq(self, rhs: Self) -> (r: BVec4)
        ensures
            r == (BVec4 { x: self.x == rhs.x, y: self.y == rhs.y, z: self.z == rhs.z, w: self.w == rhs.w }),
    {
        bvec4(self.x == rhs.x, self.y == rhs.y, self.z == rhs.z, self.w == rhs.w)
    }

    /// whether the first components are less than the second, coordinate by coordinate.
    pub fn less(self, rhs: Self) -> (r: BVec4)
        ensures
            r == (BVec4 { x: self.x < rhs.x, y: self.y < rhs.y, z: self.z < rhs.z, w: self.w < rhs.w }),
    {
        bvec4(self.x < rhs.x, self.y < rhs.y, self.z < rhs.z, self.w < rhs.w)
    }

    /// whether the first components are more than the second, coordinate by coordinate.
    pub fn more(self, rhs: Self) -> (r: BVec4)
        ensures
            r == (BVec4 { x: self.x > rhs.x, y: self.y > rhs.y, z: self.z > rhs.z, w: self.w > rhs.w }),
    {
        bvec4(self.x > rhs.x, self.y > rhs.y, self.z > rhs.z, self.w > rhs.w)
    }

    /// whether the first components are less than or equal to the second, coordinate by coordinate.
    pub fn less_or_eq(self, rhs: Self) -> (r: BVec4)
        ensures
            r == (BVec4 { x: self.x <= rhs.x, y: self.y <= rhs.y, z: self.z <= rhs.z, w: self.w <= rhs.w }),
    {
        bvec4(self.x <= rhs.x, self.y <= rhs.y, self.z <= rhs.z, self.w <= rhs.w)
    }

    /// whether the first components are more than or equal to the second, coordinate by coordinate.
    pub fn more_or_eq(self, rhs: Self) -> (r: BVec4)
        ensures
            r == (BVec4 { x: self.x >= rhs.x, y: self.y >= rhs.y, z: self.z >= rhs.z, w: self.w >= rhs.w }),
    {
        bvec4(self.x >= rhs.x, self.y >= rhs.y, self.z >= rhs.z, self.w >= rhs.w)
    }
}

impl vstd::std_specs::ops::AddSpecImpl<IVec4> for IVec4 {
    open spec fn obeys_add_spec() -> bool {
        true
    }

    open spec fn add_req(self, rhs: IVec4) -> bool {
        self.can_add(rhs)
    }

    open spec fn add_spec(self, rhs: IVec4) -> IVec4 {
        self.sum(rhs)
    }
}

impl std::ops::Add<IVec4> for IVec4 {
    type Output = IVec4;

    fn add(self, rhs: IVec4) -> IVec4 {
        IVec4 { x: self.x + rhs.x, y: self.y + rhs.y, z: self.z + rhs.z, w: self.w + rhs.w }
    }
}

impl vstd::std_specs::ops::SubSpecImpl<IVec4> for IVec4 {
    open spec fn obeys_sub_spec() -> bool {
        true
    }

    open spec fn sub_req(self, rhs: IVec4) -> bool {
        self.can_sub(rhs)
    }

    open spec fn sub_spec(self, rhs: IVec4) -> IVec4 {
        self.difference(rhs)
    }
}

impl std::ops::Sub<IVec4> for IVec4 {
    type Output = IVec4;

    fn sub(self, rhs: IVec4) -> IVec4 {
        IVec4 { x: self.x - rhs.x, y: self.y - rhs.y, z: self.z - rhs.z, w: self.w - rhs.w }
    }
}

impl vstd::std_specs::ops::MulSpecImpl<IVec4> for IVec4 {
    open spec fn obeys_mul_spec() -> bool {
        true
    }

    open spec fn mul_req(self, rhs: IVec4) -> bool {
        self.can_mul(rhs)
    }

    open spec fn mul_spec(self, rhs: IVec4) -> IVec4 {
        self.product(rhs)
    }
}

impl std::ops::Mul<IVec4> for IVec4 {
    type Output = IVec4;

    fn mul(self, rhs: IVec4) -> IVec4 {
        IVec4 { x: self.x * rhs.x, y: self.y * rhs.y, z: self.z * rhs.z, w: self.w * rhs.w }
    }
}

impl vstd::std_specs::ops::DivSpecImpl<IVec4> for IVec4 {
    open spec fn obeys_div_spec() -> bool {
        true
    }

    open spec fn div_req(self, rhs: IVec4) -> bool {
        self.can_div(rhs)
    }

    open spec fn div_spec(self, rhs: IVec4) -> IVec4 {
        self.quotient(rhs)
    }
}

impl std::ops::Div<IVec4> for IVec4 {
    type Output = IVec4;

    fn div(self, rhs: IVec4) -> IVec4 {
        IVec4 { x: div_i32(self.x, rhs.x), y: div_i32(self.y, rhs.y), z: div_i32(self.z, rhs.z), w: div_i32(self.w, rhs.w) }
    }
}

impl vstd::std_specs::ops::RemSpecImpl<IVec4> for IVec4 {
    open spec fn obeys_rem_spec() -> bool {
        true
    }

    open spec fn rem_req(self, rhs: IVec4) -> bool {
        self.can_div(rhs)
    }

    open spec fn rem_spec(self, rhs: IVec4) -> IVec4 {
        self.remainder(rhs)
    }
}

impl std::ops::Rem<IVec4> for IVec4 {
    type Output = IVec4;

    fn rem(self, rhs: IVec4) -> IVec4 {
        IVec4 { x: self.x % rhs.x, y: self.y % rhs.y, z: self.z % rhs.z, w: self.w % rhs.w }
    }
}

impl vstd::std_specs::ops::NegSpecImpl for IVec4 {
    open spec fn obeys_neg_spec() -> bool {
        true
    }

    open spec fn neg_req(self) -> bool {
        self.can_neg()
    }

    open spec fn neg_spec(self) -> Self {
        self.negation()
    }
}

impl std::ops::Neg for IVec4 {
    type Output = Self;

    fn neg(self) -> Self {
        IVec4 { x: -self.x, y: -self.y, z: -self.z, w: -self.w }
    }
}

impl vstd::std_specs::ops::MulSpecImpl<i32> for IVec4 {
    open spec fn obeys_mul_spec() -> bool {
        true
    }

    open spec fn mul_req(self, rhs: i32) -> bool {
        self.can_scale(rhs)
    }

    open spec fn mul_spec(self, rhs: i32) -> IVec4 {
        self.scaled(rhs)
    }
}

impl std::ops::Mul<i32> for IVec4 {
    type Output = IVec4;

    fn mul(self, rhs: i32) -> IVec4 {
        self.scale(rhs)
    }
}

impl vstd::std_specs::ops::MulSpecImpl<IVec4> for i32 {
    open spec fn obeys_mul_spec() -> bool {
        true
    }

    open spec fn mul_req(self, rhs: IVec4) -> bool {
        rhs.can_scale(self)
    }

    open spec fn mul_spec(self, rhs: IVec4) -> IVec4 {
        rhs.scaled(self)
    }
}

impl std::ops::Mul<IVec4> for i32 {
    type Output = IVec4;

    fn mul(self, rhs: IVec4) -> IVec4 {
        rhs * self
    }
}

impl vstd::std_specs::ops::DivSpecImpl<i32> for IVec4 {
    open spec fn obeys_div_spec() -> bool {
        true
    }

    open spec fn div_req(self, rhs: i32) -> bool {
        self.can_div((IVec4 { x: rhs, y: rhs, z: rhs, w: rhs }))
    }

    open spec fn div_spec(self, rhs: i32) -> IVec4 {
        self.quotient((IVec4 { x: rhs, y: rhs, z: rhs, w: rhs }))
    }
}

impl std::ops::Div<i32> for IVec4 {
    type Output = IVec4;

    fn div(self, rhs: i32) -> IVec4 {
        self / IVec4::splat(rhs)
    }
}

impl vstd::std_specs::ops::DivSpecImpl<IVec4> for i32 {
    open spec fn obeys_div_spec() -> bool {
        true
    }

    open spec fn div_req(self, rhs: IVec4) -> bool {
        (IVec4 { x: self, y: self, z: self, w: self }).can_div(rhs)
    }

    open spec fn div_spec(self, rhs: IVec4) -> IVec4 {
        (IVec4 { x: self, y: self, z: self, w: self }).quotient(rhs)
    }
}

impl std::ops::Div<IVec4> for i32 {
    type Output = IVec4;

    fn div(self, rhs: IVec4) -> IVec4 {
        IVec4::splat(self) / rhs
    }
}

impl vstd::std_specs::ops::RemSpecImpl<i32> for IVec4 {
    open spec fn obeys_rem_spec() -> bool {
        true
    }

    open spec fn rem_req(self, rhs: i32) -> bool {
        self.can_div((IVec4 { x: rhs, y: rhs, z: rhs, w: rhs }))
    }

    open spec fn rem_spec(self, rhs: i32) -> IVec4 {
        self.remainder((IVec4 { x: rhs, y: rhs, z: rhs, w: rhs }))
    }
}

impl std::ops::Rem<i32> for IVec4 {
    type Output = IVec4;

    fn rem(self, rhs: i32) -> IVec4 {
        self % IVec4::splat(rhs)
    }
}

impl vstd::std_specs::ops::RemSpecImpl<IVec4> for i32 {
    open spec fn obeys_rem_spec() -> bool {
        true
    }

    open spec fn rem_req(self, rhs: IVec4) -> bool {
        (IVec4 { x: self, y: self, z: self, w: self }).can_div(rhs)
    }

    open spec fn rem_spec(self, rhs: IVec4) -> IVec4 {
        (IVec4 { x: self, y: self, z: self, w: self }).remainder(rhs)
    }
}

impl std::ops::Rem<IVec4> for i32 {
    type Output = IVec4;

    fn rem(self, rhs: IVec4) -> IVec4 {
        IVec4::splat(self) % rhs
    }
}

impl vstd::std_specs::convert::FromSpecImpl<(i32, i32, i32, i32)> for IVec4 {
    open spec fn obeys_from_spec() -> bool {
        true
    }

    open spec fn from_spec(v: (i32, i32, i32, i32)) -> IVec4 {
        (IVec4 { x: v.0, y: v.1, z: v.2, w: v.3 })
    }
}

impl From<(i32, i32, i32, i32)> for IVec4 {
    fn from(v: (i32, i32, i32, i32)) -> IVec4 {
        IVec4 { x: v.0, y: v.1, z: v.2, w: v.3 }
    }
}

impl vstd::std_specs::convert::FromSpecImpl<[i32; 4]> for IVec4 {
    open spec fn obeys_from_spec() -> bool {
        true
    }

    open spec fn from_spec(v: [i32; 4]) -> IVec4 {
        (IVec4 { x: v[0], y: v[1], z: v[2], w: v[3] })
    }
}

impl From<[i32; 4]> for IVec4 {
    fn from(v: [i32; 4]) -> IVec4 {
        IVec4 { x: v[0], y: v[1], z: v[2], w: v[3] }
    }
}

impl vstd::std_specs::convert::FromSpecImpl<IVec4> for (i32, i32, i32, i32) {
    open spec fn obeys_from_spec() -> bool {
        true
    }

    open spec fn from_spec(v: IVec4) -> (i32, i32, i32, i32) {
        (v.x, v.y, v.z, v.w)
    }
}

impl From<IVec4> for (i32, i32, i32, i32) {
    fn from(v: IVec4) -> (i32, i32, i32, i32) {
        (v.x, v.y, v.z, v.w)
    }
}

impl vstd::std_specs::convert::FromSpecImpl<IVec4> for [i32; 4] {
    open spec fn obeys_from_spec() -> bool {
        true
    }

    open spec fn from_spec(v: IVec4) -> [i32; 4] {
        [v.x, v.y, v.z, v.w]
    }
}

impl From<IVec4> for [i32; 4] {
    fn from(v: IVec4) -> [i32; 4] {
        [v.x, v.y, v.z, v.w]
    }
}

} // verus!
