use vstd::prelude::*;

use super::bvec3::{BVec3, bvec3};
use super::ivec2::{IVec2, ivec2};
use super::ivec4::{IVec4, ivec4};
use crate::scalar::{div_i32, fits_i32, trunc_div, trunc_rem};

verus! {

/// an integer vector made from x, y and z coordinates.
#[derive(Debug, Clone, Copy, PartialEq, Eq, Structural, PartialOrd, Ord)]
pub struct IVec3 {
    pub x: i32,
    pub y: i32,
    pub z: i32,
}

/// create an integer vector from x, y and z coordinates.
pub fn ivec3(x: i32, y: i32, z: i32) -> (r: IVec3)
    ensures
        r.x == x && r.y == y && r.z == z,
{
    IVec3 { x: x, y: y, z: z }
}

impl IVec3 {
    /// the dot product over the integers.
    pub open spec fn dot_spec(self, o: Self) -> int {
        self.x * o.x + self.y * o.y + self.z * o.z
    }

    /// whether each product and each partial sum of the dot product, taken left to right, fits in `i32`.
    pub open spec fn can_dot(self, o: Self) -> bool {
        &&& fits_i32(self.x * o.x)
        &&& fits_i32(self.y * o.y)
        &&& fits_i32(self.x * o.x + self.y * o.y)
        &&& fits_i32(self.z * o.z)
        &&& fits_i32(self.x * o.x + self.y * o.y + self.z * o.z)
    }

    /// the squared length over the integers.
    pub open spec fn length_squared_spec(self) -> int {
        self.dot_spec(self)
    }

    /// whether the componentwise sum fits in `i32`.
    pub open spec fn can_add(self, o: Self) -> bool {
        &&& fits_i32(self.x + o.x)
        &&& fits_i32(self.y + o.y)
        &&& fits_i32(self.z + o.z)
    }

    /// the componentwise sum.
    pub open spec fn sum(self, o: Self) -> Self {
        IVec3 {
            x: (self.x + o.x) as i32,
            y: (self.y + o.y) as i32,
            z: (self.z + o.z) as i32,
        }
    }

    /// whether the componentwise difference fits in `i32`.
    pub open spec fn can_sub(self, o: Self) -> bool {
        &&& fits_i32(self.x - o.x)
        &&& fits_i32(self.y - o.y)
        &&& fits_i32(self.z - o.z)
    }

    /// the componentwise difference.
    pub open spec fn difference(self, o: Self) -> Self {
        IVec3 {
            x: (self.x - o.x) as i32,
            y: (self.y - o.y) as i32,
            z: (self.z - o.z) as i32,
        }
    }

    /// whether the componentwise product fits in `i32`.
    pub open spec fn can_mul(self, o: Self) -> bool {
        &&& fits_i32(self.x * o.x)
        &&& fits_i32(self.y * o.y)
        &&& fits_i32(self.z * o.z)
    }

    /// the componentwise product.
    pub open spec fn product(self, o: Self) -> Self {
        IVec3 {
            x: (self.x * o.x) as i32,
            y: (self.y * o.y) as i32,
            z: (self.z * o.z) as i32,
        }
    }

    /// whether componentwise division is defined: no zero divisor and no quotient out of range.
    pub open spec fn can_div(self, o: Self) -> bool {
        &&& o.x != 0 && !(self.x == i32::MIN && o.x == -1)
        &&& o.y != 0 && !(self.y == i32::MIN && o.y == -1)
        &&& o.z != 0 && !(self.z == i32::MIN && o.z == -1)
    }

    /// the componentwise quotient, rounded toward zero.
    pub open spec fn quotient(self, o: Self) -> Self {
        IVec3 {
            x: trunc_div(self.x as int, o.x as int) as i32,
            y: trunc_div(self.y as int, o.y as int) as i32,
            z: trunc_div(self.z as int, o.z as int) as i32,
        }
    }

    /// the componentwise remainder, which takes the sign of the dividend.
    pub open spec fn remainder(self, o: Self) -> Self {
        IVec3 {
            x: trunc_rem(self.x as int, o.x as int) as i32,
            y: trunc_rem(self.y as int, o.y as int) as i32,
            z: trunc_rem(self.z as int, o.z as int) as i32,
        }
    }

    /// whether every component can be negated.
    pub open spec fn can_neg(self) -> bool {
        &&& self.x != i32::MIN
        &&& self.y != i32::MIN
        &&& self.z != i32::MIN
    }

    /// the componentwise negation.
    pub open spec fn negation(self) -> Self {
        IVec3 { x: (-self.x) as i32, y: (-self.y) as i32, z: (-self.z) as i32 }
    }

    /// whether every component times `k` fits in `i32`.
    pub open spec fn can_scale(self, k: i32) -> bool {
        &&& fits_i32(self.x * k)
        &&& fits_i32(self.y * k)
        &&& fits_i32(self.z * k)
    }

    /// every component multiplied by `k`.
    pub open spec fn scaled(self, k: i32) -> Self {
        IVec3 {
            x: (self.x * k) as i32,
            y: (self.y * k) as i32,
            z: (self.z * k) as i32,
        }
    }

    /// the x component of the cross product over the integers.
    pub open spec fn cross_x(self, o: Self) -> int {
        self.y * o.z - self.z * o.y
    }

    /// the y component of the cross product over the integers.
    pub open spec fn cross_y(self, o: Self) -> int {
        self.z * o.x - self.x * o.z
    }

    /// the z component of the cross product over the integers.
    pub open spec fn cross_z(self, o: Self) -> int {
        self.x * o.y - self.y * o.x
    }

    /// whether every product and difference of the cross product fits in `i32`.
    pub open spec fn can_cross(self, o: Self) -> bool {
        &&& fits_i32(self.y * o.z)
        &&& fits_i32(self.z * o.y)
        &&& fits_i32(self.cross_x(o))
        &&& fits_i32(self.z * o.x)
        &&& fits_i32(self.x * o.z)
        &&& fits_i32(self.cross_y(o))
        &&& fits_i32(self.x * o.y)
        &&& fits_i32(self.y * o.x)
        &&& fits_i32(self.cross_z(o))
    }

    /// a zero vector
    pub fn zero() -> (r: Self)
        ensures
            r.x == 0 && r.y == 0 && r.z == 0,
    {
        IVec3 { x: 0, y: 0, z: 0 }
    }

    /// a vector full of ones
    pub fn one() -> (r: Self)
        ensures
            r.x == 1 && r.y == 1 && r.z == 1,
    {
        IVec3 { x: 1, y: 1, z: 1 }
    }

    /// the x axis
    pub fn x_axis() -> (r: Self)
        ensures
            r.x == 1 && r.y == 0 && r.z == 0,
    {
        IVec3 { x: 1, y: 0, z: 0 }
    }

    /// the y axis
    pub fn y_axis() -> (r: Self)
        ensures
            r.x == 0 && r.y == 1 && r.z == 0,
    {
        IVec3 { x: 0, y: 1, z: 0 }
    }

    /// the z axis
    pub fn z_axis() -> (r: Self)
        ensures
            r.x == 0 && r.y == 0 && r.z == 1,
    {
        IVec3 { x: 0, y: 0, z: 1 }
    }

    pub fn new(x: i32, y: i32, z: i32) -> (r: Self)
        ensures
            r.x == x && r.y == y && r.z == z,
    {
        Self { x: x, y: y, z: z }
    }

    /// this vector with `w` appended.
    pub fn extend(self, w: i32) -> (r: IVec4)
        ensures
            r.x == self.x && r.y == self.y && r.z == self.z && r.w == w,
    {
        ivec4(self.x, self.y, self.z, w)
    }

    /// this vector without its last coordinate.
    pub fn truncate(self) -> (r: IVec2)
        ensures
            r.x == self.x && r.y == self.y,
    {
        ivec2(self.x, self.y)
    }

    /// create a vector where every coordinate equals `value`.
    pub fn splat(value: i32) -> (r: Self)
        ensures
            r.x == value && r.y == value && r.z == value,
    {
        Self::new(value, value, value)
    }

    /// the length of the vector before being square rooted.
    pub fn length_squared(self) -> (r: i32)
        requires
            self.can_dot(self),
        ensures
            r == self.length_squared_spec(),
    {
        self.x * self.x + self.y * self.y + self.z * self.z
    }

    /// the distance between two vectors before being square rooted.
    pub fn distance_squared(self, other: Self) -> (r: i32)
        requires
            self.can_sub(other),
            self.difference(other).can_dot(self.difference(other)),
        ensures
            r == self.difference(other).length_squared_spec(),
    {
        (self - other).length_squared()
    }

    /// the dot product of two vectors.
    pub fn dot(self, other: Self) -> (r: i32)
        requires
            self.can_dot(other),
        ensures
            r == self.dot_spec(other),
    {
        self.x * other.x + self.y * other.y + self.z * other.z
    }

    /// the cross product of two vectors: a vector perpendicular to both, not normalised.
    pub fn cross(self, other: Self) -> (r: Self)
        requires
            self.can_cross(other),
        ensures
            r.x == self.cross_x(other),
            r.y == self.cross_y(other),
            r.z == self.cross_z(other),
    {
        ivec3(
            self.y * other.z - self.z * other.y,
            self.z * other.x - self.x * other.z,
            self.x * other.y - self.y * other.x,
        )
    }

    /// multiplies each coordinate by the scalar.
    pub fn scale(self, scalar: i32) -> (r: Self)
        requires
            self.can_scale(scalar),
        ensures
            r == self.scaled(scalar),
    {
        Self::new(self.x * scalar, self.y * scalar, self.z * scalar)
    }

    /// whether the two components are equal, coordinate by coordinate.
    pub fn eq(self, rhs: Self) -> (r: BVec3)
        ensures
            r == (BVec3 { x: self.x == rhs.x, y: self.y == rhs.y, z: self.z == rhs.z }),
    {
        bvec3(self.x == rhs.x, self.y == rhs.y, self.z == rhs.z)
    }

    /// whether the first components are less than the second, coordinate by coordinate.
    pub fn less(self, rhs: Self) -> (r: BVec3)
        ensures
            r == (BVec3 { x: self.x < rhs.x, y: self.y < rhs.y, z: self.z < rhs.z }),
    {
        bvec3(self.x < rhs.x, self.y < rhs.y, self.z < rhs.z)
    }

    /// whether the first components are more than the second, coordinate by coordinate.
    pub fn more(self, rhs: Self) -> (r: BVec3)
        ensures
            r == (BVec3 { x: self.x > rhs.x, y: self.y > rhs.y, z: self.z > rhs.z }),
    {
        bvec3(self.x > rhs.x, self.y > rhs.y, self.z > rhs.z)
    }

    /// whether the first components are less than or equal to the second, coordinate by coordinate.
    pub fn less_or_eq(self, rhs: Self) -> (r: BVec3)
        ensures
            r == (BVec3 { x: self.x <= rhs.x, y: self.y <= rhs.y, z: self.z <= rhs.z }),
    {
        bvec3(self.x <= rhs.x, self.y <= rhs.y, self.z <= rhs.z)
    }

    /// whether the first components are more than or equal to the second, coordinate by coordinate.
    pub fn more_or_eq(self, rhs: Self) -> (r: BVec3)
        ensures
            r == (BVec3 { x: self.x >= rhs.x, y: self.y >= rhs.y, z: self.z >= rhs.z }),
    {
        bvec3(self.x >= rhs.x, self.y >= rhs.y, self.z >= rhs.z)
    }
}

impl vstd::std_specs::ops::AddSpecImpl<IVec3> for IVec3 {
    open spec fn obeys_add_spec() -> bool {
        true
    }

    open spec fn add_req(self, rhs: IVec3) -> bool {
        self.can_add(rhs)
    }

    open spec fn add_spec(self, rhs: IVec3) -> IVec3 {
        self.sum(rhs)
    }
}

impl std::ops::Add<IVec3> for IVec3 {
    type Output = IVec3;

    fn add(self, rhs: IVec3) -> IVec3 {
        IVec3 { x: self.x + rhs.x, y: self.y + rhs.y, z: self.z + rhs.z }
    }
}

impl vstd::std_specs::ops::SubSpecImpl<IVec3> for IVec3 {
    open spec fn obeys_sub_spec() -> bool {
        true
    }

    open spec fn sub_req(self, rhs: IVec3) -> bool {
        self.can_sub(rhs)
    }

    open spec fn sub_spec(self, rhs: IVec3) -> IVec3 {
        self.difference(rhs)
    }
}

impl std::ops::Sub<IVec3> for IVec3 {
    type Output = IVec3;

    fn sub(self, rhs: IVec3) -> IVec3 {
        IVec3 { x: self.x - rhs.x, y: self.y - rhs.y, z: self.z - rhs.z }
    }
}

impl vstd::std_specs::ops::MulSpecImpl<IVec3> for IVec3 {
    open spec fn obeys_mul_spec() -> bool {
        true
    }

    open spec fn mul_req(self, rhs: IVec3) -> bool {
        self.can_mul(rhs)
    }

    open spec fn mul_spec(self, rhs: IVec3) -> IVec3 {
        self.product(rhs)
    }
}

impl std::ops::Mul<IVec3> for IVec3 {
    type Output = IVec3;

    fn mul(self, rhs: IVec3) -> IVec3 {
        IVec3 { x: self.x * rhs.x, y: self.y * rhs.y, z: self.z * rhs.z }
    }
}

impl vstd::std_specs::ops::DivSpecImpl<IVec3> for IVec3 {
    open spec fn obeys_div_spec() -> bool {
        true
    }

    open spec fn div_req(self, rhs: IVec3) -> bool {
        self.can_div(rhs)
    }

    open spec fn div_spec(self, rhs: IVec3) -> IVec3 {
        self.quotient(rhs)
    }
}

impl std::ops::Div<IVec3> for IVec3 {
    type Output = IVec3;

    fn div(self, rhs: IVec3) -> IVec3 {
        IVec3 { x: div_i32(self.x, rhs.x), y: div_i32(self.y, rhs.y), z: div_i32(self.z, rhs.z) }
    }
}

impl vstd::std_specs::ops::RemSpecImpl<IVec3> for IVec3 {
    open spec fn obeys_rem_spec() -> bool {
        true
    }

    open spec fn rem_req(self, rhs: IVec3) -> bool {
        self.can_div(rhs)
    }

    open spec fn rem_spec(self, rhs: IVec3) -> IVec3 {
        self.remainder(rhs)
    }
}

impl std::ops::Rem<IVec3> for IVec3 {
    type Output = IVec3;

    fn rem(self, rhs: IVec3) -> IVec3 {
        IVec3 { x: self.x % rhs.x, y: self.y % rhs.y, z: self.z % rhs.z }
    }
}

impl vstd::std_specs::ops::NegSpecImpl for IVec3 {
    open spec fn obeys_neg_spec() -> bool {
        true
    }

    open spec fn neg_req(self) -> bool {
        self.can_neg()
    }

    open spec fn neg_spec(self) -> Self {
        self.negation()
    }
}

impl std::ops::Neg for IVec3 {
    type Output = Self;

    fn neg(self) -> Self {
        IVec3 { x: -self.x, y: -self.y, z: -self.z }
    }
}

impl vstd::std_specs::ops::MulSpecImpl<i32> for IVec3 {
    open spec fn obeys_mul_spec() -> bool {
        true
    }

    open spec fn mul_req(self, rhs: i32) -> bool {
        self.can_scale(rhs)
    }

    open spec fn mul_spec(self, rhs: i32) -> IVec3 {
        self.scaled(rhs)
    }
}

impl std::ops::Mul<i32> for IVec3 {
    type Output = IVec3;

    fn mul(self, rhs: i32) -> IVec3 {
        self.scale(rhs)
    }
}

impl vstd::std_specs::ops::MulSpecImpl<IVec3> for i32 {
    open spec fn obeys_mul_spec() -> bool {
        true
    }

    open spec fn mul_req(self, rhs: IVec3) -> bool {
        rhs.can_scale(self)
    }

    open spec fn mul_spec(self, rhs: IVec3) -> IVec3 {
        rhs.scaled(self)
    }
}

impl std::ops::Mul<IVec3> for i32 {
    type Output = IVec3;

    fn mul(self, rhs: IVec3) -> IVec3 {
        rhs * self
    }
}

impl vstd::std_specs::ops::DivSpecImpl<i32> for IVec3 {
    open spec fn obeys_div_spec() -> bool {
        true
    }

    open spec fn div_req(self, rhs: i32) -> bool {
        self.can_div((IVec3 { x: rhs, y: rhs, z: rhs }))
    }

    open spec fn div_spec(self, rhs: i32) -> IVec3 {
        self.quotient((IVec3 { x: rhs, y: rhs, z: rhs }))
    }
}

impl std::ops::Div<i32> for IVec3 {
    type Output = IVec3;

    fn div(self, rhs: i32) -> IVec3 {
        self / IVec3::splat(rhs)
    }
}

impl vstd::std_specs::ops::DivSpecImpl<IVec3> for i32 {
    open spec fn obeys_div_spec() -> bool {
        true
    }

    open spec fn div_req(self, rhs: IVec3) -> bool {
        (IVec3 { x: self, y: self, z: self }).can_div(rhs)
    }

    open spec fn div_spec(self, rhs: IVec3) -> IVec3 {
        (IVec3 { x: self, y: self, z: self }).quotient(rhs)
    }
}

impl std::ops::Div<IVec3> for i32 {
    type Output = IVec3;

    fn div(self, rhs: IVec3) -> IVec3 {
        IVec3::splat(self) / rhs
    }
}

impl vstd::std_specs::ops::RemSpecImpl<i32> for IVec3 {
    open spec fn obeys_rem_spec() -> bool {
        true
    }

    open spec fn rem_req(self, rhs: i32) -> bool {
        self.can_div((IVec3 { x: rhs, y: rhs, z: rhs }))
    }

    open spec fn rem_spec(self, rhs: i32) -> IVec3 {
        self.remainder((IVec3 { x: rhs, y: rhs, z: rhs }))
    }
}

impl std::ops::Rem<i32> for IVec3 {
    type Output = IVec3;

    fn rem(self, rhs: i32) -> IVec3 {
        self % IVec3::splat(rhs)
    }
}

impl vstd::std_specs::ops::RemSpecImpl<IVec3> for i32 {
    open spec fn obeys_rem_spec() -> bool {
        true
    }

    open spec fn rem_req(self, rhs: IVec3) -> bool {
        (IVec3 { x: self, y: self, z: self }).can_div(rhs)
    }

    open spec fn rem_spec(self, rhs: IVec3) -> IVec3 {
        (IVec3 { x: self, y: self, z: self }).remainder(rhs)
    }
}

impl std::ops::Rem<IVec3> for i32 {
    type Output = IVec3;

    fn rem(self, rhs: IVec3) -> IVec3 {
        IVec3::splat(self) % rhs
    }
}

impl vstd::std_specs::convert::FromSpecImpl<(i32, i32, i32)> for IVec3 {
    open spec fn obeys_from_spec() -> bool {
        true
    }

    open spec fn from_spec(v: (i32, i32, i32)) -> IVec3 {
        (IVec3 { x: v.0, y: v.1, z: v.2 })
    }
}

impl From<(i32, i32, i32)> for IVec3 {
    fn from(v: (i32, i32, i32)) -> IVec3 {
        IVec3 { x: v.0, y: v.1, z: v.2 }
    }
}

impl vstd::std_specs::convert::FromSpecImpl<[i32; 3]> for IVec3 {
    open spec fn obeys_from_spec() -> bool {
        true
    }

    open spec fn from_spec(v: [i32; 3]) -> IVec3 {
        (IVec3 { x: v[0], y: v[1], z: v[2] })
    }
}

impl From<[i32; 3]> for IVec3 {
    fn from(v: [i32; 3]) -> IVec3 {
        IVec3 { x: v[0], y: v[1], z: v[2] }
    }
}

impl vstd::std_specs::convert::FromSpecImpl<IVec3> for (i32, i32, i32) {
    open spec fn obeys_from_spec() -> bool {
        true
    }

    open spec fn from_spec(v: IVec3) -> (i32, i32, i32) {
        (v.x, v.y, v.z)
    }
}

impl From<IVec3> for (i32, i32, i32) {
    fn from(v: IVec3) -> (i32, i32, i32) {
        (v.x, v.y, v.z)
    }
}

impl vstd::std_specs::convert::FromSpecImpl<IVec3> for [i32; 3] {
    open spec fn obeys_from_spec() -> bool {
        true
    }

    open spec fn from_spec(v: IVec3) -> [i32; 3] {
        [v.x, v.y, v.z]
    }
}

impl From<IVec3> for [i32; 3] {
    fn from(v: IVec3) -> [i32; 3] {
        [v.x, v.y, v.z]
    }
}

/// The cross product is anticommutative: swapping the operands negates every component.
pub proof fn lemma_cross_anticommutative(a: IVec3, b: IVec3)
    ensures
        a.cross_x(b) == -b.cross_x(a),
        a.cross_y(b) == -b.cross_y(a),
        a.cross_z(b) == -b.cross_z(a),
{
}

} // verus!
