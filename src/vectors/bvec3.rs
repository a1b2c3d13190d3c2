use vstd::prelude::*;

use super::bvec2::{BVec2, bvec2};
use super::bvec4::{BVec4, bvec4};

verus! {

/// a boolean vector with x, y and z components.
#[derive(Debug, Clone, Copy, PartialEq, Eq, Structural)]
pub struct BVec3 {
    pub x: bool,
    pub y: bool,
    pub z: bool,
}

/// create a boolean vector from x, y and z components.
pub fn bvec3(x: bool, y: bool, z: bool) -> (r: BVec3)
    ensures
        r.x == x && r.y == y && r.z == z,
{
    BVec3::new(x, y, z)
}

impl BVec3 {
    /// a vector full of trues
    pub fn all_true() -> (r: Self)
        ensures
            r.x == true && r.y == true && r.z == true,
    {
        BVec3 { x: true, y: true, z: true }
    }

    /// a vector full of falses
    pub fn all_false() -> (r: Self)
        ensures
            r.x == false && r.y == false && r.z == false,
    {
        BVec3 { x: false, y: false, z: false }
    }

    /// a vector where only x is true
    pub fn x_axis() -> (r: Self)
        ensures
            r.x == true && r.y == false && r.z == false,
    {
        BVec3 { x: true, y: false, z: false }
    }

    /// a vector where only y is true
    pub fn y_axis() -> (r: Self)
        ensures
            r.x == false && r.y == true && r.z == false,
    {
        BVec3 { x: false, y: true, z: false }
    }

    /// a vector where only z is true
    pub fn z_axis() -> (r: Self)
        ensures
            r.x == false && r.y == false && r.z == true,
    {
        BVec3 { x: false, y: false, z: true }
    }

    pub fn new(x: bool, y: bool, z: bool) -> (r: Self)
        ensures
            r.x == x && r.y == y && r.z == z,
    {
        Self { x: x, y: y, z: z }
    }

    /// this vector without its last component.
    pub fn truncate(self) -> (r: BVec2)
        ensures
            r.x == self.x && r.y == self.y,
    {
        BVec2::new(self.x, self.y)
    }

    /// this vector with `w` appended.
    pub fn extend(self, w: bool) -> (r: BVec4)
        ensures
            r.x == self.x && r.y == self.y && r.z == self.z && r.w == w,
    {
        BVec4::new(self.x, self.y, self.z, w)
    }
}

impl vstd::std_specs::ops::BitOrSpecImpl for BVec3 {
    open spec fn obeys_bitor_spec() -> bool {
        true
    }

    open spec fn bitor_req(self, rhs: Self) -> bool {
        true
    }

    open spec fn bitor_spec(self, rhs: Self) -> Self {
        BVec3 { x: self.x || rhs.x, y: self.y || rhs.y, z: self.z || rhs.z }
    }
}

impl std::ops::BitOr for BVec3 {
    type Output = Self;

    fn bitor(self, rhs: Self) -> Self {
        BVec3 { x: self.x || rhs.x, y: self.y || rhs.y, z: self.z || rhs.z }
    }
}

impl std::ops::BitOrAssign for BVec3 {
    /// componentwise or in place.
    fn bitor_assign(&mut self, rhs: Self)
        ensures
            *final(self) == (BVec3 { x: old(self).x || rhs.x, y: old(self).y || rhs.y, z: old(self).z || rhs.z }),
    {
        *self = *self | rhs;
    }
}

impl vstd::std_specs::ops::BitAndSpecImpl for BVec3 {
    open spec fn obeys_bitand_spec() -> bool {
        true
    }

    open spec fn bitand_req(self, rhs: Self) -> bool {
        true
    }

    open spec fn bitand_spec(self, rhs: Self) -> Self {
        BVec3 { x: self.x && rhs.x, y: self.y && rhs.y, z: self.z && rhs.z }
    }
}

impl std::ops::BitAnd for BVec3 {
    type Output = Self;

    fn bitand(self, rhs: Self) -> Self {
        BVec3 { x: self.x && rhs.x, y: self.y && rhs.y, z: self.z && rhs.z }
    }
}

impl std::ops::BitAndAssign for BVec3 {
    /// componentwise and in place.
    fn bitand_assign(&mut self, rhs: Self)
        ensures
            *final(self) == (BVec3 { x: old(self).x && rhs.x, y: old(self).y && rhs.y, z: old(self).z && rhs.z }),
    {
        *self = *self & rhs;
    }
}

impl vstd::std_specs::ops::BitXorSpecImpl for BVec3 {
    open spec fn obeys_bitxor_spec() -> bool {
        true
    }

    open spec fn bitxor_req(self, rhs: Self) -> bool {
        true
    }

    open spec fn bitxor_spec(self, rhs: Self) -> Self {
        BVec3 { x: self.x != rhs.x, y: self.y != rhs.y, z: self.z != rhs.z }
    }
}

impl std::ops::BitXor for BVec3 {
    type Output = Self;

    fn bitxor(self, rhs: Self) -> Self {
        BVec3 { x: self.x != rhs.x, y: self.y != rhs.y, z: self.z != rhs.z }
    }
}

impl std::ops::BitXorAssign for BVec3 {
    /// componentwise exclusive or in place.
    fn bitxor_assign(&mut self, rhs: Self)
        ensures
            *final(self) == (BVec3 { x: old(self).x != rhs.x, y: old(self).y != rhs.y, z: old(self).z != rhs.z }),
    {
        *self = *self ^ rhs;
    }
}

impl vstd::std_specs::ops::NotSpecImpl for BVec3 {
    open spec fn obeys_not_spec() -> bool {
        true
    }

    open spec fn not_req(self) -> bool {
        true
    }

    open spec fn not_spec(self) -> Self {
        BVec3 { x: !self.x, y: !self.y, z: !self.z }
    }
}

impl std::ops::Not for BVec3 {
    type Output = Self;

    fn not(self) -> Self {
        BVec3 { x: !self.x, y: !self.y, z: !self.z }
    }
}

impl vstd::std_specs::convert::FromSpecImpl<(bool, bool, bool)> for BVec3 {
    open spec fn obeys_from_spec() -> bool {
        true
    }

    open spec fn from_spec(v: (bool, bool, bool)) -> BVec3 {
        (BVec3 { x: v.0, y: v.1, z: v.2 })
    }
}

impl From<(bool, bool, bool)> for BVec3 {
    fn from(v: (bool, bool, bool)) -> BVec3 {
        BVec3 { x: v.0, y: v.1, z: v.2 }
    }
}

impl vstd::std_specs::convert::FromSpecImpl<[bool; 3]> for BVec3 {
    open spec fn obeys_from_spec() -> bool {
        true
    }

    open spec fn from_spec(v: [bool; 3]) -> BVec3 {
        (BVec3 { x: v[0], y: v[1], z: v[2] })
    }
}

impl From<[bool; 3]> for BVec3 {
    fn from(v: [bool; 3]) -> BVec3 {
        BVec3 { x: v[0], y: v[1], z: v[2] }
    }
}

impl vstd::std_specs::convert::FromSpecImpl<BVec3> for (bool, bool, bool) {
    open spec fn obeys_from_spec() -> bool {
        true
    }

    open spec fn from_spec(v: BVec3) -> (bool, bool, bool) {
        (v.x, v.y, v.z)
    }
}

impl From<BVec3> for (bool, bool, bool) {
    fn from(v: BVec3) -> (bool, bool, bool) {
        (v.x, v.y, v.z)
    }
}

impl vstd::std_specs::convert::FromSpecImpl<BVec3> for [bool; 3] {
    open spec fn obeys_from_spec() -> bool {
        true
    }

    open spec fn from_spec(v: BVec3) -> [bool; 3] {
        [v.x, v.y, v.z]
    }
}

impl From<BVec3> for [bool; 3] {
    fn from(v: BVec3) -> [bool; 3] {
        [v.x, v.y, v.z]
    }
}

} // verus!
