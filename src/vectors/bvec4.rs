use vstd::prelude::*;

use super::bvec3::{BVec3, bvec3};

verus! {

/// a boolean vector with x, y, z and w components.
#[derive(Debug, Clone, Copy, PartialEq, Eq, Structural)]
pub struct BVec4 {
    pub x: bool,
    pub y: bool,
    pub z: bool,
    pub w: bool,
}

/// create a boolean vector from x, y, z and w components.
pub fn bvec4(x: bool, y: bool, z: bool, w: bool) -> (r: BVec4)
    ensures
        r.x == x && r.y == y && r.z == z && r.w == w,
{
    BVec4::new(x, y, z, w)
}

impl BVec4 {
    /// a vector full of trues
    pub fn all_true() -> (r: Self)
        ensures
            r.x == true && r.y == true && r.z == true && r.w == true,
    {
        BVec4 { x: true, y: true, z: true, w: true }
    }

    /// a vector full of falses
    pub fn all_false() -> (r: Self)
        ensures
            r.x == false && r.y == false && r.z == false && r.w == false,
    {
        BVec4 { x: false, y: false, z: false, w: false }
    }

    /// a vector where only x is true
    pub fn x_axis() -> (r: Self)
        ensures
            r.x == true && r.y == false && r.z == false && r.w == false,
    {
        BVec4 { x: true, y: false, z: false, w: false }
    }

    /// a vector where only y is true
    pub fn y_axis() -> (r: Self)
        ensures
            r.x == false && r.y == true && r.z == false && r.w == false,
    {
        BVec4 { x: false, y: true, z: false, w: false }
    }

    /// a vector where only z is true
    pub fn z_axis() -> (r: Self)
        ensures
            r.x == false && r.y == false && r.z == true && r.w == false,
    {
        BVec4 { x: false, y: false, z: true, w: false }
    }

    /// a vector where only w is true
    pub fn w_axis() -> (r: Self)
        ensures
            r.x == false && r.y == false && r.z == false && r.w == true,
    {
        BVec4 { x: false, y: false, z: false, w: true }
    }

    pub fn new(x: bool, y: bool, z: bool, w: bool) -> (r: Self)
        ensures
            r.x == x && r.y == y && r.z == z && r.w == w,
    {
        Self { x: x, y: y, z: z, w: w }
    }

    /// this vector without its last component.
    pub fn truncate(self) -> (r: BVec3)
        ensures
            r.x == self.x && r.y == self.y && r.z == self.z,
    {
        BVec3::new(self.x, self.y, self.z)
    }
}

impl vstd::std_specs::ops::BitOrSpecImpl for BVec4 {
    open spec fn obeys_bitor_spec() -> bool {
        true
    }

    open spec fn bitor_req(self, rhs: Self) -> bool {
        true
    }

    open spec fn bitor_spec(self, rhs: Self) -> Self {
        BVec4 { x: self.x || rhs.x, y: self.y || rhs.y, z: self.z || rhs.z, w: self.w || rhs.w }
    }
}

impl std::ops::BitOr for BVec4 {
    type Output = Self;

    fn bitor(self, rhs: Self) -> Self {
        BVec4 { x: self.x || rhs.x, y: self.y || rhs.y, z: self.z || rhs.z, w: self.w || rhs.w }
    }
}

impl std::ops::BitOrAssign for BVec4 {
    /// componentwise or in place.
    fn bitor_assign(&mut self, rhs: Self)
        ensures
            *final(self) == (BVec4 { x: old(self).x || rhs.x, y: old(self).y || rhs.y, z: old(self).z || rhs.z, w: old(self).w || rhs.w }),
    {
        *self = *self | rhs;
    }
}

impl vstd::std_specs::ops::BitAndSpecImpl for BVec4 {
    open spec fn obeys_bitand_spec() -> bool {
        true
    }

    open spec fn bitand_req(self, rhs: Self) -> bool {
        true
    }

    open spec fn bitand_spec(self, rhs: Self) -> Self {
        BVec4 { x: self.x && rhs.x, y: self.y && rhs.y, z: self.z && rhs.z, w: self.w && rhs.w }
    }
}

impl std::ops::BitAnd for BVec4 {
    type Output = Self;

    fn bitand(self, rhs: Self) -> Self {
        BVec4 { x: self.x && rhs.x, y: self.y && rhs.y, z: self.z && rhs.z, w: self.w && rhs.w }
    }
}

impl std::ops::BitAndAssign for BVec4 {
    /// componentwise and in place.
    fn bitand_assign(&mut self, rhs: Self)
        ensures
            *final(self) == (BVec4 { x: old(self).x && rhs.x, y: old(self).y && rhs.y, z: old(self).z && rhs.z, w: old(self).w && rhs.w }),
    {
        *self = *self & rhs;
    }
}

impl vstd::std_specs::ops::BitXorSpecImpl for BVec4 {
    open spec fn obeys_bitxor_spec() -> bool {
        true
    }

    open spec fn bitxor_req(self, rhs: Self) -> bool {
        true
    }

    open spec fn bitxor_spec(self, rhs: Self) -> Self {
        BVec4 { x: self.x != rhs.x, y: self.y != rhs.y, z: self.z != rhs.z, w: self.w != rhs.w }
    }
}

impl std::ops::BitXor for BVec4 {
    type Output = Self;

    fn bitxor(self, rhs: Self) -> Self {
        BVec4 { x: self.x != rhs.x, y: self.y != rhs.y, z: self.z != rhs.z, w: self.w != rhs.w }
    }
}

impl std::ops::BitXorAssign for BVec4 {
    /// componentwise exclusive or in place.
    fn bitxor_assign(&mut self, rhs: Self)
        ensures
            *final(self) == (BVec4 { x: old(self).x != rhs.x, y: old(self).y != rhs.y, z: old(self).z != rhs.z, w: old(self).w != rhs.w }),
    {
        *self = *self ^ rhs;
    }
}

impl vstd::std_specs::ops::NotSpecImpl for BVec4 {
    open spec fn obeys_not_spec() -> bool {
        true
    }

    open spec fn not_req(self) -> bool {
        true
    }

    open spec fn not_spec(self) -> Self {
        BVec4 { x: !self.x, y: !self.y, z: !self.z, w: !self.w }
    }
}

impl std::ops::Not for BVec4 {
    type Output = Self;

    fn not(self) -> Self {
        BVec4 { x: !self.x, y: !self.y, z: !self.z, w: !self.w }
    }
}

impl vstd::std_specs::convert::FromSpecImpl<(bool, bool, bool, bool)> for BVec4 {
    open spec fn obeys_from_spec() -> bool {
        true
    }

    open spec fn from_spec(v: (bool, bool, bool, bool)) -> BVec4 {
        (BVec4 { x: v.0, y: v.1, z: v.2, w: v.3 })
    }
}

impl From<(bool, bool, bool, bool)> for BVec4 {
    fn from(v: (bool, bool, bool, bool)) -> BVec4 {
        BVec4 { x: v.0, y: v.1, z: v.2, w: v.3 }
    }
}

impl vstd::std_specs::convert::FromSpecImpl<[bool; 4]> for BVec4 {
    open spec fn obeys_from_spec() -> bool {
        true
    }

    open spec fn from_spec(v: [bool; 4]) -> BVec4 {
        (BVec4 { x: v[0], y: v[1], z: v[2], w: v[3] })
    }
}

impl From<[bool; 4]> for BVec4 {
    fn from(v: [bool; 4]) -> BVec4 {
        BVec4 { x: v[0], y: v[1], z: v[2], w: v[3] }
    }
}

impl vstd::std_specs::convert::FromSpecImpl<BVec4> for (bool, bool, bool, bool) {
    open spec fn obeys_from_spec() -> bool {
        true
    }

    open spec fn from_spec(v: BVec4) -> (bool, bool, bool, bool) {
        (v.x, v.y, v.z, v.w)
    }
}

impl From<BVec4> for (bool, bool, bool, bool) {
    fn from(v: BVec4) -> (bool, bool, bool, bool) {
        (v.x, v.y, v.z, v.w)
    }
}

impl vstd::std_specs::convert::FromSpecImpl<BVec4> for [bool; 4] {
    open spec fn obeys_from_spec() -> bool {
        true
    }

    open spec fn from_spec(v: BVec4) -> [bool; 4] {
        [v.x, v.y, v.z, v.w]
    }
}

impl From<BVec4> for [bool; 4] {
    fn from(v: BVec4) -> [bool; 4] {
        [v.x, v.y, v.z, v.w]
    }
}

} // verus!
