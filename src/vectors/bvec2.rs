use vstd::prelude::*;

use super::bvec3::{BVec3, bvec3};

verus! {

/// a boolean vector with x and y components.
#[derive(Debug, Clone, Copy, PartialEq, Eq, Structural)]
pub struct BVec2 {
    pub x: bool,
    pub y: bool,
}

/// create a boolean vector from x and y components.
pub fn bvec2(x: bool, y: bool) -> (r: BVec2)
    ensures
        r.x == x && r.y == y,
{
    BVec2::new(x, y)
}

impl BVec2 {
    /// a vector full of trues
    pub fn all_true() -> (r: Self)
        ensures
            r.x == true && r.y == true,
    {
        BVec2 { x: true, y: true }
    }

    /// a vector full of falses
    pub fn all_false() -> (r: Self)
        ensures
            r.x == false && r.y == false,
    {
        BVec2 { x: false, y: false }
    }

    /// a vector where only x is true
    pub fn x_axis() -> (r: Self)
        ensures
            r.x == true && r.y == false,
    {
        BVec2 { x: true, y: false }
    }

    /// a vector where only y is true
    pub fn y_axis() -> (r: Self)
        ensures
            r.x == false && r.y == true,
    {
        BVec2 { x: false, y: true }
    }

    pub fn new(x: bool, y: bool) -> (r: Self)
        ensures
            r.x == x && r.y == y,
    {
        Self { x: x, y: y }
    }

    /// the x component.
    pub fn truncate(self) -> (r: bool)
        ensures
            r == self.x,
    {
        self.x
    }

    /// this vector with `z` appended.
    pub fn extend(self, z: bool) -> (r: BVec3)
        ensures
            r.x == self.x && r.y == self.y && r.z == z,
    {
        BVec3::new(self.x, self.y, z)
    }
}

impl vstd::std_specs::ops::BitOrSpecImpl for BVec2 {
    open spec fn obeys_bitor_spec() -> bool {
        true
    }

    open spec fn bitor_req(self, rhs: Self) -> bool {
        true
    }

    open spec fn bitor_spec(self, rhs: Self) -> Self {
        BVec2 { x: self.x || rhs.x, y: self.y || rhs.y }
    }
}

impl std::ops::BitOr for BVec2 {
    type Output = Self;

    fn bitor(self, rhs: Self) -> Self {
        BVec2 { x: self.x || rhs.x, y: self.y || rhs.y }
    }
}

impl std::ops::BitOrAssign for BVec2 {
    /// componentwise or in place.
    fn bitor_assign(&mut self, rhs: Self)
        ensures
            *final(self) == (BVec2 { x: old(self).x || rhs.x, y: old(self).y || rhs.y }),
    {
        *self = *self | rhs;
    }
}

impl vstd::std_specs::ops::BitAndSpecImpl for BVec2 {
    open spec fn obeys_bitand_spec() -> bool {
        true
    }

    open spec fn bitand_req(self, rhs: Self) -> bool {
        true
    }

    open spec fn bitand_spec(self, rhs: Self) -> Self {
        BVec2 { x: self.x && rhs.x, y: self.y && rhs.y }
    }
}

impl std::ops::BitAnd for BVec2 {
    type Output = Self;

    fn bitand(self, rhs: Self) -> Self {
        BVec2 { x: self.x && rhs.x, y: self.y && rhs.y }
    }
}

impl std::ops::BitAndAssign for BVec2 {
    /// componentwise and in place.
    fn bitand_assign(&mut self, rhs: Self)
        ensures
            *final(self) == (BVec2 { x: old(self).x && rhs.x, y: old(self).y && rhs.y }),
    {
        *self = *self & rhs;
    }
}

impl vstd::std_specs::ops::BitXorSpecImpl for BVec2 {
    open spec fn obeys_bitxor_spec() -> bool {
        true
    }

    open spec fn bitxor_req(self, rhs: Self) -> bool {
        true
    }

    open spec fn bitxor_spec(self, rhs: Self) -> Self {
        BVec2 { x: self.x != rhs.x, y: self.y != rhs.y }
    }
}

impl std::ops::BitXor for BVec2 {
    type Output = Self;

    fn bitxor(self, rhs: Self) -> Self {
        BVec2 { x: self.x != rhs.x, y: self.y != rhs.y }
    }
}

impl std::ops::BitXorAssign for BVec2 {
    /// componentwise exclusive or in place.
    fn bitxor_assign(&mut self, rhs: Self)
        ensures
            *final(self) == (BVec2 { x: old(self).x != rhs.x, y: old(self).y != rhs.y }),
    {
        *self = *self ^ rhs;
    }
}

impl vstd::std_specs::ops::NotSpecImpl for BVec2 {
    open spec fn obeys_not_spec() -> bool {
        true
    }

    open spec fn not_req(self) -> bool {
        true
    }

    open spec fn not_spec(self) -> Self {
        BVec2 { x: !self.x, y: !self.y }
    }
}

impl std::ops::Not for BVec2 {
    type Output = Self;

    fn not(self) -> Self {
        BVec2 { x: !self.x, y: !self.y }
    }
}

impl vstd::std_specs::convert::FromSpecImpl<(bool, bool)> for BVec2 {
    open spec fn obeys_from_spec() -> bool {
        true
    }

    open spec fn from_spec(v: (bool, bool)) -> BVec2 {
        (BVec2 { x: v.0, y: v.1 })
    }
}

impl From<(bool, bool)> for BVec2 {
    fn from(v: (bool, bool)) -> BVec2 {
        BVec2 { x: v.0, y: v.1 }
    }
}

impl vstd::std_specs::convert::FromSpecImpl<[bool; 2]> for BVec2 {
    open spec fn obeys_from_spec() -> bool {
        true
    }

    open spec fn from_spec(v: [bool; 2]) -> BVec2 {
        (BVec2 { x: v[0], y: v[1] })
    }
}

impl From<[bool; 2]> for BVec2 {
    fn from(v: [bool; 2]) -> BVec2 {
        BVec2 { x: v[0], y: v[1] }
    }
}

impl vstd::std_specs::convert::FromSpecImpl<BVec2> for (bool, bool) {
    open spec fn obeys_from_spec() -> bool {
        true
    }

    open spec fn from_spec(v: BVec2) -> (bool, bool) {
        (v.x, v.y)
    }
}

impl From<BVec2> for (bool, bool) {
    fn from(v: BVec2) -> (bool, bool) {
        (v.x, v.y)
    }
}

impl vstd::std_specs::convert::FromSpecImpl<BVec2> for [bool; 2] {
    open spec fn obeys_from_spec() -> bool {
        true
    }

    open spec fn from_spec(v: BVec2) -> [bool; 2] {
        [v.x, v.y]
    }
}

impl From<BVec2> for [bool; 2] {
    fn from(v: BVec2) -> [bool; 2] {
        [v.x, v.y]
    }
}

} // verus!
