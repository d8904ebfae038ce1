//! A 16-bit unsigned integer whose addition saturates at `u16::MAX`.

use vstd::prelude::*;

verus! {

/// A `u16` with saturating addition, comparable with plain `u16` values
/// and convertible from 8- and 16-bit unsigned integers.
#[derive(Clone, Copy, Debug)]
pub struct SaturatingU16 {
    value: u16,
}

/// The sum of two values, stopped at the ceiling.
pub open spec fn saturated_sum(a: u16, b: u16) -> u16 {
    if a + b > u16::MAX {
        u16::MAX
    } else {
        (a + b) as u16
    }
}

impl View for SaturatingU16 {
    type V = u16;

    closed spec fn view(&self) -> u16 {
        self.value
    }
}

impl SaturatingU16 {
    /// The wrapped value.
    pub fn get(&self) -> (r: u16)
        ensures
            r == self@,
    {
        self.value
    }
}

impl From<u8> for SaturatingU16 {
    fn from(i: u8) -> (r: SaturatingU16)
        ensures
            r@ == i,
    {
        SaturatingU16 { value: i as u16 }
    }
}

impl vstd::std_specs::convert::FromSpecImpl<u8> for SaturatingU16 {
    open spec fn obeys_from_spec() -> bool {
        true
    }

    closed spec fn from_spec(i: u8) -> SaturatingU16 {
        SaturatingU16 { value: i as u16 }
    }
}

impl From<u16> for SaturatingU16 {
    fn from(i: u16) -> (r: SaturatingU16)
        ensures
            r@ == i,
    {
        SaturatingU16 { value: i }
    }
}

impl vstd::std_specs::convert::FromSpecImpl<u16> for SaturatingU16 {
    open spec fn obeys_from_spec() -> bool {
        true
    }

    closed spec fn from_spec(i: u16) -> SaturatingU16 {
        SaturatingU16 { value: i }
    }
}

impl From<&u8> for SaturatingU16 {
    fn from(i: &u8) -> (r: SaturatingU16)
        ensures
            r@ == *i,
    {
        SaturatingU16 { value: *i as u16 }
    }
}

impl vstd::std_specs::convert::FromSpecImpl<&u8> for SaturatingU16 {
    open spec fn obeys_from_spec() -> bool {
        true
    }

    closed spec fn from_spec(i: &u8) -> SaturatingU16 {
        SaturatingU16 { value: *i as u16 }
    }
}

impl From<&u16> for SaturatingU16 {
    fn from(i: &u16) -> (r: SaturatingU16)
        ensures
            r@ == *i,
    {
        SaturatingU16 { value: *i }
    }
}

impl vstd::std_specs::convert::FromSpecImpl<&u16> for SaturatingU16 {
    open spec fn obeys_from_spec() -> bool {
        true
    }

    closed spec fn from_spec(i: &u16) -> SaturatingU16 {
        SaturatingU16 { value: *i }
    }
}

impl core::ops::Add<SaturatingU16> for SaturatingU16 {
    type Output = SaturatingU16;

    fn add(self, rhs: SaturatingU16) -> (r: SaturatingU16)
        ensures
            r@ == saturated_sum(self@, rhs@),
    {
        SaturatingU16 { value: self.value.saturating_add(rhs.value) }
    }
}

impl vstd::std_specs::ops::AddSpecImpl<SaturatingU16> for SaturatingU16 {
    open spec fn obeys_add_spec() -> bool {
        true
    }

    open spec fn add_req(self, rhs: SaturatingU16) -> bool {
        true
    }

    closed spec fn add_spec(self, rhs: SaturatingU16) -> SaturatingU16 {
        SaturatingU16 { value: saturated_sum(self.value, rhs.value) }
    }
}

impl core::ops::Add<u16> for SaturatingU16 {
    type Output = SaturatingU16;

    fn add(self, rhs: u16) -> (r: SaturatingU16)
        ensures
            r@ == saturated_sum(self@, rhs),
    {
        SaturatingU16 { value: self.value.saturating_add(rhs) }
    }
}

impl vstd::std_specs::ops::AddSpecImpl<u16> for SaturatingU16 {
    open spec fn obeys_add_spec() -> bool {
        true
    }

    open spec fn add_req(self, rhs: u16) -> bool {
        true
    }

    closed spec fn add_spec(self, rhs: u16) -> SaturatingU16 {
        SaturatingU16 { value: saturated_sum(self.value, rhs) }
    }
}

impl core::ops::Add<&u16> for SaturatingU16 {
    type Output = SaturatingU16;

    fn add(self, rhs: &u16) -> (r: SaturatingU16)
        ensures
            r@ == saturated_sum(self@, *rhs),
    {
        SaturatingU16 { value: self.value.saturating_add(*rhs) }
    }
}

impl vstd::std_specs::ops::AddSpecImpl<&u16> for SaturatingU16 {
    open spec fn obeys_add_spec() -> bool {
        true
    }

    open spec fn add_req(self, rhs: &u16) -> bool {
        true
    }

    closed spec fn add_spec(self, rhs: &u16) -> SaturatingU16 {
        SaturatingU16 { value: saturated_sum(self.value, *rhs) }
    }
}

impl core::ops::Add<&SaturatingU16> for SaturatingU16 {
    type Output = SaturatingU16;

    fn add(self, rhs: &SaturatingU16) -> (r: SaturatingU16)
        ensures
            r@ == saturated_sum(self@, rhs@),
    {
        SaturatingU16 { value: self.value.saturating_add(rhs.value) }
    }
}

impl vstd::std_specs::ops::AddSpecImpl<&SaturatingU16> for SaturatingU16 {
    open spec fn obeys_add_spec() -> bool {
        true
    }

    open spec fn add_req(self, rhs: &SaturatingU16) -> bool {
        true
    }

    closed spec fn add_spec(self, rhs: &SaturatingU16) -> SaturatingU16 {
        SaturatingU16 { value: saturated_sum(self.value, rhs.value) }
    }
}

impl PartialEq for SaturatingU16 {
    fn eq(&self, other: &SaturatingU16) -> (r: bool) {
        self.value == other.value
    }
}

impl vstd::std_specs::cmp::PartialEqSpecImpl for SaturatingU16 {
    open spec fn obeys_eq_spec() -> bool {
        true
    }

    open spec fn eq_spec(&self, other: &SaturatingU16) -> bool {
        self@ == other@
    }
}

impl PartialEq<u16> for SaturatingU16 {
    fn eq(&self, other: &u16) -> (r: bool) {
        self.value == *other
    }
}

impl vstd::std_specs::cmp::PartialEqSpecImpl<u16> for SaturatingU16 {
    open spec fn obeys_eq_spec() -> bool {
        true
    }

    open spec fn eq_spec(&self, other: &u16) -> bool {
        self@ == *other
    }
}

} // verus!
