use vstd::prelude::*;
use vstd::std_specs::cmp::PartialEqSpec;
use vstd::std_specs::convert::FromSpec;
use vstd::std_specs::ops::AddSpec;

verus! {

/// A `u16` whose additions saturate at `u16::MAX` instead of wrapping.
#[derive(Debug, Clone, Copy)]
pub struct SaturatingU16 {
    value: u16,
}

impl View for SaturatingU16 {
    type V = u16;

    closed spec fn view(&self) -> u16 {
        self.value
    }
}

/// The sum of `a` and `b`, clamped to `u16::MAX`.
pub open spec fn saturating_sum(a: u16, b: u16) -> u16 {
    if a + b > u16::MAX {
        u16::MAX
    } else {
        (a + b) as u16
    }
}

impl From<u16> for SaturatingU16 {
    fn from(value: u16) -> (r: SaturatingU16)
        ensures
            r@ == value,
    {
        SaturatingU16 { value }
    }
}

impl vstd::std_specs::convert::FromSpecImpl<u16> for SaturatingU16 {
    open spec fn obeys_from_spec() -> bool {
        true
    }

    closed spec fn from_spec(v: u16) -> SaturatingU16 {
        SaturatingU16 { value: v }
    }
}

impl From<&u16> for SaturatingU16 {
    fn from(value: &u16) -> (r: SaturatingU16)
        ensures
            r@ == *value,
    {
        SaturatingU16 { value: *value }
    }
}

impl vstd::std_specs::convert::FromSpecImpl<&u16> for SaturatingU16 {
    open spec fn obeys_from_spec() -> bool {
        true
    }

    closed spec fn from_spec(v: &u16) -> SaturatingU16 {
        SaturatingU16 { value: *v }
    }
}

impl From<u8> for SaturatingU16 {
    fn from(value: u8) -> (r: SaturatingU16)
        ensures
            r@ == value as u16,
    {
        SaturatingU16 { value: value.into() }
    }
}

impl vstd::std_specs::convert::FromSpecImpl<u8> for SaturatingU16 {
    open spec fn obeys_from_spec() -> bool {
        true
    }

    closed spec fn from_spec(v: u8) -> SaturatingU16 {
        SaturatingU16 { value: v as u16 }
    }
}

impl From<&u8> for SaturatingU16 {
    fn from(value: &u8) -> (r: SaturatingU16)
        ensures
            r@ == *value as u16,
    {
        SaturatingU16 { value: (*value).into() }
    }
}

impl vstd::std_specs::convert::FromSpecImpl<&u8> for SaturatingU16 {
    open spec fn obeys_from_spec() -> bool {
        true
    }

    closed spec fn from_spec(v: &u8) -> SaturatingU16 {
        SaturatingU16 { value: *v as u16 }
    }
}

impl PartialEq for SaturatingU16 {
    fn eq(&self, other: &SaturatingU16) -> (r: bool)
        ensures
            r == (self@ == other@),
    {
        self.value == other.value
    }
}

impl vstd::std_specs::cmp::PartialEqSpecImpl for SaturatingU16 {
    open spec fn obeys_eq_spec() -> bool {
        true
    }

    open spec fn eq_spec(&self, other: &SaturatingU16) -> bool {
        self@ == other@
    }
}

impl PartialEq<u16> for SaturatingU16 {
    fn eq(&self, other: &u16) -> (r: bool)
        ensures
            r == (self@ == *other),
    {
        self.value == *other
    }
}

impl vstd::std_specs::cmp::PartialEqSpecImpl<u16> for SaturatingU16 {
    open spec fn obeys_eq_spec() -> bool {
        true
    }

    open spec fn eq_spec(&self, other: &u16) -> bool {
        self@ == *other
    }
}

impl PartialEq<SaturatingU16> for u16 {
    fn eq(&self, other: &SaturatingU16) -> (r: bool)
        ensures
            r == (*self == other@),
    {
        *self == other.value
    }
}

impl vstd::std_specs::cmp::PartialEqSpecImpl<SaturatingU16> for u16 {
    open spec fn obeys_eq_spec() -> bool {
        true
    }

    open spec fn eq_spec(&self, other: &SaturatingU16) -> bool {
        *self == other@
    }
}

impl std::ops::Add<SaturatingU16> for SaturatingU16 {
    type Output = u16;

    fn add(self, rhs: SaturatingU16) -> (r: u16)
        ensures
            r == saturating_sum(self@, rhs@),
    {
        self.value.saturating_add(rhs.value)
    }
}

impl vstd::std_specs::ops::AddSpecImpl<SaturatingU16> for SaturatingU16 {
    open spec fn obeys_add_spec() -> bool {
        true
    }

    open spec fn add_req(self, rhs: SaturatingU16) -> bool {
        true
    }

    open spec fn add_spec(self, rhs: SaturatingU16) -> u16 {
        saturating_sum(self@, rhs@)
    }
}

impl std::ops::Add<&SaturatingU16> for SaturatingU16 {
    type Output = u16;

    fn add(self, rhs: &SaturatingU16) -> (r: u16)
        ensures
            r == saturating_sum(self@, rhs@),
    {
        self.value.saturating_add(rhs.value)
    }
}

impl vstd::std_specs::ops::AddSpecImpl<&SaturatingU16> for SaturatingU16 {
    open spec fn obeys_add_spec() -> bool {
        true
    }

    open spec fn add_req(self, rhs: &SaturatingU16) -> bool {
        true
    }

    open spec fn add_spec(self, rhs: &SaturatingU16) -> u16 {
        saturating_sum(self@, rhs@)
    }
}

impl std::ops::Add<u16> for SaturatingU16 {
    type Output = u16;

    fn add(self, rhs: u16) -> (r: u16)
        ensures
            r == saturating_sum(self@, rhs),
    {
        self.value.saturating_add(rhs)
    }
}

impl vstd::std_specs::ops::AddSpecImpl<u16> for SaturatingU16 {
    open spec fn obeys_add_spec() -> bool {
        true
    }

    open spec fn add_req(self, rhs: u16) -> bool {
        true
    }

    open spec fn add_spec(self, rhs: u16) -> u16 {
        saturating_sum(self@, rhs)
    }
}

impl std::ops::Add<&u16> for SaturatingU16 {
    type Output = u16;

    fn add(self, rhs: &u16) -> (r: u16)
        ensures
            r == saturating_sum(self@, *rhs),
    {
        self.value.saturating_add(*rhs)
    }
}

impl vstd::std_specs::ops::AddSpecImpl<&u16> for SaturatingU16 {
    open spec fn obeys_add_spec() -> bool {
        true
    }

    open spec fn add_req(self, rhs: &u16) -> bool {
        true
    }

    open spec fn add_spec(self, rhs: &u16) -> u16 {
        saturating_sum(self@, *rhs)
    }
}

impl std::ops::Add<u8> for SaturatingU16 {
    type Output = u16;

    fn add(self, rhs: u8) -> (r: u16)
        ensures
            r == saturating_sum(self@, rhs as u16),
    {
        self.value.saturating_add(rhs as u16)
    }
}

impl vstd::std_specs::ops::AddSpecImpl<u8> for SaturatingU16 {
    open spec fn obeys_add_spec() -> bool {
        true
    }

    open spec fn add_req(self, rhs: u8) -> bool {
        true
    }

    open spec fn add_spec(self, rhs: u8) -> u16 {
        saturating_sum(self@, rhs as u16)
    }
}

impl std::ops::Add<&u8> for SaturatingU16 {
    type Output = u16;

    fn add(self, rhs: &u8) -> (r: u16)
        ensures
            r == saturating_sum(self@, *rhs as u16),
    {
        self.value.saturating_add(*rhs as u16)
    }
}

impl vstd::std_specs::ops::AddSpecImpl<&u8> for SaturatingU16 {
    open spec fn obeys_add_spec() -> bool {
        true
    }

    open spec fn add_req(self, rhs: &u8) -> bool {
        true
    }

    open spec fn add_spec(self, rhs: &u8) -> u16 {
        saturating_sum(self@, *rhs as u16)
    }
}

/// Wrapping any `a` and adding any `b` gives the mathematical sum `a + b`,
/// or `u16::MAX` where that sum does not fit in a `u16`.
pub proof fn law_add_is_min_of_sum_and_max(a: u16, b: u16)
    ensures
        <SaturatingU16 as FromSpec<u16>>::from_spec(a).add_spec(b) as int == (if a + b
            <= u16::MAX {
            a + b
        } else {
            u16::MAX as int
        }),
{
}

/// A wrapped value equals itself, equals the `u16` it was made from, and that
/// `u16` equals it.
pub proof fn law_eq_with_raw_value(a: u16)
    ensures
        <SaturatingU16 as FromSpec<u16>>::from_spec(a).eq_spec(
            &<SaturatingU16 as FromSpec<u16>>::from_spec(a),
        ),
        <SaturatingU16 as FromSpec<u16>>::from_spec(a).eq_spec(&a),
        a.eq_spec(&<SaturatingU16 as FromSpec<u16>>::from_spec(a)),
{
}

/// Wrapping a `u8` gives the same value as wrapping that byte widened to `u16`.
pub proof fn law_from_u8_widens(a: u8)
    ensures
        <SaturatingU16 as FromSpec<u8>>::from_spec(a) == <SaturatingU16 as FromSpec<u16>>::from_spec(
            a as u16,
        ),
        <SaturatingU16 as FromSpec<&u8>>::from_spec(&a) == <SaturatingU16 as FromSpec<
            &u16,
        >>::from_spec(&(a as u16)),
{
}

/// Wrapping a borrowed value gives the same result as wrapping the value itself.
pub proof fn law_borrowed_from_is_owned_from(a: u16, b: u8)
    ensures
        <SaturatingU16 as FromSpec<&u16>>::from_spec(&a) == <SaturatingU16 as FromSpec<
            u16,
        >>::from_spec(a),
        <SaturatingU16 as FromSpec<&u8>>::from_spec(&b) == <SaturatingU16 as FromSpec<
            u8,
        >>::from_spec(b),
{
}

} // verus!
