//! The order of versions.

use crate::external_tools::version::Version;
use std::cmp::Ordering;
use vstd::prelude::*;
use vstd::std_specs::cmp::PartialOrdSpecImpl;

verus! {

/// The order of two numbers.
pub open spec fn number_order(a: u8, b: u8) -> Ordering {
    if a < b {
        Ordering::Less
    } else if a == b {
        Ordering::Equal
    } else {
        Ordering::Greater
    }
}

/// The order of two optional components: an absent one comes before every present
/// one, and present ones are ordered as numbers.
pub open spec fn component_order(a: Option<u8>, b: Option<u8>) -> Ordering {
    match (a, b) {
        (None, None) => Ordering::Equal,
        (None, Some(_)) => Ordering::Less,
        (Some(_), None) => Ordering::Greater,
        (Some(x), Some(y)) => number_order(x, y),
    }
}

/// The order of two versions: that of the first component in which they differ,
/// from major to patch.
pub open spec fn version_order(a: Version, b: Version) -> Ordering {
    if a.major != b.major {
        number_order(a.major, b.major)
    } else if a.minor != b.minor {
        component_order(a.minor, b.minor)
    } else {
        component_order(a.patch, b.patch)
    }
}

fn order_numbers(a: u8, b: u8) -> (order: Ordering)
    ensures
        order == number_order(a, b),
{
    if a < b {
        Ordering::Less
    } else if a == b {
        Ordering::Equal
    } else {
        Ordering::Greater
    }
}

fn order_components(a: Option<u8>, b: Option<u8>) -> (order: Ordering)
    ensures
        order == component_order(a, b),
{
    match (a, b) {
        (None, None) => Ordering::Equal,
        (None, Some(_)) => Ordering::Less,
        (Some(_), None) => Ordering::Greater,
        (Some(x), Some(y)) => order_numbers(x, y),
    }
}

impl PartialOrd for Version {
    fn partial_cmp(&self, other: &Version) -> (order: Option<Ordering>) {
        if self.major != other.major {
            Some(order_numbers(self.major, other.major))
        } else if self.minor != other.minor {
            Some(order_components(self.minor, other.minor))
        } else {
            Some(order_components(self.patch, other.patch))
        }
    }
}

impl PartialOrdSpecImpl for Version {
    open spec fn obeys_partial_cmp_spec() -> bool {
        true
    }

    open spec fn partial_cmp_spec(&self, other: &Version) -> Option<Ordering> {
        Some(version_order(*self, *other))
    }
}

/// Two versions are ordered as equal only where they are equal, and the order of
/// two versions the other way round is the reverse.
pub proof fn lemma_order_is_strict(a: Version, b: Version)
    ensures
        version_order(a, b) == Ordering::Equal <==> a == b,
        version_order(a, b) == Ordering::Less <==> version_order(b, a) == Ordering::Greater,
{
}

/// What comes before something that comes before a third comes before the third.
pub proof fn lemma_order_is_transitive(a: Version, b: Version, c: Version)
    requires
        version_order(a, b) == Ordering::Less,
        version_order(b, c) == Ordering::Less,
    ensures
        version_order(a, c) == Ordering::Less,
{
}

} // verus!
