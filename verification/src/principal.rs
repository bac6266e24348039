//! Caller and asset identities.

use vstd::prelude::*;

verus! {

/// An opaque, equality-comparable identifier for a caller or an asset,
/// resolved by the host environment before each invocation.
///
/// One distinguished sentinel value (the "empty" principal) is reserved:
/// it can never be a meaningful asset key or owner. A principal's view is
/// its raw identifier; the sentinel is the principal whose view is zero.
#[derive(Clone, Copy, PartialEq, Eq, Structural, Debug)]
pub struct Principal {
    id: u128,
}

impl View for Principal {
    type V = u128;

    closed spec fn view(&self) -> u128 {
        self.id
    }
}

impl Principal {
    /// The principal with the given raw identifier.
    pub fn new(id: u128) -> (p: Principal)
        ensures
            p@ == id,
    {
        Principal { id }
    }

    /// The reserved sentinel ("empty") principal.
    pub fn sentinel() -> (p: Principal)
        ensures
            p@ == 0,
    {
        Principal { id: 0 }
    }

    /// The raw identifier, for keying the store's mappings.
    pub(crate) fn raw(&self) -> (id: u128)
        ensures
            id == self@,
    {
        self.id
    }

    /// Whether this principal is the reserved sentinel value.
    pub fn is_sentinel(&self) -> (b: bool)
        ensures
            b == (self@ == 0),
    {
        self.id == 0
    }
}

} // verus!
