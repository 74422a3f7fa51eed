//! Handles: small copyable names for objects that live in a pool.

use vstd::prelude::*;

verus! {

/// Names one slot of a pool, together with the generation of the slot's
/// content. Generation zero never names anything.
#[derive(Clone, Copy, Debug, PartialEq, Eq, Structural, Hash)]
pub struct Handle {
    pub index: u32,
    pub generation: u32,
}

impl Handle {
    /// The handle that names nothing.
    pub open spec fn none_spec() -> Handle {
        Handle { index: 0, generation: 0 }
    }

    /// The handle that names nothing.
    #[verifier::when_used_as_spec(none_spec)]
    pub fn none() -> (h: Handle)
        ensures
            h == Handle::none_spec(),
    {
        Handle { index: 0, generation: 0 }
    }

    pub fn new(index: u32, generation: u32) -> (h: Handle)
        ensures
            h == (Handle { index, generation }),
    {
        Handle { index, generation }
    }

    pub open spec fn is_none_spec(&self) -> bool {
        self.index == 0 && self.generation == 0
    }

    /// True exactly for [`Handle::none`].
    #[verifier::when_used_as_spec(is_none_spec)]
    pub fn is_none(&self) -> (b: bool)
        ensures
            b == self.is_none_spec(),
            b == (*self == Handle::none_spec()),
    {
        self.index == 0 && self.generation == 0
    }

    pub open spec fn is_some_spec(&self) -> bool {
        !self.is_none_spec()
    }

    /// True for every handle but [`Handle::none`].
    #[verifier::when_used_as_spec(is_some_spec)]
    pub fn is_some(&self) -> (b: bool)
        ensures
            b == self.is_some_spec(),
            b == (*self != Handle::none_spec()),
    {
        !self.is_none()
    }
}

impl Default for Handle {
    fn default() -> (h: Handle)
        ensures
            h == Handle::none_spec(),
    {
        Handle::none()
    }
}

} // verus!
