//! Releases that do not reach a client because their press did not.

use std::collections::HashSet;

use vstd::prelude::*;

verus! {

broadcast use vstd::std_specs::hash::group_hash_axioms;

/// Keys or buttons whose release is to be swallowed.
#[derive(Debug)]
pub struct SuppressedCodes {
    codes: HashSet<u32>,
}

impl View for SuppressedCodes {
    type V = Set<u32>;

    closed spec fn view(&self) -> Set<u32> {
        self.codes@
    }
}

impl Default for SuppressedCodes {
    fn default() -> (r: Self)
        ensures
            r@ == Set::<u32>::empty(),
    {
        SuppressedCodes { codes: HashSet::new() }
    }
}

impl SuppressedCodes {
    /// Swallows the next release of `code`.
    pub fn suppress(&mut self, code: u32)
        ensures
            final(self)@ == old(self)@.insert(code),
    {
        self.codes.insert(code);
    }

    /// Whether the release of `code` is to be swallowed; it is swallowed once.
    pub fn release_is_suppressed(&mut self, code: u32) -> (suppressed: bool)
        ensures
            suppressed == old(self)@.contains(code),
            final(self)@ == old(self)@.remove(code),
    {
        self.codes.remove(&code)
    }
}

/// A release is swallowed exactly once per press that was, and no other code is
/// touched.
pub proof fn suppression_ends_with_the_release(codes: Set<u32>, code: u32, other: u32)
    requires
        other != code,
    ensures
        codes.insert(code).contains(code),
        !codes.insert(code).remove(code).contains(code),
        codes.insert(code).contains(other) == codes.contains(other),
        codes.insert(code).remove(code).contains(other) == codes.contains(other),
{
}

} // verus!
