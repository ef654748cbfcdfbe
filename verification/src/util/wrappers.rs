//! Access to the libnix object behind a wrapper.

use vstd::prelude::*;

verus! {

/// A wrapper of a libnix object, held by its (non-null) address.
pub trait AsInnerPtr {
    /// The address of the libnix object.
    spec fn spec_ptr(&self) -> usize;

    /// Returns the address of the libnix object.
    fn as_ptr(&self) -> (p: usize)
        ensures
            p == self.spec_ptr(),
    ;
}

} // verus!
