//! The Nix `null`.

use vstd::prelude::*;

use super::NixValue;
use crate::expr::valuetype::NIX_TYPE_NULL;
use crate::errors::context::{spec_peak, ErrorContext};
use crate::util::wrappers::AsInnerPtr;

verus! {

/// The Nix `null`.
pub struct NixNull {
    inner: usize,
    state: usize,
}

impl NixNull {
    #[verifier::type_invariant]
    spec fn inv(self) -> bool {
        self.inner != 0 && self.state != 0
    }

    /// The address of the evaluation state that the value belongs to.
    pub closed spec fn spec_state(&self) -> usize {
        self.state
    }

    /// The value held at `inner`, of the evaluation state at `state`.
    pub fn from(inner: usize, state: usize) -> (v: Self)
        requires
            inner != 0,
            state != 0,
        ensures
            v.spec_ptr() == inner,
            v.spec_state() == state,
    {
        NixNull { inner, state }
    }

    /// The address of the value, which is never null.
    pub(crate) fn ptr(&self) -> (p: usize)
        ensures
            p == self.spec_ptr(),
            p != 0,
    {
        proof {
            use_type_invariant(self);
        }
        self.inner
    }

    /// The address of the evaluation state that the value belongs to.
    pub fn state(&self) -> (s: usize)
        ensures
            s == self.spec_state(),
            s != 0,
    {
        proof {
            use_type_invariant(self);
        }
        self.state
    }

    /// The text that displays the value: `null`.
    pub fn to_string(&self) -> (s: String)
        ensures
            s@ == "null"@,
    {
        String::from_str("null")
    }

    /// The text that shows the value for debugging: `NixNull`.
    pub fn to_debug_string(&self) -> (s: String)
        ensures
            s@ == "NixNull"@,
    {
        String::from_str("NixNull")
    }
    /// Another handle on the same value: `incref` calls `nix_value_incref`
    /// with the value, which must not fail (libnix then keeps the value
    /// alive until both handles are released).
    pub fn clone<F>(&self, incref: F) -> (c: Self) where F: FnOnce(usize) -> ErrorContext
        requires
            incref.requires((self.spec_ptr(),)),
            forall|ctx: ErrorContext| #[trigger]
                incref.ensures((self.spec_ptr(),), ctx) ==> spec_peak(ctx@) is Ok,
        ensures
            exists|ctx: ErrorContext| #[trigger] incref.ensures((self.spec_ptr(),), ctx),
            c.spec_ptr() == self.spec_ptr(),
            c.spec_state() == self.spec_state(),
    {
        proof {
            use_type_invariant(self);
        }
        let ctx = incref(self.inner);
        assert(spec_peak(ctx@) is Ok);
        NixNull { inner: self.inner, state: self.state }
    }
}

impl AsInnerPtr for NixNull {
    closed spec fn spec_ptr(&self) -> usize {
        self.inner
    }

    fn as_ptr(&self) -> (p: usize) {
        self.inner
    }
}

impl NixValue for NixNull {
    open spec fn spec_type_id(&self) -> i32 {
        NIX_TYPE_NULL
    }

    fn type_id(&self) -> (t: i32) {
        NIX_TYPE_NULL
    }
}

} // verus!
