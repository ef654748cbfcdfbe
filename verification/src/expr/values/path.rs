//! A Nix path.

use vstd::prelude::*;

use super::NixValue;
use crate::expr::valuetype::NIX_TYPE_PATH;
use crate::errors::context::{spec_peak, ErrorContext};
use crate::util::wrappers::AsInnerPtr;

verus! {

/// A Nix path.
pub struct NixPath {
    inner: usize,
    state: usize,
    value: String,
}

impl NixPath {
    #[verifier::type_invariant]
    spec fn inv(self) -> bool {
        self.inner != 0 && self.state != 0
    }

    /// The address of the evaluation state that the value belongs to.
    pub closed spec fn spec_state(&self) -> usize {
        self.state
    }

    /// The content read from libnix.
    pub closed spec fn spec_value(&self) -> Seq<char> {
        self.value@
    }

    /// The value held at `inner`, of the evaluation state at `state`, whose content is `value`.
    pub fn from(inner: usize, state: usize, value: String) -> (v: Self)
        requires
            inner != 0,
            state != 0,
        ensures
            v.spec_ptr() == inner,
            v.spec_state() == state,
            v.spec_value() == value@,
    {
        NixPath { inner, state, value }
    }

    /// The address of the value, which is never null.
    pub(crate) fn ptr(&self) -> (p: usize)
        ensures
            p == self.spec_ptr(),
            p != 0,
    {
        proof {
            use_type_invariant(self);
        }
        self.inner
    }

    /// The address of the evaluation state that the value belongs to.
    pub fn state(&self) -> (s: usize)
        ensures
            s == self.spec_state(),
            s != 0,
    {
        proof {
            use_type_invariant(self);
        }
        self.state
    }

    /// Returns a shared reference to the underlying path.
    pub fn value(&self) -> (r: &String)
        ensures
            r@ == self.spec_value(),
    {
        &self.value
    }

    /// The underlying path.
    pub fn as_path(&self) -> (r: String)
        ensures
            r@ == self.spec_value(),
    {
        self.value.clone()
    }

    /// The text that displays the value: the path itself.
    pub fn to_string(&self) -> (s: String)
        ensures
            s@ == self.spec_value(),
    {
        self.value.clone()
    }

    /// The text that shows the value for debugging: `NixPath("..")`.
    pub fn to_debug_string(&self) -> (s: String)
        ensures
            s@ == "NixPath(\""@ + self.spec_value() + "\")"@,
    {
        let mut s = String::from_str("NixPath(\"");
        s.append(self.value.as_str());
        s.append("\")");
        s
    }
    /// Another handle on the same value: `incref` calls `nix_value_incref`
    /// with the value, which must not fail (libnix then keeps the value
    /// alive until both handles are released).
    pub fn clone<F>(&self, incref: F) -> (c: Self) where F: FnOnce(usize) -> ErrorContext
        requires
            incref.requires((self.spec_ptr(),)),
            forall|ctx: ErrorContext| #[trigger]
                incref.ensures((self.spec_ptr(),), ctx) ==> spec_peak(ctx@) is Ok,
        ensures
            exists|ctx: ErrorContext| #[trigger] incref.ensures((self.spec_ptr(),), ctx),
            c.spec_ptr() == self.spec_ptr(),
            c.spec_state() == self.spec_state(),
            c.spec_value() == self.spec_value(),
    {
        proof {
            use_type_invariant(self);
        }
        let ctx = incref(self.inner);
        assert(spec_peak(ctx@) is Ok);
        NixPath { inner: self.inner, state: self.state, value: self.value.clone() }
    }
}

impl AsInnerPtr for NixPath {
    closed spec fn spec_ptr(&self) -> usize {
        self.inner
    }

    fn as_ptr(&self) -> (p: usize) {
        self.inner
    }
}

impl NixValue for NixPath {
    open spec fn spec_type_id(&self) -> i32 {
        NIX_TYPE_PATH
    }

    fn type_id(&self) -> (t: i32) {
        NIX_TYPE_PATH
    }
}

} // verus!
