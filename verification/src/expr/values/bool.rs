//! A Nix boolean.

use vstd::prelude::*;

use super::NixValue;
use crate::expr::valuetype::NIX_TYPE_BOOL;
use crate::errors::context::{spec_peak, ErrorContext};
use crate::util::wrappers::AsInnerPtr;
use super::spec_bool_text;

verus! {

/// A Nix boolean.
pub struct NixBool {
    inner: usize,
    state: usize,
    value: bool,
}

impl NixBool {
    #[verifier::type_invariant]
    spec fn inv(self) -> bool {
        self.inner != 0 && self.state != 0
    }

    /// The address of the evaluation state that the value belongs to.
    pub closed spec fn spec_state(&self) -> usize {
        self.state
    }

    /// The content read from libnix.
    pub closed spec fn spec_value(&self) -> bool {
        self.value
    }

    /// The value held at `inner`, of the evaluation state at `state`, whose content is `value`.
    pub fn from(inner: usize, state: usize, value: bool) -> (v: Self)
        requires
            inner != 0,
            state != 0,
        ensures
            v.spec_ptr() == inner,
            v.spec_state() == state,
            v.spec_value() == value,
    {
        NixBool { inner, state, value }
    }

    /// The address of the value, which is never null.
    pub(crate) fn ptr(&self) -> (p: usize)
        ensures
            p == self.spec_ptr(),
            p != 0,
    {
        proof {
            use_type_invariant(self);
        }
        self.inner
    }

    /// The address of the evaluation state that the value belongs to.
    pub fn state(&self) -> (s: usize)
        ensures
            s == self.spec_state(),
            s != 0,
    {
        proof {
            use_type_invariant(self);
        }
        self.state
    }

    /// Returns a shared reference to the underlying value.
    pub fn value(&self) -> (r: &bool)
        ensures
            *r == self.spec_value(),
    {
        &self.value
    }

    /// The underlying value.
    pub fn as_bool(&self) -> (r: bool)
        ensures
            r == self.spec_value(),
    {
        self.value
    }

    /// The text that displays the value: `true` or `false`.
    pub fn to_string(&self) -> (s: String)
        ensures
            s@ == spec_bool_text(self.spec_value()),
    {
        if self.value {
            String::from_str("true")
        } else {
            String::from_str("false")
        }
    }

    /// The text that shows the value for debugging: `NixBool(..)`.
    pub fn to_debug_string(&self) -> (s: String)
        ensures
            s@ == "NixBool("@ + spec_bool_text(self.spec_value()) + ")"@,
    {
        let mut s = String::from_str("NixBool(");
        let text = self.to_string();
        s.append(text.as_str());
        s.append(")");
        s
    }
    /// Another handle on the same value: `incref` calls `nix_value_incref`
    /// with the value, which must not fail (libnix then keeps the value
    /// alive until both handles are released).
    pub fn clone<F>(&self, incref: F) -> (c: Self) where F: FnOnce(usize) -> ErrorContext
        requires
            incref.requires((self.spec_ptr(),)),
            forall|ctx: ErrorContext| #[trigger]
                incref.ensures((self.spec_ptr(),), ctx) ==> spec_peak(ctx@) is Ok,
        ensures
            exists|ctx: ErrorContext| #[trigger] incref.ensures((self.spec_ptr(),), ctx),
            c.spec_ptr() == self.spec_ptr(),
            c.spec_state() == self.spec_state(),
            c.spec_value() == self.spec_value(),
    {
        proof {
            use_type_invariant(self);
        }
        let ctx = incref(self.inner);
        assert(spec_peak(ctx@) is Ok);
        NixBool { inner: self.inner, state: self.state, value: self.value }
    }
}

impl AsInnerPtr for NixBool {
    closed spec fn spec_ptr(&self) -> usize {
        self.inner
    }

    fn as_ptr(&self) -> (p: usize) {
        self.inner
    }
}

impl NixValue for NixBool {
    open spec fn spec_type_id(&self) -> i32 {
        NIX_TYPE_BOOL
    }

    fn type_id(&self) -> (t: i32) {
        NIX_TYPE_BOOL
    }
}

} // verus!
