//! An unevaluated Nix expression.

use vstd::prelude::*;

use super::NixValue;
use crate::expr::valuetype::NIX_TYPE_THUNK;
use crate::errors::context::{spec_peak, ErrorContext};
use crate::util::wrappers::AsInnerPtr;
use super::Value;

verus! {

/// An unevaluated Nix expression.
pub struct NixThunk {
    inner: usize,
    state: usize,
}

impl NixThunk {
    #[verifier::type_invariant]
    spec fn inv(self) -> bool {
        self.inner != 0 && self.state != 0
    }

    /// The address of the evaluation state that the value belongs to.
    pub closed spec fn spec_state(&self) -> usize {
        self.state
    }

    /// The value held at `inner`, of the evaluation state at `state`.
    pub fn from(inner: usize, state: usize) -> (v: Self)
        requires
            inner != 0,
            state != 0,
        ensures
            v.spec_ptr() == inner,
            v.spec_state() == state,
    {
        NixThunk { inner, state }
    }

    /// The address of the value, which is never null.
    pub(crate) fn ptr(&self) -> (p: usize)
        ensures
            p == self.spec_ptr(),
            p != 0,
    {
        proof {
            use_type_invariant(self);
        }
        self.inner
    }

    /// The address of the evaluation state that the value belongs to.
    pub fn state(&self) -> (s: usize)
        ensures
            s == self.spec_state(),
            s != 0,
    {
        proof {
            use_type_invariant(self);
        }
        self.state
    }

    /// The text that displays the value: `<thunk>`.
    pub fn to_string(&self) -> (s: String)
        ensures
            s@ == "<thunk>"@,
    {
        String::from_str("<thunk>")
    }

    /// The text that shows the value for debugging: `NixThunk`.
    pub fn to_debug_string(&self) -> (s: String)
        ensures
            s@ == "NixThunk"@,
    {
        String::from_str("NixThunk")
    }

    /// Forces the thunk and reads the value it evaluates to: `evaluate`
    /// does that with the evaluation state and the thunk (by their
    /// addresses); its value is returned.
    pub fn eval<F>(self, evaluate: F) -> (v: Value) where F: FnOnce(usize, usize) -> Value
        requires
            evaluate.requires((self.spec_state(), self.spec_ptr())),
        ensures
            evaluate.ensures((self.spec_state(), self.spec_ptr()), v),
    {
        let st = self.state();
        let ptr = self.as_ptr();
        evaluate(st, ptr)
    }
    /// Another handle on the same value: `incref` calls `nix_value_incref`
    /// with the value, which must not fail (libnix then keeps the value
    /// alive until both handles are released).
    pub fn clone<F>(&self, incref: F) -> (c: Self) where F: FnOnce(usize) -> ErrorContext
        requires
            incref.requires((self.spec_ptr(),)),
            forall|ctx: ErrorContext| #[trigger]
                incref.ensures((self.spec_ptr(),), ctx) ==> spec_peak(ctx@) is Ok,
        ensures
            exists|ctx: ErrorContext| #[trigger] incref.ensures((self.spec_ptr(),), ctx),
            c.spec_ptr() == self.spec_ptr(),
            c.spec_state() == self.spec_state(),
    {
        proof {
            use_type_invariant(self);
        }
        let ctx = incref(self.inner);
        assert(spec_peak(ctx@) is Ok);
        NixThunk { inner: self.inner, state: self.state }
    }
}

impl AsInnerPtr for NixThunk {
    closed spec fn spec_ptr(&self) -> usize {
        self.inner
    }

    fn as_ptr(&self) -> (p: usize) {
        self.inner
    }
}

impl NixValue for NixThunk {
    open spec fn spec_type_id(&self) -> i32 {
        NIX_TYPE_THUNK
    }

    fn type_id(&self) -> (t: i32) {
        NIX_TYPE_THUNK
    }
}

} // verus!
