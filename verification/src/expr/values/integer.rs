//! A Nix integer.

use vstd::prelude::*;

use super::NixValue;
use crate::expr::valuetype::NIX_TYPE_INT;
use crate::util::wrappers::AsInnerPtr;
use crate::util::text::{decimal, int_to_string};

verus! {

/// A Nix integer.
pub struct NixInt {
    inner: usize,
    state: usize,
    value: i64,
}

impl NixInt {
    #[verifier::type_invariant]
    spec fn inv(self) -> bool {
        self.inner != 0 && self.state != 0
    }

    /// The address of the evaluation state that the value belongs to.
    pub closed spec fn spec_state(&self) -> usize {
        self.state
    }

    /// The content read from libnix.
    pub closed spec fn spec_value(&self) -> i64 {
        self.value
    }

    /// The value held at `inner`, of the evaluation state at `state`, whose content is `value`.
    pub fn from(inner: usize, state: usize, value: i64) -> (v: Self)
        requires
            inner != 0,
            state != 0,
        ensures
            v.spec_ptr() == inner,
            v.spec_state() == state,
            v.spec_value() == value,
    {
        NixInt { inner, state, value }
    }

    /// The address of the value, which is never null.
    pub(crate) fn ptr(&self) -> (p: usize)
        ensures
            p == self.spec_ptr(),
            p != 0,
    {
        proof {
            use_type_invariant(self);
        }
        self.inner
    }

    /// The address of the evaluation state that the value belongs to.
    pub fn state(&self) -> (s: usize)
        ensures
            s == self.spec_state(),
            s != 0,
    {
        proof {
            use_type_invariant(self);
        }
        self.state
    }

    /// Returns a shared reference to the underlying value.
    pub fn value(&self) -> (r: &i64)
        ensures
            *r == self.spec_value(),
    {
        &self.value
    }

    /// The underlying value.
    pub fn as_int(&self) -> (r: i64)
        ensures
            r == self.spec_value(),
    {
        self.value
    }

    /// The text that displays the value: its decimal form.
    pub fn to_string(&self) -> (s: String)
        ensures
            s@ == decimal(self.spec_value() as int),
    {
        int_to_string(self.value)
    }

    /// The text that shows the value for debugging: `NixInt(..)`.
    pub fn to_debug_string(&self) -> (s: String)
        ensures
            s@ == "NixInt("@ + decimal(self.spec_value() as int) + ")"@,
    {
        let mut s = String::from_str("NixInt(");
        let digits = int_to_string(self.value);
        s.append(digits.as_str());
        s.append(")");
        s
    }
}

impl AsInnerPtr for NixInt {
    closed spec fn spec_ptr(&self) -> usize {
        self.inner
    }

    fn as_ptr(&self) -> (p: usize) {
        self.inner
    }
}

impl NixValue for NixInt {
    open spec fn spec_type_id(&self) -> i32 {
        NIX_TYPE_INT
    }

    fn type_id(&self) -> (t: i32) {
        NIX_TYPE_INT
    }
}

} // verus!
