//! A Nix string.

use vstd::prelude::*;

use super::NixValue;
use crate::expr::valuetype::NIX_TYPE_STRING;
use crate::stdext::cchar_ptr_ext::contains_char;
use crate::util::wrappers::AsInnerPtr;

verus! {

/// How a string is shown for debugging: quoted, unless it holds a double
/// quote itself, in which case it stands bare.
pub open spec fn spec_string_debug(s: Seq<char>) -> Seq<char> {
    if s.contains('"') {
        "NixString("@ + s + ")"@
    } else {
        "NixString(\""@ + s + "\")"@
    }
}

/// A Nix string.
pub struct NixString {
    inner: usize,
    state: usize,
    value: String,
}

impl NixString {
    #[verifier::type_invariant]
    spec fn inv(self) -> bool {
        self.inner != 0 && self.state != 0
    }

    /// The address of the evaluation state that the value belongs to.
    pub closed spec fn spec_state(&self) -> usize {
        self.state
    }

    /// The content read from libnix.
    pub closed spec fn spec_value(&self) -> Seq<char> {
        self.value@
    }

    /// The value held at `inner`, of the evaluation state at `state`, whose content is `value`.
    pub fn from(inner: usize, state: usize, value: String) -> (v: Self)
        requires
            inner != 0,
            state != 0,
        ensures
            v.spec_ptr() == inner,
            v.spec_state() == state,
            v.spec_value() == value@,
    {
        NixString { inner, state, value }
    }

    /// The address of the value, which is never null.
    pub(crate) fn ptr(&self) -> (p: usize)
        ensures
            p == self.spec_ptr(),
            p != 0,
    {
        proof {
            use_type_invariant(self);
        }
        self.inner
    }

    /// The address of the evaluation state that the value belongs to.
    pub fn state(&self) -> (s: usize)
        ensures
            s == self.spec_state(),
            s != 0,
    {
        proof {
            use_type_invariant(self);
        }
        self.state
    }

    /// Returns a shared reference to the underlying value.
    pub fn value(&self) -> (r: &String)
        ensures
            r@ == self.spec_value(),
    {
        &self.value
    }

    /// The underlying value.
    pub fn as_string(&self) -> (r: String)
        ensures
            r@ == self.spec_value(),
    {
        self.value.clone()
    }

    /// The text that displays the value: the string itself.
    pub fn to_string(&self) -> (s: String)
        ensures
            s@ == self.spec_value(),
    {
        self.value.clone()
    }

    /// The text that shows the value for debugging: `NixString("..")`
    /// with the string between double quotes, or `NixString(..)` with the
    /// string bare when it holds a double quote itself (so `hello world`
    /// shows as `NixString("hello world")` and `say "hello"` as
    /// `NixString(say "hello")`).
    pub fn to_debug_string(&self) -> (s: String)
        ensures
            s@ == spec_string_debug(self.spec_value()),
    {
        if contains_char(self.value.as_str(), '"') {
            let mut s = String::from_str("NixString(");
            s.append(self.value.as_str());
            s.append(")");
            s
        } else {
            let mut s = String::from_str("NixString(\"");
            s.append(self.value.as_str());
            s.append("\")");
            s
        }
    }
}

impl AsInnerPtr for NixString {
    closed spec fn spec_ptr(&self) -> usize {
        self.inner
    }

    fn as_ptr(&self) -> (p: usize) {
        self.inner
    }
}

impl NixValue for NixString {
    open spec fn spec_type_id(&self) -> i32 {
        NIX_TYPE_STRING
    }

    fn type_id(&self) -> (t: i32) {
        NIX_TYPE_STRING
    }
}

} // verus!
