//! A Nix function.

use vstd::prelude::*;

use super::NixValue;
use crate::expr::valuetype::NIX_TYPE_FUNCTION;
use crate::util::wrappers::AsInnerPtr;
use super::Value;
use crate::stdext::slice::{spec_c_array, SliceExt};

verus! {

/// A Nix function.
pub struct NixFunction {
    inner: usize,
    state: usize,
}

impl NixFunction {
    #[verifier::type_invariant]
    spec fn inv(self) -> bool {
        self.inner != 0 && self.state != 0
    }

    /// The address of the evaluation state that the value belongs to.
    pub closed spec fn spec_state(&self) -> usize {
        self.state
    }

    /// The value held at `inner`, of the evaluation state at `state`.
    pub fn from(inner: usize, state: usize) -> (v: Self)
        requires
            inner != 0,
            state != 0,
        ensures
            v.spec_ptr() == inner,
            v.spec_state() == state,
    {
        NixFunction { inner, state }
    }

    /// The address of the value, which is never null.
    pub(crate) fn ptr(&self) -> (p: usize)
        ensures
            p == self.spec_ptr(),
            p != 0,
    {
        proof {
            use_type_invariant(self);
        }
        self.inner
    }

    /// The address of the evaluation state that the value belongs to.
    pub fn state(&self) -> (s: usize)
        ensures
            s == self.spec_state(),
            s != 0,
    {
        proof {
            use_type_invariant(self);
        }
        self.state
    }

    /// The text that displays the value: `<function>`.
    pub fn to_string(&self) -> (s: String)
        ensures
            s@ == "<function>"@,
    {
        String::from_str("<function>")
    }

    /// The text that shows the value for debugging: `NixFunction`.
    pub fn to_debug_string(&self) -> (s: String)
        ensures
            s@ == "NixFunction"@,
    {
        String::from_str("NixFunction")
    }

    /// Applies the function to `arg`: `apply` makes the call with the
    /// evaluation state, the function and the argument (by their
    /// addresses) and reads the result, which is returned.
    pub fn call<T: NixValue, F>(&self, arg: &T, apply: F) -> (v: Value) where
        F: FnOnce(usize, usize, usize) -> Value,

        requires
            apply.requires((self.spec_state(), self.spec_ptr(), arg.spec_ptr())),
        ensures
            apply.ensures((self.spec_state(), self.spec_ptr(), arg.spec_ptr()), v),
    {
        let arg_ptr = arg.as_ptr();
        let st = self.state();
        let ptr = self.as_ptr();
        apply(st, ptr, arg_ptr)
    }

    /// Applies the function to several arguments in turn: `apply` makes
    /// the call with the evaluation state, the function, the number of
    /// arguments and their null-terminated array of addresses, and reads
    /// the result, which is returned.
    pub fn call_many<T: NixValue, F>(&self, args: &[&T], apply: F) -> (v: Value) where
        F: FnOnce(usize, usize, usize, Vec<usize>) -> Value,

        requires
            forall|a: Vec<usize>|
                a@ == spec_c_array(args@) ==> #[trigger] apply.requires(
                    (self.spec_state(), self.spec_ptr(), args@.len() as usize, a),
                ),
        ensures
            exists|a: Vec<usize>|
                a@ == spec_c_array(args@) && #[trigger] apply.ensures(
                    (self.spec_state(), self.spec_ptr(), args@.len() as usize, a),
                    v,
                ),
    {
        let array = args.into_c_array();
        let st = self.state();
        let ptr = self.as_ptr();
        let n = args.len();
        assert(n == args@.len() as usize);
        apply(st, ptr, n, array)
    }
}

impl AsInnerPtr for NixFunction {
    closed spec fn spec_ptr(&self) -> usize {
        self.inner
    }

    fn as_ptr(&self) -> (p: usize) {
        self.inner
    }
}

impl NixValue for NixFunction {
    open spec fn spec_type_id(&self) -> i32 {
        NIX_TYPE_FUNCTION
    }

    fn type_id(&self) -> (t: i32) {
        NIX_TYPE_FUNCTION
    }
}

} // verus!
