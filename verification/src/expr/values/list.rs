//! A Nix list.

use vstd::prelude::*;

use super::NixValue;
use crate::expr::valuetype::NIX_TYPE_LIST;
use crate::errors::context::{spec_peak, ErrorContext};
use crate::util::wrappers::AsInnerPtr;
use super::{NixThunk, Value};

verus! {

/// A Nix list.
pub struct NixList {
    inner: usize,
    state: usize,
    len: u32,
}

impl NixList {
    #[verifier::type_invariant]
    spec fn inv(self) -> bool {
        self.inner != 0 && self.state != 0
    }

    /// The address of the evaluation state that the value belongs to.
    pub closed spec fn spec_state(&self) -> usize {
        self.state
    }

    /// The content read from libnix.
    pub closed spec fn spec_len(&self) -> u32 {
        self.len
    }

    /// The value held at `inner`, of the evaluation state at `state`, whose content is `len`.
    pub fn from(inner: usize, state: usize, len: u32) -> (v: Self)
        requires
            inner != 0,
            state != 0,
        ensures
            v.spec_ptr() == inner,
            v.spec_state() == state,
            v.spec_len() == len,
    {
        NixList { inner, state, len }
    }

    /// The address of the value, which is never null.
    pub(crate) fn ptr(&self) -> (p: usize)
        ensures
            p == self.spec_ptr(),
            p != 0,
    {
        proof {
            use_type_invariant(self);
        }
        self.inner
    }

    /// The address of the evaluation state that the value belongs to.
    pub fn state(&self) -> (s: usize)
        ensures
            s == self.spec_state(),
            s != 0,
    {
        proof {
            use_type_invariant(self);
        }
        self.state
    }

    /// The text that displays the value: `[ <list> ]`.
    pub fn to_string(&self) -> (s: String)
        ensures
            s@ == "[ <list> ]"@,
    {
        String::from_str("[ <list> ]")
    }

    /// The text that shows the value for debugging: `[ <list> ]`.
    pub fn to_debug_string(&self) -> (s: String)
        ensures
            s@ == "[ <list> ]"@,
    {
        String::from_str("[ <list> ]")
    }

    /// The number of elements; reading it does not evaluate them.
    pub fn len(&self) -> (n: u32)
        ensures
            n == self.spec_len(),
    {
        self.len
    }

    /// Element `index`, forced: what `fetch` reads from libnix with the
    /// evaluation state, the list and the index.
    pub fn get<F>(&self, index: u32, fetch: F) -> (v: Value) where F: FnOnce(usize, usize, u32) -> Value
        requires
            index < self.spec_len(),
            fetch.requires((self.spec_state(), self.spec_ptr(), index)),
        ensures
            fetch.ensures((self.spec_state(), self.spec_ptr(), index), v),
    {
        let st = self.state();
        let ptr = self.as_ptr();
        fetch(st, ptr, index)
    }

    /// Element `index`, unforced.
    pub fn get_lazy<F>(&self, index: u32, fetch: F) -> (v: NixThunk) where
        F: FnOnce(usize, usize, u32) -> NixThunk,

        requires
            index < self.spec_len(),
            fetch.requires((self.spec_state(), self.spec_ptr(), index)),
        ensures
            fetch.ensures((self.spec_state(), self.spec_ptr(), index), v),
    {
        let st = self.state();
        let ptr = self.as_ptr();
        fetch(st, ptr, index)
    }

    /// All elements in order, each forced.
    pub fn as_vec<F>(&self, fetch: F) -> (r: Vec<Value>) where F: Fn(usize, usize, u32) -> Value
        requires
            forall|i: u32| i < self.spec_len() ==> #[trigger] fetch.requires(
                (self.spec_state(), self.spec_ptr(), i),
            ),
        ensures
            r@.len() == self.spec_len(),
            forall|i: int|
                0 <= i < r@.len() ==> fetch.ensures(
                    (self.spec_state(), self.spec_ptr(), i as u32),
                    #[trigger] r@[i],
                ),
    {
        let mut value: Vec<Value> = Vec::new();
        let mut i: u32 = 0;
        while i < self.len
            invariant
                i <= self.spec_len(),
                value@.len() == i,
                forall|k: u32| k < self.spec_len() ==> #[trigger] fetch.requires(
                    (self.spec_state(), self.spec_ptr(), k),
                ),
                forall|k: int|
                    0 <= k < value@.len() ==> fetch.ensures(
                        (self.spec_state(), self.spec_ptr(), k as u32),
                        #[trigger] value@[k],
                    ),
            decreases self.spec_len() - i,
        {
            let v = self.get(i, &fetch);
            value.push(v);
            i = i + 1;
        }
        value
    }

    /// All elements in order, unforced.
    pub fn as_vec_lazy<F>(&self, fetch: F) -> (r: Vec<NixThunk>) where
        F: Fn(usize, usize, u32) -> NixThunk,

        requires
            forall|i: u32| i < self.spec_len() ==> #[trigger] fetch.requires(
                (self.spec_state(), self.spec_ptr(), i),
            ),
        ensures
            r@.len() == self.spec_len(),
            forall|i: int|
                0 <= i < r@.len() ==> fetch.ensures(
                    (self.spec_state(), self.spec_ptr(), i as u32),
                    #[trigger] r@[i],
                ),
    {
        let mut value: Vec<NixThunk> = Vec::new();
        let mut i: u32 = 0;
        while i < self.len
            invariant
                i <= self.spec_len(),
                value@.len() == i,
                forall|k: u32| k < self.spec_len() ==> #[trigger] fetch.requires(
                    (self.spec_state(), self.spec_ptr(), k),
                ),
                forall|k: int|
                    0 <= k < value@.len() ==> fetch.ensures(
                        (self.spec_state(), self.spec_ptr(), k as u32),
                        #[trigger] value@[k],
                    ),
            decreases self.spec_len() - i,
        {
            let v = self.get_lazy(i, &fetch);
            value.push(v);
            i = i + 1;
        }
        value
    }
    /// Another handle on the same value: `incref` calls `nix_value_incref`
    /// with the value, which must not fail (libnix then keeps the value
    /// alive until both handles are released).
    pub fn clone<F>(&self, incref: F) -> (c: Self) where F: FnOnce(usize) -> ErrorContext
        requires
            incref.requires((self.spec_ptr(),)),
            forall|ctx: ErrorContext| #[trigger]
                incref.ensures((self.spec_ptr(),), ctx) ==> spec_peak(ctx@) is Ok,
        ensures
            exists|ctx: ErrorContext| #[trigger] incref.ensures((self.spec_ptr(),), ctx),
            c.spec_ptr() == self.spec_ptr(),
            c.spec_state() == self.spec_state(),
            c.spec_len() == self.spec_len(),
    {
        proof {
            use_type_invariant(self);
        }
        let ctx = incref(self.inner);
        assert(spec_peak(ctx@) is Ok);
        NixList { inner: self.inner, state: self.state, len: self.len }
    }
}

impl AsInnerPtr for NixList {
    closed spec fn spec_ptr(&self) -> usize {
        self.inner
    }

    fn as_ptr(&self) -> (p: usize) {
        self.inner
    }
}

impl NixValue for NixList {
    open spec fn spec_type_id(&self) -> i32 {
        NIX_TYPE_LIST
    }

    fn type_id(&self) -> (t: i32) {
        NIX_TYPE_LIST
    }
}

} // verus!
