//! A Nix attribute set.

use vstd::prelude::*;

use super::NixValue;
use crate::expr::valuetype::NIX_TYPE_ATTRS;
use crate::errors::context::{spec_peak, ErrorContext};
use crate::util::wrappers::AsInnerPtr;
use super::{NixThunk, Value};
use crate::errors::error::{is_key_not_found, NixideErrorView, NixideResult};
use crate::stdext::cchar_ptr_ext::{
    is_first_nul, spec_to_utf8_string, str_to_c_string, utf8_bytes, CCharPtrExt,
};
use crate::util::wrap::{opt_bytes, spec_nix_ptr_fn};

verus! {

/// The memory that a name pointer reaches holds a NUL-terminated C
/// string, and its bytes are UTF-8.
pub open spec fn name_readable(d: Option<Seq<u8>>) -> bool {
    &&& d matches Some(m) ==> exists|k: int| is_first_nul(m, k)
    &&& spec_to_utf8_string(d) is Ok
}

/// Decodes the name that a libnix call handed back.
fn read_name(d: Option<Vec<u8>>) -> (s: String)
    requires
        name_readable(opt_bytes(d)),
    ensures
        spec_to_utf8_string(opt_bytes(d)) == Ok::<Seq<char>, NixideErrorView>(s@),
{
    let mem: Option<&[u8]> = match &d {
        Some(b) => Some(b.as_slice()),
        None => None,
    };
    match mem.to_utf8_string() {
        Ok(s) => s,
        Err(_) => {
            assert(false);
            String::new()
        },
    }
}

/// A Nix attribute set.
pub struct NixAttrs {
    inner: usize,
    state: usize,
    len: u32,
}

impl NixAttrs {
    #[verifier::type_invariant]
    spec fn inv(self) -> bool {
        self.inner != 0 && self.state != 0
    }

    /// The address of the evaluation state that the value belongs to.
    pub closed spec fn spec_state(&self) -> usize {
        self.state
    }

    /// The content read from libnix.
    pub closed spec fn spec_len(&self) -> u32 {
        self.len
    }

    /// The value held at `inner`, of the evaluation state at `state`, whose content is `len`.
    pub fn from(inner: usize, state: usize, len: u32) -> (v: Self)
        requires
            inner != 0,
            state != 0,
        ensures
            v.spec_ptr() == inner,
            v.spec_state() == state,
            v.spec_len() == len,
    {
        NixAttrs { inner, state, len }
    }

    /// The address of the value, which is never null.
    pub(crate) fn ptr(&self) -> (p: usize)
        ensures
            p == self.spec_ptr(),
            p != 0,
    {
        proof {
            use_type_invariant(self);
        }
        self.inner
    }

    /// The address of the evaluation state that the value belongs to.
    pub fn state(&self) -> (s: usize)
        ensures
            s == self.spec_state(),
            s != 0,
    {
        proof {
            use_type_invariant(self);
        }
        self.state
    }

    /// The text that displays the value: `{ <attrs> }`.
    pub fn to_string(&self) -> (s: String)
        ensures
            s@ == "{ <attrs> }"@,
    {
        String::from_str("{ <attrs> }")
    }

    /// The text that shows the value for debugging: `{ <attrs> }`.
    pub fn to_debug_string(&self) -> (s: String)
        ensures
            s@ == "{ <attrs> }"@,
    {
        String::from_str("{ <attrs> }")
    }

    /// The number of attributes.
    pub fn len(&self) -> (n: u32)
        ensures
            n == self.spec_len(),
    {
        self.len
    }

    /// Entry `index` (in libnix's order), its name and forced value: `None`
    /// if `index` is not below the number of attributes. Otherwise `fetch`
    /// calls `nix_get_attr_byidx` with the evaluation state, the attribute
    /// set and the index, and returns the context, the value's address and
    /// the memory that the name pointer reaches; the call must succeed and
    /// the name must be a UTF-8 C string. The name is decoded, and `read`
    /// reads the value with the state.
    pub fn get_idx<F, R>(&self, index: u32, fetch: F, read: R) -> (r: Option<(String, Value)>) where
        F: FnOnce(usize, usize, u32) -> (ErrorContext, usize, Option<Vec<u8>>),
        R: FnOnce(usize, usize) -> Value,

        requires
            index < self.spec_len() ==> fetch.requires((self.spec_state(), self.spec_ptr(), index)),
            forall|ctx: ErrorContext, p: usize, d: Option<Vec<u8>>| #[trigger]
                fetch.ensures((self.spec_state(), self.spec_ptr(), index), (ctx, p, d))
                    ==> spec_nix_ptr_fn(ctx@, p) is Ok && name_readable(opt_bytes(d)),
            forall|p: usize| #[trigger] read.requires((p, self.spec_state())),
        ensures
            index >= self.spec_len() ==> r is None,
            index < self.spec_len() ==> exists|ctx: ErrorContext, p: usize, d: Option<Vec<u8>>|
                #[trigger] fetch.ensures((self.spec_state(), self.spec_ptr(), index), (ctx, p, d))
                    && r is Some && spec_to_utf8_string(opt_bytes(d)) == Ok::<
                    Seq<char>,
                    NixideErrorView,
                >(r.unwrap().0@) && read.ensures((p, self.spec_state()), r.unwrap().1),
    {
        if index >= self.len {
            return None;
        }
        let st = self.state();
        let ptr = self.as_ptr();
        let (ctx, p, d) = fetch(st, ptr, index);
        let ghost gd = d;
        let name = read_name(d);
        let value = read(p, st);
        assert(fetch.ensures((self.spec_state(), self.spec_ptr(), index), (ctx, p, gd)));
        Some((name, value))
    }

    /// Entry `index` (in libnix's order), its name and unforced value:
    /// as [`NixAttrs::get_idx`], with `nix_get_attr_byidx_lazy`; the value
    /// is the thunk at the address returned.
    pub fn get_idx_lazy<F>(&self, index: u32, fetch: F) -> (r: Option<(String, NixThunk)>) where
        F: FnOnce(usize, usize, u32) -> (ErrorContext, usize, Option<Vec<u8>>),

        requires
            index < self.spec_len() ==> fetch.requires((self.spec_state(), self.spec_ptr(), index)),
            forall|ctx: ErrorContext, p: usize, d: Option<Vec<u8>>| #[trigger]
                fetch.ensures((self.spec_state(), self.spec_ptr(), index), (ctx, p, d))
                    ==> spec_nix_ptr_fn(ctx@, p) is Ok && name_readable(opt_bytes(d)),
        ensures
            index >= self.spec_len() ==> r is None,
            index < self.spec_len() ==> exists|ctx: ErrorContext, p: usize, d: Option<Vec<u8>>|
                #[trigger] fetch.ensures((self.spec_state(), self.spec_ptr(), index), (ctx, p, d))
                    && r is Some && spec_to_utf8_string(opt_bytes(d)) == Ok::<
                    Seq<char>,
                    NixideErrorView,
                >(r.unwrap().0@) && r.unwrap().1.spec_ptr() == p && r.unwrap().1.spec_state()
                    == self.spec_state(),
    {
        if index >= self.len {
            return None;
        }
        let st = self.state();
        let ptr = self.as_ptr();
        let (ctx, p, d) = fetch(st, ptr, index);
        let ghost gd = d;
        let name = read_name(d);
        let value = NixThunk::from(p, st);
        assert(fetch.ensures((self.spec_state(), self.spec_ptr(), index), (ctx, p, gd)));
        Some((name, value))
    }

    /// The name of entry `index` (in libnix's order): `None` if `index` is
    /// not below the number of attributes. Otherwise `fetch` calls
    /// `nix_get_attr_name_byidx` with the evaluation state, the attribute
    /// set and the index, and returns the context and the memory that the
    /// name pointer reaches; the call must succeed and the name must be a
    /// UTF-8 C string, which is decoded.
    pub fn get_name_idx<F>(&self, index: u32, fetch: F) -> (r: Option<String>) where
        F: FnOnce(usize, usize, u32) -> (ErrorContext, Option<Vec<u8>>),

        requires
            index < self.spec_len() ==> fetch.requires((self.spec_state(), self.spec_ptr(), index)),
            forall|ctx: ErrorContext, d: Option<Vec<u8>>| #[trigger]
                fetch.ensures((self.spec_state(), self.spec_ptr(), index), (ctx, d)) ==> spec_peak(
                    ctx@,
                ) is Ok && name_readable(opt_bytes(d)),
        ensures
            index >= self.spec_len() ==> r is None,
            index < self.spec_len() ==> exists|ctx: ErrorContext, d: Option<Vec<u8>>|
                #[trigger] fetch.ensures((self.spec_state(), self.spec_ptr(), index), (ctx, d))
                    && r is Some && spec_to_utf8_string(opt_bytes(d)) == Ok::<
                    Seq<char>,
                    NixideErrorView,
                >(r.unwrap()@),
    {
        if index >= self.len {
            return None;
        }
        let st = self.state();
        let ptr = self.as_ptr();
        let (ctx, d) = fetch(st, ptr, index);
        let ghost gd = d;
        let name = read_name(d);
        assert(fetch.ensures((self.spec_state(), self.spec_ptr(), index), (ctx, gd)));
        Some(name)
    }

    /// Looks up the attribute `name`: `fetch` asks libnix for it with the
    /// evaluation state, the attribute set and the name as a C string;
    /// `None` if libnix reports that there is no such attribute, else what
    /// was fetched. The name must hold no NUL character, and libnix must
    /// report no error but a missing key.
    pub fn get<F>(&self, name: &str, fetch: F) -> (r: Option<Value>) where
        F: FnOnce(usize, usize, Vec<u8>) -> NixideResult<Value>,

        requires
            !name@.contains('\0'),
            forall|c: Vec<u8>|
                c@ == utf8_bytes(name@).push(0u8) ==> #[trigger] fetch.requires(
                    (self.spec_state(), self.spec_ptr(), c),
                ),
            forall|c: Vec<u8>, res: NixideResult<Value>|
                #[trigger] fetch.ensures((self.spec_state(), self.spec_ptr(), c), res) ==> match res {
                    Ok(_) => true,
                    Err(e) => is_key_not_found(e@),
                },
        ensures
            exists|c: Vec<u8>, res: NixideResult<Value>|
                c@ == utf8_bytes(name@).push(0u8) && #[trigger] fetch.ensures(
                    (self.spec_state(), self.spec_ptr(), c),
                    res,
                ) && match res {
                    Ok(v) => r == Some(v),
                    Err(_) => r is None,
                },
    {
        let c_name = match str_to_c_string(name) {
            Ok(c) => c,
            Err(_) => {
                assert(false);
                return None;
            },
        };
        let st = self.state();
        let ptr = self.as_ptr();
        let res = fetch(st, ptr, c_name);
        match res {
            Ok(v) => Some(v),
            Err(e) => {
                assert(is_key_not_found(e@));
                None
            },
        }
    }

    /// Looks up the attribute `name`: `fetch` asks libnix for it with the
    /// evaluation state, the attribute set and the name as a C string;
    /// `None` if libnix reports that there is no such attribute, else what
    /// was fetched. The name must hold no NUL character, and libnix must
    /// report no error but a missing key.
    pub fn get_lazy<F>(&self, name: &str, fetch: F) -> (r: Option<NixThunk>) where
        F: FnOnce(usize, usize, Vec<u8>) -> NixideResult<NixThunk>,

        requires
            !name@.contains('\0'),
            forall|c: Vec<u8>|
                c@ == utf8_bytes(name@).push(0u8) ==> #[trigger] fetch.requires(
                    (self.spec_state(), self.spec_ptr(), c),
                ),
            forall|c: Vec<u8>, res: NixideResult<NixThunk>|
                #[trigger] fetch.ensures((self.spec_state(), self.spec_ptr(), c), res) ==> match res {
                    Ok(_) => true,
                    Err(e) => is_key_not_found(e@),
                },
        ensures
            exists|c: Vec<u8>, res: NixideResult<NixThunk>|
                c@ == utf8_bytes(name@).push(0u8) && #[trigger] fetch.ensures(
                    (self.spec_state(), self.spec_ptr(), c),
                    res,
                ) && match res {
                    Ok(v) => r == Some(v),
                    Err(_) => r is None,
                },
    {
        let c_name = match str_to_c_string(name) {
            Ok(c) => c,
            Err(_) => {
                assert(false);
                return None;
            },
        };
        let st = self.state();
        let ptr = self.as_ptr();
        let res = fetch(st, ptr, c_name);
        match res {
            Ok(v) => Some(v),
            Err(e) => {
                assert(is_key_not_found(e@));
                None
            },
        }
    }
    /// Another handle on the same value: `incref` calls `nix_value_incref`
    /// with the value, which must not fail (libnix then keeps the value
    /// alive until both handles are released).
    pub fn clone<F>(&self, incref: F) -> (c: Self) where F: FnOnce(usize) -> ErrorContext
        requires
            incref.requires((self.spec_ptr(),)),
            forall|ctx: ErrorContext| #[trigger]
                incref.ensures((self.spec_ptr(),), ctx) ==> spec_peak(ctx@) is Ok,
        ensures
            exists|ctx: ErrorContext| #[trigger] incref.ensures((self.spec_ptr(),), ctx),
            c.spec_ptr() == self.spec_ptr(),
            c.spec_state() == self.spec_state(),
            c.spec_len() == self.spec_len(),
    {
        proof {
            use_type_invariant(self);
        }
        let ctx = incref(self.inner);
        assert(spec_peak(ctx@) is Ok);
        NixAttrs { inner: self.inner, state: self.state, len: self.len }
    }
}

impl AsInnerPtr for NixAttrs {
    closed spec fn spec_ptr(&self) -> usize {
        self.inner
    }

    fn as_ptr(&self) -> (p: usize) {
        self.inner
    }
}

impl NixValue for NixAttrs {
    open spec fn spec_type_id(&self) -> i32 {
        NIX_TYPE_ATTRS
    }

    fn type_id(&self) -> (t: i32) {
        NIX_TYPE_ATTRS
    }
}

} // verus!
