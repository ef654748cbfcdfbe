//! The Nix store.

pub mod path;

pub use path::StorePath;
use path::spec_parsed_path;

use vstd::prelude::*;

use crate::errors::context::ErrorContext;
use crate::errors::error::{result_view, string_result_view, NixideErrorView, NixideResult};
use crate::stdext::cchar_ptr_ext::{spec_as_c_ptr, str_to_c_string};
use crate::util::wrap::{
    nix_fn, nix_pathbuf_callback, nix_ptr_fn, nix_string_callback, opt_bytes, spec_nix_fn,
    spec_nix_ptr_fn, spec_nix_string_callback,
};
use crate::util::text::utf8_to_string;
use crate::util::wrappers::AsInnerPtr;
use vstd::utf8::{decode_utf8, valid_utf8};

verus! {

/// A Nix store, held by its address.
#[derive(Clone, Copy)]
pub struct Store {
    inner: usize,
}

/// The view of a result that holds a store: the store's address.
pub open spec fn store_result_view(r: NixideResult<Store>) -> Result<usize, NixideErrorView> {
    match r {
        Ok(s) => Ok(s.spec_ptr()),
        Err(e) => Err(e@),
    }
}

/// The view of a result that holds a store path: the path's address.
pub open spec fn path_result_view(r: NixideResult<StorePath>) -> Result<usize, NixideErrorView> {
    match r {
        Ok(p) => Ok(p.spec_ptr()),
        Err(e) => Err(e@),
    }
}

/// The output `out` (its name and path) was handed to `callback`.
pub open spec fn handed_to<G: Fn(&str, &StorePath)>(callback: G, out: (String, StorePath)) -> bool {
    exists|name: &str| name@ == out.0@ && #[trigger] callback.ensures((name, &out.1), ())
}

impl Store {
    #[verifier::type_invariant]
    spec fn inv(self) -> bool {
        self.inner != 0
    }

    /// Opens the store at `uri`: `open_store` calls `nix_store_open` with
    /// the URI as a C string and returns the context and what it returned.
    /// `StringNulByte` if the URI holds a NUL character (no call is made),
    /// else the outcome of the call.
    pub fn open<F>(uri: &str, open_store: F) -> (r: NixideResult<Store>) where
        F: FnOnce(Option<Vec<u8>>) -> (ErrorContext, usize),

        requires
            forall|c: Vec<u8>|
                spec_as_c_ptr(uri@) == Ok::<Seq<u8>, NixideErrorView>(c@) ==> #[trigger] open_store.requires(
                    (Some(c),),
                ),
        ensures
            match spec_as_c_ptr(uri@) {
                Err(e) => store_result_view(r) == Err::<usize, NixideErrorView>(e),
                Ok(bytes) => exists|c: Vec<u8>, ctx: ErrorContext, p: usize|
                    c@ == bytes && #[trigger] open_store.ensures((Some(c),), (ctx, p))
                        && store_result_view(r) == spec_nix_ptr_fn(ctx@, p),
            },
    {
        let c_uri = match str_to_c_string(uri) {
            Ok(c) => c,
            Err(e) => return Err(e),
        };
        Self::open_ptr(Some(c_uri), open_store)
    }

    /// Opens the default store: `open_store` calls `nix_store_open` with no
    /// URI.
    pub fn default<F>(open_store: F) -> (r: NixideResult<Store>) where
        F: FnOnce(Option<Vec<u8>>) -> (ErrorContext, usize),

        requires
            open_store.requires((None::<Vec<u8>>,)),
        ensures
            exists|ctx: ErrorContext, p: usize|
                #[trigger] open_store.ensures((None::<Vec<u8>>,), (ctx, p)) && store_result_view(r)
                    == spec_nix_ptr_fn(ctx@, p),
    {
        Self::open_ptr(None, open_store)
    }

    fn open_ptr<F>(uri: Option<Vec<u8>>, open_store: F) -> (r: NixideResult<Store>) where
        F: FnOnce(Option<Vec<u8>>) -> (ErrorContext, usize),

        requires
            open_store.requires((uri,)),
        ensures
            exists|ctx: ErrorContext, p: usize|
                #[trigger] open_store.ensures((uri,), (ctx, p)) && store_result_view(r)
                    == spec_nix_ptr_fn(ctx@, p),
    {
        let (ctx, ptr) = open_store(uri);
        match nix_ptr_fn(ctx, ptr) {
            Ok(inner) => Ok(Store { inner }),
            Err(e) => Err(e),
        }
    }

    /// Builds or downloads `path` and its dependencies into the store.
    /// `realise` calls `nix_store_realise` with the store and the path; it
    /// returns the context and, for each output that the call reported,
    /// the output's name (its bytes) and the address of a copy of its path.
    /// Each output is handed to `user_callback`, in order; then the
    /// outcome is the context's error, else the outputs' names and paths.
    /// Each name must be UTF-8 and each path non-null.
    pub fn realise<G, F>(&self, path: &StorePath, user_callback: G, realise: F) -> (r: NixideResult<
        Vec<(String, StorePath)>,
    >) where
        G: Fn(&str, &StorePath),
        F: FnOnce(usize, usize) -> (ErrorContext, Vec<(Vec<u8>, usize)>),

        requires
            realise.requires((self.spec_ptr(), path.spec_ptr())),
            forall|ctx: ErrorContext, outs: Vec<(Vec<u8>, usize)>| #[trigger]
                realise.ensures((self.spec_ptr(), path.spec_ptr()), (ctx, outs)) ==> forall|i: int|
                    0 <= i < outs@.len() ==> valid_utf8((#[trigger] outs@[i]).0@) && outs@[i].1 != 0,
            forall|name: &str, p: &StorePath| #[trigger] user_callback.requires((name, p)),
        ensures
            exists|ctx: ErrorContext, outs: Vec<(Vec<u8>, usize)>|
                #[trigger] realise.ensures((self.spec_ptr(), path.spec_ptr()), (ctx, outs))
                    && match spec_nix_fn(ctx@, ()) {
                    Err(e) => r matches Err(re) && re@ == e,
                    Ok(()) => r matches Ok(v) && v@.len() == outs@.len() && forall|i: int|
                        0 <= i < v@.len() ==> (#[trigger] v@[i]).0@ == decode_utf8(outs@[i].0@)
                            && v@[i].1.spec_ptr() == outs@[i].1 && handed_to(
                            user_callback,
                            v@[i],
                        ),
                },
    {
        let (ctx, outs) = realise(self.as_ptr(), path.as_ptr());
        let ghost gouts = outs@;
        let mut outputs: Vec<(String, StorePath)> = Vec::new();
        let mut i: usize = 0;
        let n = outs.len();
        while i < n
            invariant
                n == gouts.len(),
                outs@ == gouts,
                i <= n,
                forall|k: int| 0 <= k < n ==> valid_utf8((#[trigger] gouts[k]).0@) && gouts[k].1 != 0,
                forall|name: &str, p: &StorePath| #[trigger] user_callback.requires((name, p)),
                outputs@.len() == i,
                forall|k: int|
                    0 <= k < i ==> (#[trigger] outputs@[k]).0@ == decode_utf8(gouts[k].0@)
                        && outputs@[k].1.spec_ptr() == gouts[k].1 && handed_to(
                        user_callback,
                        outputs@[k],
                    ),
            decreases n - i,
        {
            let name = match utf8_to_string(outs[i].0.as_slice()) {
                Some(s) => s,
                None => {
                    assert(false);
                    String::new()
                },
            };
            let store_path = StorePath::from(outs[i].1);
            let name_str = name.as_str();
            user_callback(name_str, &store_path);
            let ghost out = (name, store_path);
            assert(name_str@ == out.0@);
            assert(user_callback.ensures((name_str, &out.1), ()));
            assert(handed_to(user_callback, out));
            outputs.push((name, store_path));
            i = i + 1;
        }
        nix_fn(ctx, outputs)
    }

    /// Parses a store path of this store (see [`StorePath::parse`]).
    pub fn store_path<F>(&self, path: &str, parse: F) -> (r: NixideResult<StorePath>) where
        F: FnOnce(usize, Vec<u8>) -> (ErrorContext, usize),

        requires
            forall|c: Vec<u8>|
                spec_as_c_ptr(path@) == Ok::<Seq<u8>, NixideErrorView>(c@) ==> #[trigger] parse.requires(
                    (self.spec_ptr(), c),
                ),
        ensures
            spec_parsed_path(self.spec_ptr(), path@, parse, r),
    {
        StorePath::parse(self, path, parse)
    }

    /// The version of the store: `get` calls `nix_store_get_version` with
    /// the store and returns the context and the string it was handed.
    pub fn version<F>(&self, get: F) -> (r: NixideResult<String>) where
        F: FnOnce(usize) -> (ErrorContext, Option<Vec<u8>>),

        requires
            get.requires((self.spec_ptr(),)),
        ensures
            exists|ctx: ErrorContext, d: Option<Vec<u8>>|
                #[trigger] get.ensures((self.spec_ptr(),), (ctx, d)) && string_result_view(r)
                    == spec_nix_string_callback(ctx@, opt_bytes(d)),
    {
        let (ctx, d) = get(self.as_ptr());
        nix_string_callback(ctx, d)
    }

    /// The URI of the store (`nix_store_get_uri`).
    pub fn uri<F>(&self, get: F) -> (r: NixideResult<String>) where
        F: FnOnce(usize) -> (ErrorContext, Option<Vec<u8>>),

        requires
            get.requires((self.spec_ptr(),)),
        ensures
            exists|ctx: ErrorContext, d: Option<Vec<u8>>|
                #[trigger] get.ensures((self.spec_ptr(),), (ctx, d)) && string_result_view(r)
                    == spec_nix_string_callback(ctx@, opt_bytes(d)),
    {
        let (ctx, d) = get(self.as_ptr());
        nix_string_callback(ctx, d)
    }

    /// The store directory of the store (`nix_store_get_storedir`).
    pub fn store_dir<F>(&self, get: F) -> (r: NixideResult<String>) where
        F: FnOnce(usize) -> (ErrorContext, Option<Vec<u8>>),

        requires
            get.requires((self.spec_ptr(),)),
        ensures
            exists|ctx: ErrorContext, d: Option<Vec<u8>>|
                #[trigger] get.ensures((self.spec_ptr(),), (ctx, d)) && string_result_view(r)
                    == spec_nix_string_callback(ctx@, opt_bytes(d)),
    {
        let (ctx, d) = get(self.as_ptr());
        nix_pathbuf_callback(ctx, d)
    }

    /// Copies the closure of `store_path` from this store to `dst_store`:
    /// `copy` calls `nix_store_copy_closure` with the source store, the
    /// destination store and the path.
    pub fn copy_closure_to<F>(&self, dst_store: &Store, store_path: &StorePath, copy: F) -> (r:
        NixideResult<()>) where F: FnOnce(usize, usize, usize) -> ErrorContext
        requires
            copy.requires((self.spec_ptr(), dst_store.spec_ptr(), store_path.spec_ptr())),
        ensures
            exists|ctx: ErrorContext|
                #[trigger] copy.ensures(
                    (self.spec_ptr(), dst_store.spec_ptr(), store_path.spec_ptr()),
                    ctx,
                ) && result_view(r) == spec_nix_fn(ctx@, ()),
    {
        let ctx = copy(self.as_ptr(), dst_store.as_ptr(), store_path.as_ptr());
        nix_fn(ctx, ())
    }

    /// Copies the closure of `store_path` from `src_store` to this store.
    pub fn copy_closure_from<F>(&self, src_store: &Store, store_path: &StorePath, copy: F) -> (r:
        NixideResult<()>) where F: FnOnce(usize, usize, usize) -> ErrorContext
        requires
            copy.requires((src_store.spec_ptr(), self.spec_ptr(), store_path.spec_ptr())),
        ensures
            exists|ctx: ErrorContext|
                #[trigger] copy.ensures(
                    (src_store.spec_ptr(), self.spec_ptr(), store_path.spec_ptr()),
                    ctx,
                ) && result_view(r) == spec_nix_fn(ctx@, ()),
    {
        let ctx = copy(src_store.as_ptr(), self.as_ptr(), store_path.as_ptr());
        nix_fn(ctx, ())
    }
}

impl AsInnerPtr for Store {
    closed spec fn spec_ptr(&self) -> usize {
        self.inner
    }

    fn as_ptr(&self) -> (p: usize) {
        self.inner
    }
}

} // verus!
