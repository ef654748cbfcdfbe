//! Paths in the Nix store.

use vstd::prelude::*;

use super::{path_result_view, Store};
use crate::errors::context::ErrorContext;
use crate::errors::error::{string_result_view, NixideErrorView, NixideResult};
use crate::stdext::cchar_ptr_ext::{spec_as_c_ptr, str_to_c_string};
use crate::util::wrap::{
    delivered_string, nix_fn, nix_pathbuf_callback, nix_ptr_fn, opt_bytes, spec_delivered_string,
    spec_nix_fn, spec_nix_ptr_fn, spec_nix_string_callback,
};
use crate::util::wrappers::AsInnerPtr;

verus! {

/// What parsing `path` as a path of the store at `store` gives:
/// `StringNulByte` if it holds a NUL character (no call is made), else
/// `parse` is handed the store and the path as a C string, and the outcome
/// is its context's error, `NullPtr` for a null path, or the path.
pub open spec fn spec_parsed_path<F>(store: usize, path: Seq<char>, parse: F, r: NixideResult<StorePath>) -> bool where
    F: FnOnce(usize, Vec<u8>) -> (ErrorContext, usize),
 {
    match spec_as_c_ptr(path) {
        Err(e) => path_result_view(r) == Err::<usize, NixideErrorView>(e),
        Ok(bytes) => exists|c: Vec<u8>, ctx: ErrorContext, p: usize|
            c@ == bytes && #[trigger] parse.ensures((store, c), (ctx, p)) && path_result_view(r)
                == spec_nix_ptr_fn(ctx@, p),
    }
}

/// Two parses of the same path in the same store agree, as long as libnix
/// answers the same bytes the same way: [`Store::store_path`] and
/// [`StorePath::parse`] state the same outcome.
pub proof fn lemma_parses_agree<F>(
    store: usize,
    path: Seq<char>,
    parse: F,
    r1: NixideResult<StorePath>,
    r2: NixideResult<StorePath>,
)
    where F: FnOnce(usize, Vec<u8>) -> (ErrorContext, usize),
    requires
        spec_parsed_path(store, path, parse, r1),
        spec_parsed_path(store, path, parse, r2),
        forall|c1: Vec<u8>, c2: Vec<u8>, o1: (ErrorContext, usize), o2: (ErrorContext, usize)|
            c1@ == c2@ && #[trigger] parse.ensures((store, c1), o1) && #[trigger] parse.ensures(
                (store, c2),
                o2,
            ) ==> o1.0@ == o2.0@ && o1.1 == o2.1,
    ensures
        path_result_view(r1) == path_result_view(r2),
{
    if let Ok(bytes) = spec_as_c_ptr(path) {
        let (c1, x1, p1) = choose|c: Vec<u8>, ctx: ErrorContext, p: usize|
            c@ == bytes && #[trigger] parse.ensures((store, c), (ctx, p)) && path_result_view(r1)
                == spec_nix_ptr_fn(ctx@, p);
        let (c2, x2, p2) = choose|c: Vec<u8>, ctx: ErrorContext, p: usize|
            c@ == bytes && #[trigger] parse.ensures((store, c), (ctx, p)) && path_result_view(r2)
                == spec_nix_ptr_fn(ctx@, p);
        assert(parse.ensures((store, c1), (x1, p1)));
        assert(parse.ensures((store, c2), (x2, p2)));
    }
}

/// A path in the Nix store, held by its address.
pub struct StorePath {
    inner: usize,
}

/// The text of the path that [`StorePath::fake_path`] parses.
pub open spec fn fake_path_text() -> Seq<char> {
    "/nix/store/00000000000000000000000000000000-fake"@
}

impl StorePath {
    #[verifier::type_invariant]
    spec fn inv(self) -> bool {
        self.inner != 0
    }

    /// The store path held at `inner`.
    pub fn from(inner: usize) -> (p: StorePath)
        requires
            inner != 0,
        ensures
            p.spec_ptr() == inner,
    {
        StorePath { inner }
    }

    /// Parses a store path string of `store`: `parse` calls
    /// `nix_store_parse_path` with the store and the path as a C string.
    /// `StringNulByte` if the path holds a NUL character (no call is made),
    /// else the outcome of the call.
    pub fn parse<F>(store: &Store, path: &str, parse: F) -> (r: NixideResult<StorePath>) where
        F: FnOnce(usize, Vec<u8>) -> (ErrorContext, usize),

        requires
            forall|c: Vec<u8>|
                spec_as_c_ptr(path@) == Ok::<Seq<u8>, NixideErrorView>(c@) ==> #[trigger] parse.requires(
                    (store.spec_ptr(), c),
                ),
        ensures
            spec_parsed_path(store.spec_ptr(), path@, parse, r),
    {
        let c_path = match str_to_c_string(path) {
            Ok(c) => c,
            Err(e) => return Err(e),
        };
        let (ctx, ptr) = parse(store.as_ptr(), c_path);
        match nix_ptr_fn(ctx, ptr) {
            Ok(inner) => Ok(StorePath { inner }),
            Err(e) => Err(e),
        }
    }

    /// Parses the well-formed path
    /// `/nix/store/00000000000000000000000000000000-fake` (see
    /// [`StorePath::parse`]).
    pub fn fake_path<F>(store: &Store, parse: F) -> (r: NixideResult<StorePath>) where
        F: FnOnce(usize, Vec<u8>) -> (ErrorContext, usize),

        requires
            forall|c: Vec<u8>|
                spec_as_c_ptr(fake_path_text()) == Ok::<Seq<u8>, NixideErrorView>(c@)
                    ==> #[trigger] parse.requires((store.spec_ptr(), c)),
        ensures
            spec_parsed_path(store.spec_ptr(), fake_path_text(), parse, r),
    {
        Self::parse(store, "/nix/store/00000000000000000000000000000000-fake", parse)
    }

    /// The name of the path (what follows the hash): `get` calls
    /// `nix_store_path_name` with the path, which reports no error, and
    /// returns the string it was handed.
    pub fn name<F>(&self, get: F) -> (r: NixideResult<String>) where
        F: FnOnce(usize) -> Option<Vec<u8>>,

        requires
            get.requires((self.spec_ptr(),)),
        ensures
            exists|d: Option<Vec<u8>>|
                #[trigger] get.ensures((self.spec_ptr(),), d) && string_result_view(r)
                    == spec_delivered_string(opt_bytes(d)),
    {
        let d = get(self.as_ptr());
        delivered_string(d)
    }

    /// The physical location of the path in `store`, which may differ from
    /// what the store directory suggests (`nix_store_real_path`).
    pub fn real_path<F>(&self, store: &Store, get: F) -> (r: NixideResult<String>) where
        F: FnOnce(usize, usize) -> (ErrorContext, Option<Vec<u8>>),

        requires
            get.requires((store.spec_ptr(), self.spec_ptr())),
        ensures
            exists|ctx: ErrorContext, d: Option<Vec<u8>>|
                #[trigger] get.ensures((store.spec_ptr(), self.spec_ptr()), (ctx, d))
                    && string_result_view(r) == spec_nix_string_callback(ctx@, opt_bytes(d)),
    {
        let (ctx, d) = get(store.as_ptr(), self.as_ptr());
        nix_pathbuf_callback(ctx, d)
    }

    /// Whether the path is valid in `store` (its store object and the
    /// closure of its references exist there): `check` calls
    /// `nix_store_is_valid_path` and returns the context and its answer;
    /// `false` if the call reported an error.
    pub fn is_valid<F>(&self, store: &Store, check: F) -> (b: bool) where
        F: FnOnce(usize, usize) -> (ErrorContext, bool),

        requires
            check.requires((store.spec_ptr(), self.spec_ptr())),
        ensures
            exists|ctx: ErrorContext, valid: bool|
                #[trigger] check.ensures((store.spec_ptr(), self.spec_ptr()), (ctx, valid)) && b
                    == (spec_nix_fn(ctx@, valid) == Ok::<bool, NixideErrorView>(true)),
    {
        let (ctx, valid) = check(store.as_ptr(), self.as_ptr());
        match nix_fn(ctx, valid) {
            Ok(v) => v,
            Err(_) => false,
        }
    }

    /// A copy of the path: `clone_path` calls `nix_store_path_clone` with
    /// the path and returns what it returned, which must not be null.
    pub fn clone<F>(&self, clone_path: F) -> (p: StorePath) where F: FnOnce(usize) -> usize
        requires
            clone_path.requires((self.spec_ptr(),)),
            forall|q: usize| #[trigger] clone_path.ensures((self.spec_ptr(),), q) ==> q != 0,
        ensures
            clone_path.ensures((self.spec_ptr(),), p.spec_ptr()),
    {
        let q = clone_path(self.as_ptr());
        StorePath { inner: q }
    }
}

impl AsInnerPtr for StorePath {
    closed spec fn spec_ptr(&self) -> usize {
        self.inner
    }

    fn as_ptr(&self) -> (p: usize) {
        self.inner
    }
}

} // verus!
