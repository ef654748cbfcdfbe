//! A string with its context realised: the store paths it refers to built
//! or downloaded.

use vstd::prelude::*;
use vstd::utf8::{decode_utf8, valid_utf8};

use super::eval_state::EvalState;
use super::values::NixString;
use crate::errors::context::ErrorContext;
use crate::errors::error::{NixideErrorView, NixideResult};
use crate::stdext::cchar_ptr_ext::{utf8_bytes, CCharPtrExt};
use crate::store::path::StorePath;
use crate::util::lazy_array::LazyArray;
use crate::util::wrap::{nix_ptr_fn, spec_nix_ptr_fn};
use crate::util::wrappers::AsInnerPtr;

verus! {

/// A realised string, held by its address, with the store path that its
/// text names and the store paths of its context (computed on first
/// access by `D`).
#[verifier::reject_recursive_types(D)]
pub struct RealisedString<D: Fn(usize) -> StorePath> {
    inner: usize,
    pub path: StorePath,
    pub children: LazyArray<StorePath, D>,
}

/// The text of a realised string is fit to be parsed as a store path: it
/// is non-empty UTF-8 and holds no NUL character.
pub open spec fn buffer_fits(b: Seq<u8>) -> bool {
    &&& b.len() > 0
    &&& valid_utf8(b)
    &&& !decode_utf8(b).contains('\0')
}

/// Every text that `buffer` reads from the realised string at `inner` is
/// fit to be parsed.
pub open spec fn buffer_fits_at<B>(inner: usize, buffer: B) -> bool where B: FnOnce(usize) -> Vec<u8> {
    forall|b: Vec<u8>| #[trigger] buffer.ensures((inner,), b) ==> buffer_fits(b@)
}

/// libnix parses, as a path of the store at `store`, the text that
/// `buffer` reads from the realised string at `inner`.
pub open spec fn parse_succeeds_at<B, P>(inner: usize, store: usize, buffer: B, parse: P) -> bool where
    B: FnOnce(usize) -> Vec<u8>,
    P: FnOnce(usize, Vec<u8>) -> (ErrorContext, usize),
 {
    forall|b: Vec<u8>, c: Vec<u8>, ctx: ErrorContext, q: usize|
        #[trigger] buffer.ensures((inner,), b) && c@ == utf8_bytes(decode_utf8(b@)).push(0u8)
            && #[trigger] parse.ensures((store, c), (ctx, q)) ==> spec_nix_ptr_fn(ctx@, q) is Ok
}

/// `path` is what parsing the text of the realised string at `inner`
/// gave: `buffer` read its bytes, and `parse` was handed the store at
/// `store` and those bytes, decoded and re-encoded, with a NUL at the end.
pub open spec fn parsed_from<B, P>(path: StorePath, inner: usize, store: usize, buffer: B, parse: P) -> bool where
    B: FnOnce(usize) -> Vec<u8>,
    P: FnOnce(usize, Vec<u8>) -> (ErrorContext, usize),
 {
    exists|b: Vec<u8>, c: Vec<u8>, ctx: ErrorContext|
        #[trigger] buffer.ensures((inner,), b) && c@ == utf8_bytes(decode_utf8(b@)).push(0u8)
            && #[trigger] parse.ensures((store, c), (ctx, path.spec_ptr()))
}

/// The context's store paths of a realised string at `inner` are `n`
/// entries, none computed yet, where `count` gave `n`.
pub open spec fn fresh_children<C, D>(children: LazyArray<StorePath, D>, inner: usize, count: C, delegate: D) -> bool where
    C: FnOnce(usize) -> usize,
    D: Fn(usize) -> StorePath,
 {
    &&& children.wf()
    &&& children.delegate() == delegate
    &&& exists|n: usize|
        #[trigger] count.ensures((inner,), n) && children.size() == n
            && children.cache() == Seq::new(n as nat, |i: int| None::<StorePath>)
}

impl<D: Fn(usize) -> StorePath> RealisedString<D> {
    /// The store path that the text names.
    pub closed spec fn spec_path(&self) -> StorePath {
        self.path
    }

    /// The store paths of the context.
    pub closed spec fn spec_children(&self) -> LazyArray<StorePath, D> {
        self.children
    }

    /// The store path that the text of the realised string at `inner`
    /// names: `buffer` reads the text's bytes (`nix_realised_string_get_buffer_start`
    /// and `_size`) and `parse` calls `nix_store_parse_path` with the
    /// state's store and the text as a C string. The text must be fit to
    /// parse and the parse must succeed.
    pub fn parse_path<B, P>(realised_string: usize, state: &EvalState, buffer: B, parse: P) -> (p:
        StorePath) where B: FnOnce(usize) -> Vec<u8>, P: FnOnce(usize, Vec<u8>) -> (ErrorContext, usize)
        requires
            buffer.requires((realised_string,)),
            buffer_fits_at(realised_string, buffer),
            forall|c: Vec<u8>| #[trigger] parse.requires((state.spec_store().spec_ptr(), c)),
            parse_succeeds_at(realised_string, state.spec_store().spec_ptr(), buffer, parse),
        ensures
            parsed_from(p, realised_string, state.spec_store().spec_ptr(), buffer, parse),
    {
        let bytes = buffer(realised_string);
        let ghost gb = bytes@;
        let mem: Option<&[u8]> = Some(bytes.as_slice());
        assert(gb.take(gb.len() as int) =~= gb);
        let text = match mem.to_utf8_string_n(bytes.len()) {
            Ok(s) => s,
            Err(_) => {
                assert(false);
                String::new()
            },
        };
        let store = state.store_ref();
        proof {
            assert(buffer.ensures((realised_string,), bytes));
            assert(!text@.contains('\0'));
        }
        match StorePath::parse(store, text.as_str(), parse) {
            Ok(p) => p,
            Err(_) => {
                assert(false);
                StorePath::from(1)
            },
        }
    }

    /// Realises the string `value` in `state`: the store paths its context
    /// refers to are realised, placeholders are replaced, and temporary
    /// garbage-collection roots are made for the paths. `realise` calls
    /// `nix_string_realise` with the state and the value (not as part of a
    /// primop); its error, if any, is returned. Then `count` reads the
    /// number of store paths of the context, and the text is parsed as
    /// the store path [`RealisedString::parse_path`] says; the context's
    /// paths are computed on first access by `delegate`.
    pub fn new<R, C, B, P>(
        value: &NixString,
        state: &EvalState,
        realise: R,
        count: C,
        buffer: B,
        parse: P,
        delegate: D,
    ) -> (r: NixideResult<Self>) where
        R: FnOnce(usize, usize) -> (ErrorContext, usize),
        C: FnOnce(usize) -> usize,
        B: FnOnce(usize) -> Vec<u8>,
        P: FnOnce(usize, Vec<u8>) -> (ErrorContext, usize),

        requires
            realise.requires((state.spec_ptr(), value.spec_ptr())),
            forall|s: usize| #[trigger] count.requires((s,)),
            forall|s: usize| #[trigger] buffer.requires((s,)),
            forall|c: Vec<u8>| #[trigger] parse.requires((state.spec_store().spec_ptr(), c)),
            forall|ctx: ErrorContext, p: usize|
                #[trigger] realise.ensures((state.spec_ptr(), value.spec_ptr()), (ctx, p))
                    && spec_nix_ptr_fn(ctx@, p) is Ok ==> buffer_fits_at(p, buffer)
                    && parse_succeeds_at(p, state.spec_store().spec_ptr(), buffer, parse),
            forall|i: usize| #[trigger] delegate.requires((i,)),
        ensures
            exists|ctx: ErrorContext, p: usize|
                #[trigger] realise.ensures((state.spec_ptr(), value.spec_ptr()), (ctx, p))
                    && match spec_nix_ptr_fn(ctx@, p) {
                    Err(e) => r matches Err(re) && re@ == e,
                    Ok(inner) => r matches Ok(rs) && rs.spec_ptr() == inner
                        && fresh_children(rs.spec_children(), inner, count, delegate)
                        && parsed_from(rs.spec_path(), inner, state.spec_store().spec_ptr(), buffer, parse),
                },
    {
        let (ctx, p) = realise(state.as_ptr(), value.as_ptr());
        let ghost gctx = ctx;
        let inner = match nix_ptr_fn(ctx, p) {
            Ok(inner) => inner,
            Err(e) => {
                assert(realise.ensures((state.spec_ptr(), value.spec_ptr()), (gctx, p)));
                return Err(e);
            },
        };
        assert(realise.ensures((state.spec_ptr(), value.spec_ptr()), (gctx, p)));
        let size = count(inner);
        let path = Self::parse_path(inner, state, buffer, parse);
        let children = LazyArray::new(size, delegate);
        let rs = RealisedString { inner, path, children };
        assert(realise.ensures((state.spec_ptr(), value.spec_ptr()), (gctx, p)));
        assert(count.ensures((inner,), size));
        assert(fresh_children(rs.spec_children(), inner, count, delegate));
        Ok(rs)
    }
}

impl<D: Fn(usize) -> StorePath> AsInnerPtr for RealisedString<D> {
    closed spec fn spec_ptr(&self) -> usize {
        self.inner
    }

    fn as_ptr(&self) -> (p: usize) {
        self.inner
    }
}

} // verus!
