//! Configuring and building an evaluation state.

use vstd::prelude::*;
use vstd::utf8::decode_utf8;

use super::eval_state::EvalState;
use crate::errors::context::ErrorContext;
use crate::errors::error::{result_view, NixideErrorView, NixideResult};
use crate::stdext::cchar_ptr_ext::{str_to_c_string, utf8_bytes};
use crate::store::Store;
use crate::util::wrap::{nix_fn, nix_ptr_fn, spec_nix_fn, spec_nix_ptr_fn};
use crate::util::wrappers::AsInnerPtr;

verus! {

/// A builder of an evaluation state, held by its address, with the store
/// that the state will evaluate against.
pub struct EvalStateBuilder {
    inner: usize,
    store: Store,
}

/// The view of a result that holds a builder: its address and store.
pub open spec fn builder_result_view(r: NixideResult<EvalStateBuilder>) -> Result<
    (usize, Store),
    NixideErrorView,
> {
    match r {
        Ok(b) => Ok((b.spec_ptr(), b.spec_store())),
        Err(e) => Err(e@),
    }
}

/// The view of a result that holds an evaluation state: its address and
/// store.
pub open spec fn state_result_view(r: NixideResult<EvalState>) -> Result<
    (usize, Store),
    NixideErrorView,
> {
    match r {
        Ok(s) => Ok((s.spec_ptr(), s.spec_store())),
        Err(e) => Err(e@),
    }
}

/// The views of a sequence of byte vectors.
pub open spec fn views_of(cs: Seq<Vec<u8>>) -> Seq<Seq<u8>> {
    Seq::new(cs.len(), |i: int| cs[i]@)
}

/// The C strings of a list of paths, in order.
pub open spec fn spec_c_paths(paths: Seq<&str>) -> Seq<Seq<u8>> {
    Seq::new(paths.len(), |i: int| utf8_bytes(paths[i]@).push(0u8))
}

impl EvalStateBuilder {
    #[verifier::type_invariant]
    spec fn inv(self) -> bool {
        self.inner != 0
    }

    /// The store that the state will evaluate against.
    pub closed spec fn spec_store(&self) -> Store {
        self.store
    }

    /// A builder for `store`: `create` calls `nix_eval_state_builder_new`
    /// with the store.
    pub fn new<F>(store: &Store, create: F) -> (r: NixideResult<Self>) where
        F: FnOnce(usize) -> (ErrorContext, usize),

        requires
            create.requires((store.spec_ptr(),)),
        ensures
            exists|ctx: ErrorContext, p: usize|
                #[trigger] create.ensures((store.spec_ptr(),), (ctx, p)) && match spec_nix_ptr_fn(
                    ctx@,
                    p,
                ) {
                    Err(e) => builder_result_view(r) == Err::<(usize, Store), NixideErrorView>(e),
                    Ok(b) => builder_result_view(r) == Ok::<(usize, Store), NixideErrorView>(
                        (b, *store),
                    ),
                },
    {
        let (ctx, ptr) = create(store.as_ptr());
        match nix_ptr_fn(ctx, ptr) {
            Ok(inner) => Ok(EvalStateBuilder { inner, store: *store }),
            Err(e) => Err(e),
        }
    }

    /// Builds the evaluation state: `load` calls
    /// `nix_eval_state_builder_load` with the builder, which loads the
    /// configuration; then `build` calls `nix_eval_state_build`. The first
    /// error stops it.
    pub fn build<L, B>(self, load: L, build: B) -> (r: NixideResult<EvalState>) where
        L: FnOnce(usize) -> ErrorContext,
        B: FnOnce(usize) -> (ErrorContext, usize),

        requires
            load.requires((self.spec_ptr(),)),
            build.requires((self.spec_ptr(),)),
        ensures
            exists|lctx: ErrorContext|
                #[trigger] load.ensures((self.spec_ptr(),), lctx) && match spec_nix_fn(lctx@, ()) {
                    Err(e) => state_result_view(r) == Err::<(usize, Store), NixideErrorView>(e),
                    Ok(()) => exists|ctx: ErrorContext, p: usize|
                        #[trigger] build.ensures((self.spec_ptr(),), (ctx, p)) && match spec_nix_ptr_fn(
                            ctx@,
                            p,
                        ) {
                            Err(e) => state_result_view(r) == Err::<(usize, Store), NixideErrorView>(
                                e,
                            ),
                            Ok(s) => state_result_view(r) == Ok::<(usize, Store), NixideErrorView>(
                                (s, self.spec_store()),
                            ),
                        },
                },
    {
        let lctx = load(self.as_ptr());
        match nix_fn(lctx, ()) {
            Ok(()) => {},
            Err(e) => return Err(e),
        }
        let (ctx, ptr) = build(self.as_ptr());
        match nix_ptr_fn(ctx, ptr) {
            Ok(inner) => Ok(EvalState::new(inner, self.store)),
            Err(e) => Err(e),
        }
    }

    /// Sets the lookup path (`NIX_PATH` entries such as `nixpkgs=/path`):
    /// `set` calls `nix_eval_state_builder_set_lookup_path` with the
    /// builder and the entries as C strings. No entry may hold a NUL
    /// character. The builder is handed back unless the call failed.
    pub fn set_lookup_path<F>(self, paths: Vec<&str>, set: F) -> (r: NixideResult<Self>) where
        F: FnOnce(usize, Vec<Vec<u8>>) -> ErrorContext,

        requires
            forall|i: int| 0 <= i < paths@.len() ==> !(#[trigger] paths@[i])@.contains('\0'),
            forall|cs: Vec<Vec<u8>>|
                views_of(cs@) == spec_c_paths(paths@) ==> #[trigger] set.requires(
                    (self.spec_ptr(), cs),
                ),
        ensures
            exists|cs: Vec<Vec<u8>>, ctx: ErrorContext|
                views_of(cs@) == spec_c_paths(paths@) && #[trigger] set.ensures(
                    (self.spec_ptr(), cs),
                    ctx,
                ) && match spec_nix_fn(ctx@, ()) {
                    Err(e) => builder_result_view(r) == Err::<(usize, Store), NixideErrorView>(e),
                    Ok(()) => builder_result_view(r) == Ok::<(usize, Store), NixideErrorView>(
                        (self.spec_ptr(), self.spec_store()),
                    ),
                },
    {
        let mut cs: Vec<Vec<u8>> = Vec::new();
        let mut i: usize = 0;
        while i < paths.len()
            invariant
                i <= paths@.len(),
                forall|k: int| 0 <= k < paths@.len() ==> !(#[trigger] paths@[k])@.contains('\0'),
                cs@.len() == i,
                forall|k: int| 0 <= k < i ==> (#[trigger] cs@[k])@ == utf8_bytes(paths@[k]@).push(0u8),
            decreases paths@.len() - i,
        {
            let c = match str_to_c_string(paths[i]) {
                Ok(c) => c,
                Err(_) => {
                    assert(paths@[i as int]@.contains('\0'));
                    assert(false);
                    Vec::new()
                },
            };
            cs.push(c);
            i = i + 1;
        }
        assert(views_of(cs@) =~= spec_c_paths(paths@));
        let ctx = set(self.as_ptr(), cs);
        match nix_fn(ctx, ()) {
            Ok(()) => Ok(self),
            Err(e) => Err(e),
        }
    }
}

impl AsInnerPtr for EvalStateBuilder {
    closed spec fn spec_ptr(&self) -> usize {
        self.inner
    }

    fn as_ptr(&self) -> (p: usize) {
        self.inner
    }
}

/// The lookup path handed to libnix has one C string per entry, in the
/// entries' order: entry `i`'s UTF-8 bytes, which decode back to the entry,
/// followed by a NUL.
pub proof fn lemma_c_paths_one_per_entry(paths: Seq<&str>)
    ensures
        spec_c_paths(paths).len() == paths.len(),
        forall|i: int|
            0 <= i < paths.len() ==> (#[trigger] spec_c_paths(paths)[i]).last() == 0u8
                && spec_c_paths(paths)[i].drop_last() == utf8_bytes(paths[i]@)
                && decode_utf8(spec_c_paths(paths)[i].drop_last()) == paths[i]@,
{
    assert forall|i: int| 0 <= i < paths.len() implies (#[trigger] spec_c_paths(paths)[i]).last()
        == 0u8 && spec_c_paths(paths)[i].drop_last() == utf8_bytes(paths[i]@) && decode_utf8(
        spec_c_paths(paths)[i].drop_last(),
    ) == paths[i]@ by {
        assert(spec_c_paths(paths)[i].drop_last() =~= utf8_bytes(paths[i]@));
        vstd::utf8::encode_utf8_decode_utf8(paths[i]@);
    }
}

} // verus!
