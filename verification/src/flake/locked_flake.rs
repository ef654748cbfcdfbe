//! Locked flakes.

use vstd::prelude::*;

use super::fetchers_settings::FetchersSettings;
use super::flake_lock_flags::FlakeLockFlags;
use super::flake_reference::FlakeRef;
use super::flake_settings::FlakeSettings;
use crate::errors::context::ErrorContext;
use crate::errors::error::{NixideErrorView, NixideResult};
use crate::expr::eval_state::{value_result_view, EvalState};
use crate::expr::values::Value;
use crate::util::wrap::{nix_ptr_fn, ptr_result_view, spec_nix_ptr_fn};
use crate::util::wrappers::AsInnerPtr;

verus! {

/// A locked flake, held by its address, with what it was locked with.
pub struct LockedFlake {
    inner: usize,
    flakeref: FlakeRef,
    state: usize,
    lock_flags: FlakeLockFlags,
    fetch_settings: FetchersSettings,
    flake_settings: FlakeSettings,
}

impl LockedFlake {
    #[verifier::type_invariant]
    spec fn inv(self) -> bool {
        self.inner != 0
    }

    /// The address of the evaluation state the flake was locked in.
    pub closed spec fn spec_state(&self) -> usize {
        self.state
    }

    /// The address of the flake settings the flake was locked with.
    pub closed spec fn spec_settings(&self) -> usize {
        self.flake_settings.spec_ptr()
    }

    /// Locks the flake that `flakeref` refers to, in `state`, with
    /// `lock_flags`. New fetcher settings and flake settings are made first,
    /// and the first of them that fails ends it with its error; then `lock`
    /// calls `nix_flake_lock` with the fetcher settings, the flake settings,
    /// the state, the lock parameters and the reference.
    pub fn lock<A, B, L>(
        lock_flags: FlakeLockFlags,
        flakeref: FlakeRef,
        state: &EvalState,
        make_fetchers: A,
        make_settings: B,
        lock: L,
    ) -> (r: NixideResult<LockedFlake>) where
        A: FnOnce() -> NixideResult<FetchersSettings>,
        B: FnOnce() -> NixideResult<FlakeSettings>,
        L: FnOnce(usize, usize, usize, usize, usize) -> (ErrorContext, usize),

        requires
            make_fetchers.requires(()),
            make_settings.requires(()),
            forall|f: usize, s: usize|
                #[trigger] lock.requires(
                    (f, s, state.spec_ptr(), lock_flags.spec_ptr(), flakeref.spec_ptr()),
                ),
        ensures
            exists|ra: NixideResult<FetchersSettings>|
                #[trigger] make_fetchers.ensures((), ra) && match ra {
                    Err(e) => ptr_result_view(r) == Err::<usize, NixideErrorView>(e@),
                    Ok(fs) => exists|rb: NixideResult<FlakeSettings>|
                        #[trigger] make_settings.ensures((), rb) && match rb {
                            Err(e) => ptr_result_view(r) == Err::<usize, NixideErrorView>(e@),
                            Ok(ss) => exists|ctx: ErrorContext, p: usize|
                                #[trigger] lock.ensures(
                                    (
                                        fs.spec_ptr(),
                                        ss.spec_ptr(),
                                        state.spec_ptr(),
                                        lock_flags.spec_ptr(),
                                        flakeref.spec_ptr(),
                                    ),
                                    (ctx, p),
                                ) && ptr_result_view(r) == spec_nix_ptr_fn(ctx@, p) && (r matches Ok(
                                    lf,
                                ) ==> lf.spec_state() == state.spec_ptr() && lf.spec_settings()
                                    == ss.spec_ptr()),
                        },
                },
    {
        let fetch_settings = match make_fetchers() {
            Ok(s) => s,
            Err(e) => return Err(e),
        };
        let flake_settings = match make_settings() {
            Ok(s) => s,
            Err(e) => return Err(e),
        };
        let st = state.as_ptr();
        let (ctx, ptr) = lock(
            fetch_settings.as_ptr(),
            flake_settings.as_ptr(),
            st,
            lock_flags.as_ptr(),
            flakeref.as_ptr(),
        );
        match nix_ptr_fn(ctx, ptr) {
            Ok(inner) => Ok(
                LockedFlake {
                    inner,
                    flakeref,
                    state: st,
                    lock_flags,
                    fetch_settings,
                    flake_settings,
                },
            ),
            Err(e) => Err(e),
        }
    }

    /// The outputs of the flake, the result of calling its `outputs`
    /// attribute: `get` calls `nix_locked_flake_get_output_attrs` with the
    /// flake settings, the state and the locked flake; `read` reads the
    /// value it returned.
    pub fn outputs<G, R>(&self, get: G, read: R) -> (r: NixideResult<Value>) where
        G: FnOnce(usize, usize, usize) -> (ErrorContext, usize),
        R: FnOnce(usize, usize) -> Value,

        requires
            get.requires((self.spec_settings(), self.spec_state(), self.spec_ptr())),
            forall|v: usize| #[trigger] read.requires((v, self.spec_state())),
        ensures
            exists|ctx: ErrorContext, p: usize|
                #[trigger] get.ensures(
                    (self.spec_settings(), self.spec_state(), self.spec_ptr()),
                    (ctx, p),
                ) && match spec_nix_ptr_fn(ctx@, p) {
                    Err(e) => value_result_view(r) == Err::<Value, NixideErrorView>(e),
                    Ok(v) => r matches Ok(val) && read.ensures((v, self.spec_state()), val),
                },
    {
        let (ctx, ptr) = get(self.flake_settings.as_ptr(), self.state, self.inner);
        match nix_ptr_fn(ctx, ptr) {
            Ok(v) => Ok(read(v, self.state)),
            Err(e) => Err(e),
        }
    }
}

impl AsInnerPtr for LockedFlake {
    closed spec fn spec_ptr(&self) -> usize {
        self.inner
    }

    fn as_ptr(&self) -> (p: usize) {
        self.inner
    }
}

} // verus!
