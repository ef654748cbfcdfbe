//! Parameters that affect the locking of a flake.

use vstd::prelude::*;

use crate::errors::context::ErrorContext;
use crate::errors::error::NixideResult;
use crate::util::wrap::{nix_ptr_fn, ptr_result_view, spec_nix_ptr_fn};
use crate::util::wrappers::AsInnerPtr;
use super::flake_settings::FlakeSettings;
use super::flake_reference::FlakeRef;
use crate::errors::error::{result_view, NixideErrorView};
use crate::stdext::cchar_ptr_ext::{spec_as_c_ptr, str_to_c_string};
use crate::util::wrap::{nix_fn, spec_nix_fn};

verus! {

/// How locking a flake treats its lock file.
#[derive(Debug, Clone, Copy, PartialEq, Eq, Structural)]
pub enum FlakeLockMode {
    /// Makes incremental changes to the lock file as needed, and writes them.
    WriteAsNeeded,
    /// As [`FlakeLockMode::WriteAsNeeded`], but does not write the lock file.
    Virtual,
    /// Checks that the lock file is up to date; an error if it is not.
    Check,
}


/// Parameters that affect the locking of a flake, held by their address.
pub struct FlakeLockFlags {
    inner: usize,
}

impl FlakeLockFlags {
    #[verifier::type_invariant]
    spec fn inv(self) -> bool {
        self.inner != 0
    }

    /// New parameters for `settings`: `create` calls `nix_flake_lock_flags_new`.
    pub fn new<F>(settings: &FlakeSettings, create: F) -> (r: NixideResult<Self>) where F: FnOnce(usize) -> (ErrorContext, usize)
        requires
            create.requires((settings.spec_ptr(),)),
        ensures
            exists|ctx: ErrorContext, p: usize|
                #[trigger] create.ensures((settings.spec_ptr(),), (ctx, p)) && ptr_result_view(r)
                    == spec_nix_ptr_fn(ctx@, p),
    {
        let (ctx, ptr) = create(settings.as_ptr());
        match nix_ptr_fn(ctx, ptr) {
            Ok(inner) => Ok(FlakeLockFlags { inner }),
            Err(e) => Err(e),
        }
    }

    /// Sets how locking treats the lock file: exactly one of the calls is
    /// made, the one for `mode` (`nix_flake_lock_flags_set_mode_write_as_needed`,
    /// `..._virtual` or `..._check`), with the parameters.
    pub fn set_mode<W, V, C>(
        &mut self,
        mode: &FlakeLockMode,
        write_as_needed: W,
        virtual_mode: V,
        check: C,
    ) -> (r: NixideResult<()>) where
        W: FnOnce(usize) -> ErrorContext,
        V: FnOnce(usize) -> ErrorContext,
        C: FnOnce(usize) -> ErrorContext,

        requires
            *mode == FlakeLockMode::WriteAsNeeded ==> write_as_needed.requires((old(self).spec_ptr(),)),
            *mode == FlakeLockMode::Virtual ==> virtual_mode.requires((old(self).spec_ptr(),)),
            *mode == FlakeLockMode::Check ==> check.requires((old(self).spec_ptr(),)),
        ensures
            *final(self) == *old(self),
            exists|ctx: ErrorContext|
                (match *mode {
                    FlakeLockMode::WriteAsNeeded => write_as_needed.ensures(
                        (old(self).spec_ptr(),),
                        ctx,
                    ),
                    FlakeLockMode::Virtual => virtual_mode.ensures((old(self).spec_ptr(),), ctx),
                    FlakeLockMode::Check => check.ensures((old(self).spec_ptr(),), ctx),
                }) && result_view(r) == spec_nix_fn(ctx@, ()),
    {
        let p = self.as_ptr();
        let ctx = match mode {
            FlakeLockMode::WriteAsNeeded => write_as_needed(p),
            FlakeLockMode::Virtual => virtual_mode(p),
            FlakeLockMode::Check => check(p),
        };
        nix_fn(ctx, ())
    }

    /// Adds an override of the input `path` by `flakeref` to the lock file
    /// that locking produces (locking then no longer writes the lock file,
    /// unless the mode is [`FlakeLockMode::Check`]): `add` calls
    /// `nix_flake_lock_flags_add_input_override` with the parameters, the
    /// input path as a C string and the flake reference.
    /// `StringNulByte` if the path holds a NUL character (no call is made).
    pub fn override_input<F>(&mut self, path: &str, flakeref: &FlakeRef, add_override: F) -> (r: NixideResult<
        (),
    >) where F: FnOnce(usize, Vec<u8>, usize) -> ErrorContext
        requires
            forall|c: Vec<u8>|
                spec_as_c_ptr(path@) == Ok::<Seq<u8>, NixideErrorView>(c@) ==> #[trigger] add_override.requires(
                    (old(self).spec_ptr(), c, flakeref.spec_ptr()),
                ),
        ensures
            *final(self) == *old(self),
            match spec_as_c_ptr(path@) {
                Err(e) => result_view(r) == Err::<(), NixideErrorView>(e),
                Ok(bytes) => exists|c: Vec<u8>, ctx: ErrorContext|
                    c@ == bytes && #[trigger] add_override.ensures(
                        (old(self).spec_ptr(), c, flakeref.spec_ptr()),
                        ctx,
                    ) && result_view(r) == spec_nix_fn(ctx@, ()),
            },
    {
        let c_path = match str_to_c_string(path) {
            Ok(c) => c,
            Err(e) => return Err(e),
        };
        let ctx = add_override(self.as_ptr(), c_path, flakeref.as_ptr());
        nix_fn(ctx, ())
    }
}

impl AsInnerPtr for FlakeLockFlags {
    closed spec fn spec_ptr(&self) -> usize {
        self.inner
    }

    fn as_ptr(&self) -> (p: usize) {
        self.inner
    }
}

} // verus!
