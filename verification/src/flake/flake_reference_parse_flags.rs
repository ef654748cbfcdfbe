//! Parameters for parsing a flake reference.

use vstd::prelude::*;

use crate::errors::context::ErrorContext;
use crate::errors::error::NixideResult;
use crate::util::wrap::{nix_ptr_fn, ptr_result_view, spec_nix_ptr_fn};
use crate::util::wrappers::AsInnerPtr;
use super::flake_settings::FlakeSettings;
use vstd::string::StrSliceExecFns;

use crate::errors::error::result_view;
use crate::stdext::cchar_ptr_ext::utf8_bytes;
use crate::util::wrap::{nix_fn, spec_nix_fn};

verus! {

/// Parameters for parsing a flake reference, held by their address.
pub struct FlakeReferenceParseFlags {
    inner: usize,
}

impl FlakeReferenceParseFlags {
    #[verifier::type_invariant]
    spec fn inv(self) -> bool {
        self.inner != 0
    }

    /// New parameters for `settings`: `create` calls `nix_flake_reference_parse_flags_new`.
    pub fn new<F>(settings: &FlakeSettings, create: F) -> (r: NixideResult<Self>) where F: FnOnce(usize) -> (ErrorContext, usize)
        requires
            create.requires((settings.spec_ptr(),)),
        ensures
            exists|ctx: ErrorContext, p: usize|
                #[trigger] create.ensures((settings.spec_ptr(),), (ctx, p)) && ptr_result_view(r)
                    == spec_nix_ptr_fn(ctx@, p),
    {
        let (ctx, ptr) = create(settings.as_ptr());
        match nix_ptr_fn(ctx, ptr) {
            Ok(inner) => Ok(FlakeReferenceParseFlags { inner }),
            Err(e) => Err(e),
        }
    }

    /// Sets the base directory for resolving local flake references: `set`
    /// calls `nix_flake_reference_parse_flags_set_base_directory` with the
    /// parameters and the directory's UTF-8 bytes and their number.
    pub fn set_base_directory<F>(&mut self, base_directory: &str, set: F) -> (r: NixideResult<()>) where
        F: FnOnce(usize, Vec<u8>, usize) -> ErrorContext,

        requires
            forall|b: Vec<u8>| b@ == utf8_bytes(base_directory@) ==> #[trigger] set.requires(
                (old(self).spec_ptr(), b, b@.len() as usize),
            ),
        ensures
            *final(self) == *old(self),
            exists|b: Vec<u8>, ctx: ErrorContext|
                b@ == utf8_bytes(base_directory@) && #[trigger] set.ensures(
                    (old(self).spec_ptr(), b, b@.len() as usize),
                    ctx,
                ) && result_view(r) == spec_nix_fn(ctx@, ()),
    {
        let bytes = base_directory.as_bytes_vec();
        let n = bytes.len();
        let ghost gb = bytes;
        let p = self.as_ptr();
        assert(n == gb@.len() as usize);
        let ctx = set(p, bytes, n);
        assert(set.ensures((old(self).spec_ptr(), gb, gb@.len() as usize), ctx));
        nix_fn(ctx, ())
    }
}

impl AsInnerPtr for FlakeReferenceParseFlags {
    closed spec fn spec_ptr(&self) -> usize {
        self.inner
    }

    fn as_ptr(&self) -> (p: usize) {
        self.inner
    }
}

} // verus!
