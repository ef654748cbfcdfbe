//! Settings of the fetchers.

use vstd::prelude::*;

use crate::errors::context::ErrorContext;
use crate::errors::error::NixideResult;
use crate::util::wrap::{nix_ptr_fn, ptr_result_view, spec_nix_ptr_fn};
use crate::util::wrappers::AsInnerPtr;

verus! {

/// Settings of the fetchers, held by their address.
pub struct FetchersSettings {
    inner: usize,
}

impl FetchersSettings {
    #[verifier::type_invariant]
    spec fn inv(self) -> bool {
        self.inner != 0
    }

    /// New settings: `create` calls `nix_fetchers_settings_new`.
    pub fn new<F>(create: F) -> (r: NixideResult<Self>) where F: FnOnce() -> (ErrorContext, usize)
        requires
            create.requires(()),
        ensures
            exists|ctx: ErrorContext, p: usize|
                #[trigger] create.ensures((), (ctx, p)) && ptr_result_view(r)
                    == spec_nix_ptr_fn(ctx@, p),
    {
        let (ctx, ptr) = create();
        match nix_ptr_fn(ctx, ptr) {
            Ok(inner) => Ok(FetchersSettings { inner }),
            Err(e) => Err(e),
        }
    }
}

impl AsInnerPtr for FetchersSettings {
    closed spec fn spec_ptr(&self) -> usize {
        self.inner
    }

    fn as_ptr(&self) -> (p: usize) {
        self.inner
    }
}

} // verus!
