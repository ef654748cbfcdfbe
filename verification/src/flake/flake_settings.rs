//! Settings of the flakes feature.

use vstd::prelude::*;

use crate::errors::context::ErrorContext;
use crate::errors::error::NixideResult;
use crate::util::wrap::{nix_ptr_fn, ptr_result_view, spec_nix_ptr_fn};
use crate::util::wrappers::AsInnerPtr;
use crate::errors::error::result_view;
use crate::expr::EvalStateBuilder;
use crate::util::wrap::{nix_fn, spec_nix_fn};

verus! {

/// Settings of the flakes feature, held by their address.
pub struct FlakeSettings {
    inner: usize,
}

impl FlakeSettings {
    #[verifier::type_invariant]
    spec fn inv(self) -> bool {
        self.inner != 0
    }

    /// New settings: `create` calls `nix_flake_settings_new`.
    pub fn new<F>(create: F) -> (r: NixideResult<Self>) where F: FnOnce() -> (ErrorContext, usize)
        requires
            create.requires(()),
        ensures
            exists|ctx: ErrorContext, p: usize|
                #[trigger] create.ensures((), (ctx, p)) && ptr_result_view(r)
                    == spec_nix_ptr_fn(ctx@, p),
    {
        let (ctx, ptr) = create();
        match nix_ptr_fn(ctx, ptr) {
            Ok(inner) => Ok(FlakeSettings { inner }),
            Err(e) => Err(e),
        }
    }

    /// Configures `builder` to provide the flakes features (such as
    /// `builtins.getFlake`): `add` calls
    /// `nix_flake_settings_add_to_eval_state_builder` with the settings and
    /// the builder. The builder is left as it was.
    pub fn add_to_eval_state_builder<F>(&self, builder: &mut EvalStateBuilder, add_settings: F) -> (r:
        NixideResult<()>) where F: FnOnce(usize, usize) -> ErrorContext
        requires
            add_settings.requires((self.spec_ptr(), old(builder).spec_ptr())),
        ensures
            *final(builder) == *old(builder),
            exists|ctx: ErrorContext|
                #[trigger] add_settings.ensures((self.spec_ptr(), old(builder).spec_ptr()), ctx)
                    && result_view(r) == spec_nix_fn(ctx@, ()),
    {
        let ctx = add_settings(self.as_ptr(), builder.as_ptr());
        nix_fn(ctx, ())
    }
}

impl AsInnerPtr for FlakeSettings {
    closed spec fn spec_ptr(&self) -> usize {
        self.inner
    }

    fn as_ptr(&self) -> (p: usize) {
        self.inner
    }
}

} // verus!
