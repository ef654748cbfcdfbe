//! Flakes features for the evaluation state.

use vstd::prelude::*;

use super::flake_settings::FlakeSettings;
use crate::errors::context::ErrorContext;
use crate::errors::error::{NixideErrorView, NixideResult};
use crate::expr::eval_state_builder::{builder_result_view, EvalStateBuilder};
use crate::util::wrap::spec_nix_fn;
use crate::util::wrappers::AsInnerPtr;

verus! {

/// Flakes features for an evaluation state builder.
pub trait EvalStateBuilderExt: Sized + AsInnerPtr {
    /// Configures the evaluation state to provide the flakes features, such
    /// as `builtins.getFlake`: `add` calls
    /// `nix_flake_settings_add_to_eval_state_builder` with the settings and
    /// the builder; the builder is handed back unless the call failed.
    fn flakes<F>(self, settings: &FlakeSettings, add_settings: F) -> (r: NixideResult<EvalStateBuilder>) where
        F: FnOnce(usize, usize) -> ErrorContext,

        requires
            add_settings.requires((settings.spec_ptr(), self.spec_ptr())),
    ;
}

impl EvalStateBuilderExt for EvalStateBuilder {
    fn flakes<F>(self, settings: &FlakeSettings, add_settings: F) -> (r: NixideResult<EvalStateBuilder>) where
        F: FnOnce(usize, usize) -> ErrorContext,

        ensures
            exists|ctx: ErrorContext|
                #[trigger] add_settings.ensures((settings.spec_ptr(), self.spec_ptr()), ctx) && match spec_nix_fn(
                    ctx@,
                    (),
                ) {
                    Err(e) => builder_result_view(r) == Err::<
                        (usize, crate::store::Store),
                        NixideErrorView,
                    >(e),
                    Ok(()) => builder_result_view(r) == Ok::<
                        (usize, crate::store::Store),
                        NixideErrorView,
                    >((self.spec_ptr(), self.spec_store())),
                },
    {
        let mut builder = self;
        match settings.add_to_eval_state_builder(&mut builder, add_settings) {
            Ok(()) => Ok(builder),
            Err(e) => Err(e),
        }
    }
}

} // verus!
