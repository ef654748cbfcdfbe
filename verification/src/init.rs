//! The status of the initialization of libnix's global state.

use vstd::prelude::*;

use crate::errors::context::{spec_peak, ErrorContext, ErrorContextView};
use crate::errors::error::{result_view, NixideErrorView, NixideResult};
use crate::util::wrap::{nix_fn, spec_nix_fn};

verus! {

/// The view of an initialization status.
pub open spec fn status_view(s: Option<NixideResult<()>>) -> Option<Result<(), NixideErrorView>> {
    match s {
        Some(r) => Some(result_view(r)),
        None => None,
    }
}

/// The status after initializing one more library whose call left the
/// context `ctx`: a failed status is kept, else it becomes the call's
/// outcome.
pub open spec fn spec_next_status(
    status: Option<Result<(), NixideErrorView>>,
    ctx: ErrorContextView,
) -> Option<Result<(), NixideErrorView>> {
    match status {
        Some(Err(e)) => Some(Err(e)),
        _ => Some(spec_nix_fn(ctx, ())),
    }
}

/// Initializes one of libnix's libraries, unless an earlier one failed:
/// `init` calls its initialization with a fresh context and returns the
/// context. A failed status is kept as it is (and no call is made); else
/// the status becomes the outcome of the call.
pub fn update_init_status<F>(status: Option<NixideResult<()>>, init: F) -> (r: Option<
    NixideResult<()>,
>) where F: FnOnce() -> ErrorContext
    requires
        !(status matches Some(Err(_))) ==> init.requires(()),
    ensures
        status matches Some(Err(_)) ==> status_view(r) == status_view(status),
        !(status matches Some(Err(_))) ==> exists|ctx: ErrorContext|
            #[trigger] init.ensures((), ctx) && status_view(r) == spec_next_status(
                status_view(status),
                ctx@,
            ),
{
    match status {
        Some(Err(e)) => Some(Err(e)),
        _ => {
            let ctx = init();
            Some(nix_fn(ctx, ()))
        },
    }
}

/// Once an initialization has failed, the status stays failed with the
/// same error, whatever the later initializations leave in their
/// contexts.
pub proof fn lemma_failure_is_kept(e: NixideErrorView, c1: ErrorContextView, c2: ErrorContextView)
    ensures
        spec_next_status(Some(Err(e)), c1) == Some(Err::<(), NixideErrorView>(e)),
        spec_next_status(spec_next_status(Some(Err(e)), c1), c2) == Some(
            Err::<(), NixideErrorView>(e),
        ),
{
}

/// The status is `Ok` exactly when every initialization so far reported
/// no error: one more initialization keeps an `Ok` status `Ok` if and only
/// if its context holds no error.
pub proof fn lemma_ok_needs_clean_context(
    status: Option<Result<(), NixideErrorView>>,
    ctx: ErrorContextView,
)
    requires
        !(status matches Some(Err(_))),
    ensures
        spec_next_status(status, ctx) == Some(Ok::<(), NixideErrorView>(())) <==> spec_peak(ctx)
            is Ok,
{
}

} // verus!
