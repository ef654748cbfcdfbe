//! Running a libnix call that hands its result to a string callback.

use vstd::prelude::*;

use crate::errors::context::ErrorContext;
use crate::errors::error::{string_result_view, NixideResult};
use crate::util::wrap::{nix_string_callback, opt_bytes, spec_nix_string_callback};

verus! {

/// Runs `callback`, which makes a libnix call with a fresh error context
/// and returns that context together with the bytes that the call handed
/// to its string callback (`None` if it handed none); answers the
/// context's error, if any, else the string.
pub fn wrap_libnix_string_callback<F>(callback: F) -> (r: NixideResult<String>) where
    F: FnOnce() -> (ErrorContext, Option<Vec<u8>>),

    requires
        callback.requires(()),
    ensures
        exists|ctx: ErrorContext, delivered: Option<Vec<u8>>|
            #[trigger] callback.ensures((), (ctx, delivered)) && string_result_view(r)
                == spec_nix_string_callback(ctx@, opt_bytes(delivered)),
{
    let (ctx, delivered) = callback();
    nix_string_callback(ctx, delivered)
}

/// As [`wrap_libnix_string_callback`], for a string that names a path.
pub fn wrap_libnix_pathbuf_callback<F>(callback: F) -> (r: NixideResult<String>) where
    F: FnOnce() -> (ErrorContext, Option<Vec<u8>>),

    requires
        callback.requires(()),
    ensures
        exists|ctx: ErrorContext, delivered: Option<Vec<u8>>|
            #[trigger] callback.ensures((), (ctx, delivered)) && string_result_view(r)
                == spec_nix_string_callback(ctx@, opt_bytes(delivered)),
{
    wrap_libnix_string_callback(callback)
}

} // verus!
