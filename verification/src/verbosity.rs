//! The verbosity of libnix's logging.

use vstd::prelude::*;

use crate::errors::context::{spec_peak, ErrorContext};

verus! {

/// Verbosity levels, from the least to the most verbose.
#[derive(Debug, Clone, Copy, PartialEq, Eq, Structural)]
pub enum NixVerbosity {
    Error,
    Warn,
    Notice,
    Info,
    Talkative,
    Chatty,
    Debug,
    Vomit,
}

/// The libnix code of a verbosity level (`NIX_LVL_ERROR` is 0, up to
/// `NIX_LVL_VOMIT`, 7).
pub open spec fn spec_verbosity_code(level: NixVerbosity) -> i32 {
    match level {
        NixVerbosity::Error => 0,
        NixVerbosity::Warn => 1,
        NixVerbosity::Notice => 2,
        NixVerbosity::Info => 3,
        NixVerbosity::Talkative => 4,
        NixVerbosity::Chatty => 5,
        NixVerbosity::Debug => 6,
        NixVerbosity::Vomit => 7,
    }
}

impl NixVerbosity {
    /// The libnix code of the level.
    pub fn code(&self) -> (c: i32)
        ensures
            c == spec_verbosity_code(*self),
    {
        match self {
            NixVerbosity::Error => 0,
            NixVerbosity::Warn => 1,
            NixVerbosity::Notice => 2,
            NixVerbosity::Info => 3,
            NixVerbosity::Talkative => 4,
            NixVerbosity::Chatty => 5,
            NixVerbosity::Debug => 6,
            NixVerbosity::Vomit => 7,
        }
    }
}

/// Sets the verbosity level: `set` calls `nix_set_verbosity` with the
/// level's code. libnix fails only for a code out of range, which a level
/// never has, so the call must not fail.
pub fn set_verbosity<F>(level: NixVerbosity, set: F) where F: FnOnce(i32) -> ErrorContext
    requires
        set.requires((spec_verbosity_code(level),)),
        forall|ctx: ErrorContext| #[trigger]
            set.ensures((spec_verbosity_code(level),), ctx) ==> spec_peak(ctx@) is Ok,
    ensures
        exists|ctx: ErrorContext| #[trigger] set.ensures((spec_verbosity_code(level),), ctx),
{
    let mut ctx = set(level.code());
    match ctx.pop() {
        Ok(()) => {},
        Err(_) => {
            assert(false);
        },
    }
}

/// Each level's code is its value in libnix's `nix_verbosity` enum
/// (`NIX_LVL_ERROR` 0, `NIX_LVL_WARN` 1, `NIX_LVL_NOTICE` 2, `NIX_LVL_INFO`
/// 3, `NIX_LVL_TALKATIVE` 4, `NIX_LVL_CHATTY` 5, `NIX_LVL_DEBUG` 6,
/// `NIX_LVL_VOMIT` 7), so the codes rise with verbosity and two levels
/// never share a code.
pub proof fn lemma_verbosity_codes(a: NixVerbosity, b: NixVerbosity)
    ensures
        spec_verbosity_code(NixVerbosity::Error) == 0,
        spec_verbosity_code(NixVerbosity::Warn) == 1,
        spec_verbosity_code(NixVerbosity::Notice) == 2,
        spec_verbosity_code(NixVerbosity::Info) == 3,
        spec_verbosity_code(NixVerbosity::Talkative) == 4,
        spec_verbosity_code(NixVerbosity::Chatty) == 5,
        spec_verbosity_code(NixVerbosity::Debug) == 6,
        spec_verbosity_code(NixVerbosity::Vomit) == 7,
        0 <= spec_verbosity_code(a) <= 7,
        spec_verbosity_code(a) == spec_verbosity_code(b) ==> a == b,
{
}

} // verus!
