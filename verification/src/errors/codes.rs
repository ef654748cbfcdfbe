//! The `nix_err` codes of the libnix C API (a C `int`).

use vstd::prelude::*;

verus! {

/// `NIX_OK`: the call succeeded.
pub const NIX_OK: i32 = 0;

/// `NIX_ERR_UNKNOWN`: an unknown error occurred.
pub const NIX_ERR_UNKNOWN: i32 = -1;

/// `NIX_ERR_OVERFLOW`: an overflow error occurred.
pub const NIX_ERR_OVERFLOW: i32 = -2;

/// `NIX_ERR_KEY`: a key, index or name that does not exist was accessed.
pub const NIX_ERR_KEY: i32 = -3;

/// `NIX_ERR_NIX_ERROR`: a generic Nix error, raised while evaluating.
pub const NIX_ERR_NIX_ERROR: i32 = -4;

} // verus!
