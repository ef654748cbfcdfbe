//! Error codes of the libnix C API, the errors of this crate, and the
//! model of a libnix error context.

pub mod codes;
pub mod context;
pub mod error;
pub mod nix_error;

pub use codes::{NIX_ERR_KEY, NIX_ERR_NIX_ERROR, NIX_ERR_OVERFLOW, NIX_ERR_UNKNOWN, NIX_OK};
pub use context::ErrorContext;
pub use error::{AsErr, NixideError, NixideErrorView, NixideResult};
pub use nix_error::{NixError, NixErrorView};
