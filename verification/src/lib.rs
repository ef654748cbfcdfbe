//! Verified core of a safe interface to the libnix C API.
//!
//! Every libnix object is held here by its address (a `usize`, never zero
//! once wrapped), and every libnix call is performed by a closure that the
//! caller hands in. What this crate decides around those calls (how error
//! codes map to errors, when a null result is an error, how C strings are
//! checked and decoded, how values are classified and printed) is verified.

pub mod context;
pub mod error;
pub mod errors;
pub mod expr;
pub mod flake;
pub mod init;
pub mod nix_settings;
pub mod stdext;
pub mod store;
pub mod util;
pub mod verbosity;

pub use errors::{NixError, NixideError, NixideResult};
