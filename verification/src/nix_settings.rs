//! libnix's global settings.
//!
//! These are discouraged: prefer [`crate::flake::FlakeSettings`] and
//! [`crate::flake::FetchersSettings`].

use vstd::prelude::*;

use crate::errors::context::ErrorContext;
use crate::errors::error::{result_view, string_result_view, NixideErrorView, NixideResult};
use crate::stdext::cchar_ptr_ext::{spec_as_c_ptr, str_to_c_string};
use crate::util::wrap::{
    nix_fn, nix_string_callback, opt_bytes, spec_nix_fn, spec_nix_string_callback,
};

verus! {

/// The value of the global setting `key`: `get` calls `nix_setting_get`
/// with the key as a C string and returns the context and the string it
/// was handed. `StringNulByte` if the key holds a NUL character (no call
/// is made).
pub fn get_global_setting<F>(key: &str, get: F) -> (r: NixideResult<String>) where
    F: FnOnce(Vec<u8>) -> (ErrorContext, Option<Vec<u8>>),

    requires
        forall|c: Vec<u8>|
            spec_as_c_ptr(key@) == Ok::<Seq<u8>, NixideErrorView>(c@) ==> #[trigger] get.requires(
                (c,),
            ),
    ensures
        match spec_as_c_ptr(key@) {
            Err(e) => string_result_view(r) == Err::<Seq<char>, NixideErrorView>(e),
            Ok(bytes) => exists|c: Vec<u8>, ctx: ErrorContext, d: Option<Vec<u8>>|
                c@ == bytes && #[trigger] get.ensures((c,), (ctx, d)) && string_result_view(r)
                    == spec_nix_string_callback(ctx@, opt_bytes(d)),
        },
{
    let c_key = match str_to_c_string(key) {
        Ok(c) => c,
        Err(e) => return Err(e),
    };
    let (ctx, d) = get(c_key);
    nix_string_callback(ctx, d)
}

/// Sets the global setting `key` to `value`: `set` calls `nix_setting_set`
/// with both as C strings. `StringNulByte` if either holds a NUL character
/// (no call is made).
pub fn set_global_setting<F>(key: &str, value: &str, set: F) -> (r: NixideResult<()>) where
    F: FnOnce(Vec<u8>, Vec<u8>) -> ErrorContext,

    requires
        forall|k: Vec<u8>, v: Vec<u8>|
            spec_as_c_ptr(key@) == Ok::<Seq<u8>, NixideErrorView>(k@) && spec_as_c_ptr(value@)
                == Ok::<Seq<u8>, NixideErrorView>(v@) ==> #[trigger] set.requires((k, v)),
    ensures
        match (spec_as_c_ptr(key@), spec_as_c_ptr(value@)) {
            (Err(e), _) => result_view(r) == Err::<(), NixideErrorView>(e),
            (Ok(_), Err(e)) => result_view(r) == Err::<(), NixideErrorView>(e),
            (Ok(kb), Ok(vb)) => exists|k: Vec<u8>, v: Vec<u8>, ctx: ErrorContext|
                k@ == kb && v@ == vb && #[trigger] set.ensures((k, v), ctx) && result_view(r)
                    == spec_nix_fn(ctx@, ()),
        },
{
    let c_key = match str_to_c_string(key) {
        Ok(c) => c,
        Err(e) => return Err(e),
    };
    let c_value = match str_to_c_string(value) {
        Ok(c) => c,
        Err(e) => return Err(e),
    };
    let ctx = set(c_key, c_value);
    nix_fn(ctx, ())
}

} // verus!
