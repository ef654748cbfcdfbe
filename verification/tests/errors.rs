//! Error codes, error contexts and how errors are displayed.

use nixide::error::NixError as CallError;
use nixide::errors::{
    AsErr, ErrorContext, NixError, NixideError, NIX_ERR_KEY, NIX_ERR_NIX_ERROR, NIX_ERR_OVERFLOW,
    NIX_ERR_UNKNOWN, NIX_OK,
};
use nixide::init::update_init_status;
use nixide::util::wrap::{nix_fn, nix_ptr_fn, nonnull};

fn failed(code: i32, msg: &str) -> ErrorContext {
    let mut ctx = ErrorContext::new();
    ctx.set_err_msg(code, msg);
    ctx
}

#[test]
fn fresh_context_reports_nothing() {
    let ctx = ErrorContext::new();
    assert_eq!(ctx.get_err(), None);
    assert_eq!(ctx.get_msg(), None);
    assert_eq!(ctx.get_nix_err_name(), None);
    assert_eq!(ctx.get_nix_err_info_msg(), None);
    assert!(ctx.to_error().is_none());
    assert!(ctx.peak().is_ok());
}

#[test]
fn context_error_carries_code_and_message() {
    let ctx = failed(NIX_ERR_KEY, "no such attribute");
    assert_eq!(ctx.get_err(), Some(NIX_ERR_KEY));
    assert_eq!(ctx.get_msg(), Some("no such attribute".to_string()));
    match ctx.peak() {
        Err(NixideError::NixError { trace, inner, err, msg }) => {
            assert_eq!(trace, "nixide::errors::ErrorContext::peak");
            assert_eq!(inner, NIX_ERR_KEY);
            assert!(matches!(err, NixError::KeyNotFound(None)));
            assert_eq!(err.err_code(), NIX_ERR_KEY);
            assert_eq!(msg, "no such attribute");
        },
        _ => panic!("expected a libnix error"),
    }
}

#[test]
fn context_codes_map_to_variants() {
    let cases: [(i32, fn(&NixError) -> bool); 3] = [
        (NIX_ERR_OVERFLOW, |e| matches!(e, NixError::Overflow)),
        (NIX_ERR_UNKNOWN, |e| matches!(e, NixError::Unknown)),
        (-42, |e| matches!(e, NixError::Undocumented(-42))),
    ];
    for (code, is_expected) in cases {
        match failed(code, "boom").to_error() {
            Some(NixideError::NixError { inner, err, .. }) => {
                assert_eq!(inner, code);
                assert!(is_expected(&err));
                assert_eq!(err.err_code(), code);
            },
            _ => panic!("expected a libnix error"),
        }
    }
}

#[test]
fn evaluation_error_keeps_name_and_info() {
    let mut ctx = ErrorContext::new();
    ctx.set_nix_error("EvalError", "undefined variable 'x'", "error: undefined variable 'x'");
    assert_eq!(ctx.get_err(), Some(NIX_ERR_NIX_ERROR));
    assert_eq!(ctx.get_nix_err_name(), Some("EvalError".to_string()));
    assert_eq!(ctx.get_nix_err_info_msg(), Some("undefined variable 'x'".to_string()));
    let e = ctx.to_error().unwrap();
    assert_eq!(
        e.to_string(),
        "[nixide ~ nixide::errors::ErrorContext::peak][libnix] NixExpr evaluation failed \
         [name=\"EvalError\", info_msg=\"undefined variable 'x'\"] (nix_err=-4): error: undefined variable 'x'"
    );
}

#[test]
fn pop_answers_the_peek_then_clears() {
    let mut ctx = failed(NIX_ERR_OVERFLOW, "too big");
    let peeked = ctx.peak();
    let popped = ctx.pop();
    assert_eq!(peeked.unwrap_err().to_string(), popped.unwrap_err().to_string());
    assert_eq!(ctx.get_err(), None);
    assert!(ctx.peak().is_ok());
    assert!(ctx.pop().is_ok());
}

#[test]
fn clear_keeps_the_message_in_place() {
    let mut ctx = failed(NIX_ERR_UNKNOWN, "kept");
    ctx.clear();
    assert!(ctx.peak().is_ok());
    let restored = ErrorContext::from_parts(NIX_ERR_UNKNOWN, Some("kept".to_string()), String::new(), None);
    assert_eq!(restored.get_msg(), Some("kept".to_string()));
}

#[test]
fn nix_error_messages() {
    assert_eq!(NixError::Overflow.to_string(), "[libnix] Overflow error");
    assert_eq!(NixError::Unknown.to_string(), "[libnix] Unknown error");
    assert_eq!(NixError::KeyNotFound(None).to_string(), "[libnix] Key not found");
    assert_eq!(
        NixError::KeyNotFound(Some("foo".to_string())).to_string(),
        "[libnix] Key not found \"foo\""
    );
    assert_eq!(
        NixError::Undocumented(-1234).to_string(),
        "[libnix] An undocumented nix_err(-1234) [please open an issue on https://github.com/cry128/nixide]"
    );
    assert_eq!(NixError::Undocumented(-1234).err_code(), -1234);
    assert_eq!(NixError::Unknown.err_code(), NIX_ERR_UNKNOWN);
    assert_eq!(
        NixError::ExprEval { name: "a".to_string(), info_msg: "b".to_string() }.err_code(),
        NIX_ERR_NIX_ERROR
    );
}

#[test]
fn nixide_error_messages() {
    assert_eq!(
        NixideError::string_nul_byte("f").to_string(),
        "[nixide ~ f] Got premature `\\0` (NUL) byte"
    );
    assert_eq!(NixideError::string_not_utf8("g").to_string(), "[nixide ~ g] Expected UTF-8 encoded string");
    assert_eq!(NixideError::null_ptr("h").to_string(), "[nixide ~ h] Got null pointer");
    let arg = NixideError::InvalidArg { trace: "t".to_string(), name: "x", reason: "bad".to_string() };
    assert_eq!(arg.to_string(), "[nixide ~ t] Invalid argument `x`: reason \"bad\"");
    let ty = NixideError::InvalidType { trace: "t".to_string(), expected: "int", got: "bool".to_string() };
    assert_eq!(ty.to_string(), "[nixide ~ t] Got invalid type: expected `int` but got `bool`");
    let overflow = failed(NIX_ERR_OVERFLOW, "m").to_error().unwrap();
    assert_eq!(
        overflow.to_string(),
        "[nixide ~ nixide::errors::ErrorContext::peak][libnix] Overflow error (nix_err=-2): m"
    );
}

#[test]
fn as_err_turns_an_option_into_a_result() {
    assert!(None::<NixideError>.as_err().is_ok());
    assert!(Some(NixideError::null_ptr("x")).as_err().is_err());
}

#[test]
fn call_error_from_codes() {
    assert!(CallError::from(NIX_OK, "f").is_ok());
    assert!(matches!(CallError::from(NIX_ERR_OVERFLOW, "f"), Err(CallError::Overflow { location: "f" })));
    assert!(matches!(
        CallError::from(NIX_ERR_KEY, "f"),
        Err(CallError::KeyNotFound { location: "f", key: None })
    ));
    assert!(matches!(CallError::from(NIX_ERR_NIX_ERROR, "f"), Err(CallError::NixError { location: "f" })));
    assert!(matches!(CallError::from(NIX_ERR_UNKNOWN, "f"), Err(CallError::Unknown { location: "f", .. })));
    assert!(matches!(
        CallError::from(7, "f"),
        Err(CallError::Undocumented { location: "f", err_code: 7 })
    ));
}

#[test]
fn call_error_messages() {
    let unknown = CallError::from(NIX_ERR_UNKNOWN, "nix_libutil_init").unwrap_err();
    assert_eq!(
        unknown.to_string(),
        "Unknown error \"Unknown error occurred\" (at location `nix_libutil_init`)"
    );
    let undocumented = CallError::from(12, "f").unwrap_err();
    assert_eq!(
        undocumented.to_string(),
        "[libnix] An undocumented nix_err was returned with 12 (at location `f`)"
    );
    let key = CallError::KeyNotFound { location: "f", key: Some("k".to_string()) };
    assert_eq!(key.to_string(), "[libnix] Key not found `k` (at location `f`)");
    assert_eq!(CallError::from(NIX_ERR_KEY, "f").unwrap_err().to_string(), "[libnix] Key not found  (at location `f`)");
    assert_eq!(CallError::NulError { location: "g" }.to_string(), "Nul error (at location `g`)");
}

#[test]
fn call_error_nonnull_and_nul() {
    assert_eq!(CallError::new_nonnull(8, "f").unwrap(), 8);
    assert!(matches!(CallError::new_nonnull(0, "f"), Err(CallError::NullPtr { location: "f" })));
    assert_eq!(CallError::from_nulerror::<u8, ()>(Ok(3), "f").unwrap(), 3);
    assert!(matches!(
        CallError::from_nulerror::<u8, ()>(Err(()), "f"),
        Err(CallError::NulError { location: "f" })
    ));
}

#[test]
fn checked_calls() {
    assert_eq!(nix_fn(ErrorContext::new(), 5u8).unwrap(), 5);
    assert!(nix_fn(failed(NIX_ERR_KEY, "k"), 5u8).is_err());
    assert_eq!(nix_ptr_fn(ErrorContext::new(), 16).unwrap(), 16);
    assert!(matches!(nix_ptr_fn(ErrorContext::new(), 0), Err(NixideError::NullPtr { .. })));
    assert!(matches!(
        nix_ptr_fn(failed(NIX_ERR_UNKNOWN, "u"), 16),
        Err(NixideError::NixError { inner: NIX_ERR_UNKNOWN, .. })
    ));
    assert_eq!(nonnull(3).unwrap(), 3);
    assert!(nonnull(0).is_err());
}

#[test]
fn init_status_keeps_the_first_failure() {
    let s = update_init_status(None, ErrorContext::new);
    assert!(matches!(s, Some(Ok(()))));
    let s = update_init_status(s, || failed(NIX_ERR_UNKNOWN, "first"));
    let s = update_init_status(s, || failed(NIX_ERR_OVERFLOW, "second"));
    let s = update_init_status(s, ErrorContext::new);
    match s {
        Some(Err(NixideError::NixError { inner, msg, .. })) => {
            assert_eq!(inner, NIX_ERR_UNKNOWN);
            assert_eq!(msg, "first");
        },
        _ => panic!("the first failure must be kept"),
    }
}
