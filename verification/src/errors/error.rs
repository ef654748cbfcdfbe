//! The error type of this crate.

use vstd::prelude::*;

use super::nix_error::{spec_nix_error_message, NixError, NixErrorView};
use crate::util::text::{decimal, int_to_string};

verus! {

/// The result of the operations of this crate.
pub type NixideResult<T> = Result<T, NixideError>;

/// An error of this crate. Each variant carries a `trace`: the name of the
/// function that raised it.
#[derive(Debug, Clone)]
pub enum NixideError {
    /// libnix reported an error: `inner` is its `nix_err` code, `err` what
    /// that code stands for, `msg` the context's last error message.
    ///
    /// Note that this is not the same as the code `NIX_ERR_NIX_ERROR`,
    /// which is instead mapped to [`NixError::ExprEval`].
    NixError { trace: String, inner: i32, err: NixError, msg: String },
    /// A string contained a `\0` (NUL) byte, which a C string cannot hold.
    StringNulByte { trace: String },
    /// A C string is not encoded in UTF-8.
    StringNotUtf8 { trace: String },
    /// A pointer that had to be valid was null.
    NullPtr { trace: String },
    /// An argument was invalid.
    InvalidArg { trace: String, name: &'static str, reason: String },
    /// A value was of another type than expected.
    InvalidType { trace: String, expected: &'static str, got: String },
}

/// The mathematical value of a [`NixideError`].
pub enum NixideErrorView {
    NixError { trace: Seq<char>, inner: i32, err: NixErrorView, msg: Seq<char> },
    StringNulByte { trace: Seq<char> },
    StringNotUtf8 { trace: Seq<char> },
    NullPtr { trace: Seq<char> },
    InvalidArg { trace: Seq<char>, name: Seq<char>, reason: Seq<char> },
    InvalidType { trace: Seq<char>, expected: Seq<char>, got: Seq<char> },
}

impl View for NixideError {
    type V = NixideErrorView;

    open spec fn view(&self) -> NixideErrorView {
        match self {
            NixideError::NixError { trace, inner, err, msg } => NixideErrorView::NixError {
                trace: trace@,
                inner: *inner,
                err: err@,
                msg: msg@,
            },
            NixideError::StringNulByte { trace } => NixideErrorView::StringNulByte {
                trace: trace@,
            },
            NixideError::StringNotUtf8 { trace } => NixideErrorView::StringNotUtf8 {
                trace: trace@,
            },
            NixideError::NullPtr { trace } => NixideErrorView::NullPtr { trace: trace@ },
            NixideError::InvalidArg { trace, name, reason } => NixideErrorView::InvalidArg {
                trace: trace@,
                name: name@,
                reason: reason@,
            },
            NixideError::InvalidType { trace, expected, got } => NixideErrorView::InvalidType {
                trace: trace@,
                expected: expected@,
                got: got@,
            },
        }
    }
}

/// The view of a result: its `Ok` value unchanged, its error by its view.
pub open spec fn result_view<T>(r: NixideResult<T>) -> Result<T, NixideErrorView> {
    match r {
        Ok(v) => Ok(v),
        Err(e) => Err(e@),
    }
}

/// The error is libnix's report of a missing key.
pub open spec fn is_key_not_found(e: NixideErrorView) -> bool {
    e matches NixideErrorView::NixError { err: NixErrorView::KeyNotFound(_), .. }
}

/// The view of a result that holds a string.
pub open spec fn string_result_view(r: NixideResult<String>) -> Result<Seq<char>, NixideErrorView> {
    match r {
        Ok(s) => Ok(s@),
        Err(e) => Err(e@),
    }
}

/// How an error is displayed.
pub open spec fn spec_nixide_error_message(e: NixideErrorView) -> Seq<char> {
    match e {
        NixideErrorView::NixError { trace, inner, err, msg } => "[nixide ~ "@ + trace + "]"@
            + spec_nix_error_message(err) + " (nix_err="@ + decimal(inner as int) + "): "@ + msg,
        NixideErrorView::StringNulByte { trace } => "[nixide ~ "@ + trace
            + "] Got premature `\\0` (NUL) byte"@,
        NixideErrorView::StringNotUtf8 { trace } => "[nixide ~ "@ + trace
            + "] Expected UTF-8 encoded string"@,
        NixideErrorView::NullPtr { trace } => "[nixide ~ "@ + trace + "] Got null pointer"@,
        NixideErrorView::InvalidArg { trace, name, reason } => "[nixide ~ "@ + trace
            + "] Invalid argument `"@ + name + "`: reason \""@ + reason + "\""@,
        NixideErrorView::InvalidType { trace, expected, got } => "[nixide ~ "@ + trace
            + "] Got invalid type: expected `"@ + expected + "` but got `"@ + got + "`"@,
    }
}

impl NixideError {
    /// A [`NixideError::StringNulByte`] raised by `trace`.
    pub fn string_nul_byte(trace: &str) -> (e: NixideError)
        ensures
            e@ == (NixideErrorView::StringNulByte { trace: trace@ }),
    {
        NixideError::StringNulByte { trace: String::from_str(trace) }
    }

    /// A [`NixideError::StringNotUtf8`] raised by `trace`.
    pub fn string_not_utf8(trace: &str) -> (e: NixideError)
        ensures
            e@ == (NixideErrorView::StringNotUtf8 { trace: trace@ }),
    {
        NixideError::StringNotUtf8 { trace: String::from_str(trace) }
    }

    /// A [`NixideError::NullPtr`] raised by `trace`.
    pub fn null_ptr(trace: &str) -> (e: NixideError)
        ensures
            e@ == (NixideErrorView::NullPtr { trace: trace@ }),
    {
        NixideError::NullPtr { trace: String::from_str(trace) }
    }

    /// The text that displays this error.
    pub fn to_string(&self) -> (s: String)
        ensures
            s@ == spec_nixide_error_message(self@),
    {
        let mut s = String::from_str("[nixide ~ ");
        match self {
            NixideError::NixError { trace, inner, err, msg } => {
                s.append(trace.as_str());
                s.append("]");
                let e = err.to_string();
                s.append(e.as_str());
                s.append(" (nix_err=");
                let code = int_to_string(*inner as i64);
                s.append(code.as_str());
                s.append("): ");
                s.append(msg.as_str());
            },
            NixideError::StringNulByte { trace } => {
                s.append(trace.as_str());
                s.append("] Got premature `\\0` (NUL) byte");
            },
            NixideError::StringNotUtf8 { trace } => {
                s.append(trace.as_str());
                s.append("] Expected UTF-8 encoded string");
            },
            NixideError::NullPtr { trace } => {
                s.append(trace.as_str());
                s.append("] Got null pointer");
            },
            NixideError::InvalidArg { trace, name, reason } => {
                s.append(trace.as_str());
                s.append("] Invalid argument `");
                s.append(name);
                s.append("`: reason \"");
                s.append(reason.as_str());
                s.append("\"");
            },
            NixideError::InvalidType { trace, expected, got } => {
                s.append(trace.as_str());
                s.append("] Got invalid type: expected `");
                s.append(expected);
                s.append("` but got `");
                s.append(got.as_str());
                s.append("`");
            },
        }
        s
    }
}

/// Turns an optional error into a result.
pub trait AsErr<T>: Sized {
    fn as_err(self) -> Result<(), T>;
}

impl AsErr<NixideError> for Option<NixideError> {
    /// `Err(e)` for `Some(e)`, `Ok(())` for `None`.
    fn as_err(self) -> (r: Result<(), NixideError>)
        ensures
            match self {
                Some(e) => r == Err::<(), NixideError>(e),
                None => r is Ok,
            },
    {
        match self {
            Some(err) => Err(err),
            None => Ok(()),
        }
    }
}

} // verus!
