//! The standard `nix_err` error codes (and the undocumented rest) as an enum.

use vstd::prelude::*;

use super::codes::{NIX_ERR_KEY, NIX_ERR_NIX_ERROR, NIX_ERR_OVERFLOW, NIX_ERR_UNKNOWN};
use crate::util::text::{decimal, int_to_string};

verus! {

/// Standard (`nix_err`) error codes produced by the libnix C API.
#[derive(Debug, Clone)]
pub enum NixError {
    /// `NIX_ERR_NIX_ERROR`: a generic Nix error occurred during evaluation,
    /// with the error's name and its information message.
    ExprEval { name: String, info_msg: String },
    /// `NIX_ERR_KEY`: a key, index or identifier that does not exist was
    /// accessed in a C API function.
    KeyNotFound(Option<String>),
    /// `NIX_ERR_OVERFLOW`: an overflow error occurred.
    Overflow,
    /// `NIX_ERR_UNKNOWN`: an unknown error occurred.
    Unknown,
    /// A code that is none of the documented ones.
    Undocumented(i32),
}

/// The mathematical value of a [`NixError`].
pub enum NixErrorView {
    ExprEval { name: Seq<char>, info_msg: Seq<char> },
    KeyNotFound(Option<Seq<char>>),
    Overflow,
    Unknown,
    Undocumented(i32),
}

impl View for NixError {
    type V = NixErrorView;

    open spec fn view(&self) -> NixErrorView {
        match self {
            NixError::ExprEval { name, info_msg } => NixErrorView::ExprEval {
                name: name@,
                info_msg: info_msg@,
            },
            NixError::KeyNotFound(key) => NixErrorView::KeyNotFound(
                match key {
                    Some(k) => Some(k@),
                    None => None,
                },
            ),
            NixError::Overflow => NixErrorView::Overflow,
            NixError::Unknown => NixErrorView::Unknown,
            NixError::Undocumented(code) => NixErrorView::Undocumented(*code),
        }
    }
}

/// The `nix_err` code that an error stands for.
pub open spec fn spec_err_code(e: NixErrorView) -> i32 {
    match e {
        NixErrorView::ExprEval { .. } => NIX_ERR_NIX_ERROR,
        NixErrorView::KeyNotFound(_) => NIX_ERR_KEY,
        NixErrorView::Overflow => NIX_ERR_OVERFLOW,
        NixErrorView::Unknown => NIX_ERR_UNKNOWN,
        NixErrorView::Undocumented(code) => code,
    }
}

/// How an error is displayed.
pub open spec fn spec_nix_error_message(e: NixErrorView) -> Seq<char> {
    match e {
        NixErrorView::ExprEval { name, info_msg } =>
            "[libnix] NixExpr evaluation failed [name=\""@ + name + "\", info_msg=\""@ + info_msg
                + "\"]"@,
        NixErrorView::KeyNotFound(Some(key)) => "[libnix] Key not found \""@ + key + "\""@,
        NixErrorView::KeyNotFound(None) => "[libnix] Key not found"@,
        NixErrorView::Overflow => "[libnix] Overflow error"@,
        NixErrorView::Unknown => "[libnix] Unknown error"@,
        NixErrorView::Undocumented(code) => "[libnix] An undocumented nix_err("@ + decimal(
            code as int,
        ) + ") [please open an issue on https://github.com/cry128/nixide]"@,
    }
}

impl NixError {
    /// The `nix_err` code that this error stands for.
    pub fn err_code(&self) -> (code: i32)
        ensures
            code == spec_err_code(self@),
    {
        match self {
            NixError::Overflow => NIX_ERR_OVERFLOW,
            NixError::KeyNotFound(_) => NIX_ERR_KEY,
            NixError::ExprEval { .. } => NIX_ERR_NIX_ERROR,
            NixError::Unknown => NIX_ERR_UNKNOWN,
            NixError::Undocumented(code) => *code,
        }
    }

    /// The text that displays this error.
    pub fn to_string(&self) -> (s: String)
        ensures
            s@ == spec_nix_error_message(self@),
    {
        match self {
            NixError::ExprEval { name, info_msg } => {
                let mut s = String::from_str("[libnix] NixExpr evaluation failed [name=\"");
                s.append(name.as_str());
                s.append("\", info_msg=\"");
                s.append(info_msg.as_str());
                s.append("\"]");
                s
            },
            NixError::KeyNotFound(Some(key)) => {
                let mut s = String::from_str("[libnix] Key not found \"");
                s.append(key.as_str());
                s.append("\"");
                s
            },
            NixError::KeyNotFound(None) => String::from_str("[libnix] Key not found"),
            NixError::Overflow => String::from_str("[libnix] Overflow error"),
            NixError::Unknown => String::from_str("[libnix] Unknown error"),
            NixError::Undocumented(code) => {
                let mut s = String::from_str("[libnix] An undocumented nix_err(");
                let digits = int_to_string(*code as i64);
                s.append(digits.as_str());
                s.append(") [please open an issue on https://github.com/cry128/nixide]");
                s
            },
        }
    }
}

} // verus!
