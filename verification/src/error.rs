//! Errors of the libnix C API that carry the name of the call that failed.

use vstd::prelude::*;

use crate::errors::codes::{NIX_ERR_KEY, NIX_ERR_NIX_ERROR, NIX_ERR_OVERFLOW, NIX_ERR_UNKNOWN, NIX_OK};
use crate::util::text::{decimal, int_to_string};

verus! {

/// Standard (`nix_err`) and some additional error codes produced by the
/// libnix C API, each with the `location` (the C function) that produced it.
#[derive(Debug)]
#[allow(inconsistent_fields)]
pub enum NixError {
    /// `NIX_ERR_NIX_ERROR`: a generic Nix error occurred.
    NixError { location: &'static str },
    /// `NIX_ERR_OVERFLOW`: an overflow error occurred.
    Overflow { location: &'static str },
    /// `NIX_ERR_KEY`: a key, index or identifier that does not exist was
    /// accessed.
    KeyNotFound { location: &'static str, key: Option<String> },
    /// `NIX_ERR_UNKNOWN`: an unknown error occurred.
    Unknown { location: &'static str, reason: String },
    /// A code that is none of the documented ones.
    Undocumented { location: &'static str, err_code: i32 },
    /// A string held a NUL byte.
    NulError { location: &'static str },
    /// A pointer was null.
    NullPtr { location: &'static str },
    /// An argument was invalid.
    InvalidArg { location: &'static str, reason: &'static str },
    /// A value was of another type than expected.
    InvalidType { location: &'static str, expected: &'static str, got: String },
}

/// The mathematical value of a [`NixError`].
pub enum NixErrorView {
    NixError { location: Seq<char> },
    Overflow { location: Seq<char> },
    KeyNotFound { location: Seq<char>, key: Option<Seq<char>> },
    Unknown { location: Seq<char>, reason: Seq<char> },
    Undocumented { location: Seq<char>, err_code: i32 },
    NulError { location: Seq<char> },
    NullPtr { location: Seq<char> },
    InvalidArg { location: Seq<char>, reason: Seq<char> },
    InvalidType { location: Seq<char>, expected: Seq<char>, got: Seq<char> },
}

impl View for NixError {
    type V = NixErrorView;

    open spec fn view(&self) -> NixErrorView {
        match self {
            NixError::NixError { location } => NixErrorView::NixError { location: location@ },
            NixError::Overflow { location } => NixErrorView::Overflow { location: location@ },
            NixError::KeyNotFound { location, key } => NixErrorView::KeyNotFound {
                location: location@,
                key: match key {
                    Some(k) => Some(k@),
                    None => None,
                },
            },
            NixError::Unknown { location, reason } => NixErrorView::Unknown {
                location: location@,
                reason: reason@,
            },
            NixError::Undocumented { location, err_code } => NixErrorView::Undocumented {
                location: location@,
                err_code: *err_code,
            },
            NixError::NulError { location } => NixErrorView::NulError { location: location@ },
            NixError::NullPtr { location } => NixErrorView::NullPtr { location: location@ },
            NixError::InvalidArg { location, reason } => NixErrorView::InvalidArg {
                location: location@,
                reason: reason@,
            },
            NixError::InvalidType { location, expected, got } => NixErrorView::InvalidType {
                location: location@,
                expected: expected@,
                got: got@,
            },
        }
    }
}

/// What a `nix_err` code returned by `location` means: nothing for
/// `NIX_OK`, else the error it stands for.
pub open spec fn spec_from_code(err_code: i32, location: Seq<char>) -> Option<NixErrorView> {
    if err_code == NIX_OK {
        None
    } else if err_code == NIX_ERR_OVERFLOW {
        Some(NixErrorView::Overflow { location })
    } else if err_code == NIX_ERR_KEY {
        Some(NixErrorView::KeyNotFound { location, key: None })
    } else if err_code == NIX_ERR_NIX_ERROR {
        Some(NixErrorView::NixError { location })
    } else if err_code == NIX_ERR_UNKNOWN {
        Some(NixErrorView::Unknown { location, reason: "Unknown error occurred"@ })
    } else {
        Some(NixErrorView::Undocumented { location, err_code })
    }
}

/// The `nix_err` code that an error carries, for the errors that stand for
/// one.
pub open spec fn spec_code_of(e: NixErrorView) -> Option<i32> {
    match e {
        NixErrorView::NixError { .. } => Some(NIX_ERR_NIX_ERROR),
        NixErrorView::Overflow { .. } => Some(NIX_ERR_OVERFLOW),
        NixErrorView::KeyNotFound { .. } => Some(NIX_ERR_KEY),
        NixErrorView::Unknown { .. } => Some(NIX_ERR_UNKNOWN),
        NixErrorView::Undocumented { err_code, .. } => Some(err_code),
        _ => None,
    }
}

/// How an error is displayed.
pub open spec fn spec_message(e: NixErrorView) -> Seq<char> {
    match e {
        NixErrorView::NixError { location } => "[libnix] Generic error (at location `"@ + location
            + "`)"@,
        NixErrorView::Overflow { location } => "[libnix] Overflow error (at location `"@ + location
            + "`)"@,
        NixErrorView::KeyNotFound { location, key } => "[libnix] Key not found "@ + (match key {
            Some(k) => "`"@ + k + "`"@,
            None => Seq::empty(),
        }) + " (at location `"@ + location + "`)"@,
        NixErrorView::Unknown { location, reason } => "Unknown error \""@ + reason
            + "\" (at location `"@ + location + "`)"@,
        NixErrorView::Undocumented { location, err_code } =>
            "[libnix] An undocumented nix_err was returned with "@ + decimal(err_code as int)
                + " (at location `"@ + location + "`)"@,
        NixErrorView::NulError { location } => "Nul error (at location `"@ + location + "`)"@,
        NixErrorView::NullPtr { location } => "[libnix] Null pointer (at location `"@ + location
            + "`)"@,
        NixErrorView::InvalidArg { location, reason } => "Invalid argument \""@ + reason
            + "\" (at location `"@ + location + "`)"@,
        NixErrorView::InvalidType { location, expected, got } => "Invalid type, expected \""@
            + expected + "\" $"@ + got + " (at location `"@ + location + "`)"@,
    }
}

impl NixError {
    /// Checks the `nix_err` code that the C function `location` returned:
    /// `Ok(())` for `NIX_OK`, else the error it stands for.
    pub fn from(err_code: i32, location: &'static str) -> (r: Result<(), NixError>)
        ensures
            match r {
                Ok(()) => spec_from_code(err_code, location@) is None,
                Err(e) => spec_from_code(err_code, location@) == Some(e@),
            },
    {
        if err_code == NIX_OK {
            Ok(())
        } else if err_code == NIX_ERR_OVERFLOW {
            Err(NixError::Overflow { location })
        } else if err_code == NIX_ERR_KEY {
            Err(NixError::KeyNotFound { location, key: None })
        } else if err_code == NIX_ERR_NIX_ERROR {
            Err(NixError::NixError { location })
        } else if err_code == NIX_ERR_UNKNOWN {
            Err(NixError::Unknown { location, reason: String::from_str("Unknown error occurred") })
        } else {
            Err(NixError::Undocumented { location, err_code })
        }
    }

    /// Keeps the value of a string conversion, or turns its failure (a NUL
    /// byte in the string) into [`NixError::NulError`] at `location`.
    pub fn from_nulerror<T, E>(result: Result<T, E>, location: &'static str) -> (r: Result<
        T,
        Self,
    >)
        ensures
            match result {
                Ok(v) => r == Ok::<T, NixError>(v),
                Err(_) => (r matches Err(e) && e@ == (NixErrorView::NulError { location: location@ })),
            },
    {
        match result {
            Ok(v) => Ok(v),
            Err(_) => Err(NixError::NulError { location }),
        }
    }

    /// Checks that the pointer (given by its address) that `location`
    /// returned is not null.
    pub fn new_nonnull(ptr: usize, location: &'static str) -> (r: Result<usize, Self>)
        ensures
            ptr != 0 ==> r == Ok::<usize, NixError>(ptr),
            ptr == 0 ==> (r matches Err(e) && e@ == (NixErrorView::NullPtr { location: location@ })),
    {
        if ptr != 0 {
            Ok(ptr)
        } else {
            Err(NixError::NullPtr { location })
        }
    }

    /// The text that displays this error.
    pub fn to_string(&self) -> (s: String)
        ensures
            s@ == spec_message(self@),
    {
        match self {
            NixError::NixError { location } => {
                let mut s = String::from_str("[libnix] Generic error (at location `");
                s.append(location);
                s.append("`)");
                s
            },
            NixError::Overflow { location } => {
                let mut s = String::from_str("[libnix] Overflow error (at location `");
                s.append(location);
                s.append("`)");
                s
            },
            NixError::KeyNotFound { location, key } => {
                let mut s = String::from_str("[libnix] Key not found ");
                match key {
                    Some(k) => {
                        s.append("`");
                        s.append(k.as_str());
                        s.append("`");
                    },
                    None => {},
                }
                s.append(" (at location `");
                s.append(location);
                s.append("`)");
                s
            },
            NixError::Unknown { location, reason } => {
                let mut s = String::from_str("Unknown error \"");
                s.append(reason.as_str());
                s.append("\" (at location `");
                s.append(location);
                s.append("`)");
                s
            },
            NixError::Undocumented { location, err_code } => {
                let mut s = String::from_str("[libnix] An undocumented nix_err was returned with ");
                let code = int_to_string(*err_code as i64);
                s.append(code.as_str());
                s.append(" (at location `");
                s.append(location);
                s.append("`)");
                s
            },
            NixError::NulError { location } => {
                let mut s = String::from_str("Nul error (at location `");
                s.append(location);
                s.append("`)");
                s
            },
            NixError::NullPtr { location } => {
                let mut s = String::from_str("[libnix] Null pointer (at location `");
                s.append(location);
                s.append("`)");
                s
            },
            NixError::InvalidArg { location, reason } => {
                let mut s = String::from_str("Invalid argument \"");
                s.append(reason);
                s.append("\" (at location `");
                s.append(location);
                s.append("`)");
                s
            },
            NixError::InvalidType { location, expected, got } => {
                let mut s = String::from_str("Invalid type, expected \"");
                s.append(expected);
                s.append("\" $");
                s.append(got.as_str());
                s.append(" (at location `");
                s.append(location);
                s.append("`)");
                s
            },
        }
    }
}

/// A code that is not `NIX_OK` is an error, and the error carries that code
/// back: checking a code and reading the code of the error it gives is the
/// identity on every code but `NIX_OK`.
pub proof fn lemma_from_code_round_trip(err_code: i32, location: Seq<char>)
    ensures
        spec_from_code(err_code, location) is None <==> err_code == NIX_OK,
        err_code != NIX_OK ==> spec_code_of(spec_from_code(err_code, location)->0) == Some(
            err_code,
        ),
{
}

} // verus!
