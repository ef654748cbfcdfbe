//! A model of libnix's error context (`nix_c_context`).
//!
//! The C struct holds the code of the last error (`last_err_code`), the
//! last error message (`last_err`, which clearing leaves in place), the
//! error's information (`info`, set by errors raised while evaluating) and
//! its name. This type holds the same as plain values; the operations below
//! are those that libnix documents for reading and clearing it.

use vstd::prelude::*;

use super::codes::{NIX_ERR_KEY, NIX_ERR_NIX_ERROR, NIX_ERR_OVERFLOW, NIX_ERR_UNKNOWN, NIX_OK};
use super::error::{NixideError, NixideErrorView, NixideResult};
use super::nix_error::{spec_err_code, NixError, NixErrorView};

verus! {

/// The state of a libnix error context.
pub struct ErrorContext {
    code: i32,
    last_err: Option<String>,
    name: String,
    info_msg: Option<String>,
}

/// The mathematical value of an [`ErrorContext`].
pub struct ErrorContextView {
    pub code: i32,
    pub last_err: Option<Seq<char>>,
    pub name: Seq<char>,
    pub info_msg: Option<Seq<char>>,
}

/// The view of an optional string.
pub open spec fn opt_view(s: Option<String>) -> Option<Seq<char>> {
    match s {
        Some(s) => Some(s@),
        None => None,
    }
}

impl View for ErrorContext {
    type V = ErrorContextView;

    closed spec fn view(&self) -> ErrorContextView {
        ErrorContextView {
            code: self.code,
            last_err: opt_view(self.last_err),
            name: self.name@,
            info_msg: opt_view(self.info_msg),
        }
    }
}

/// What libnix keeps true of a context: an error code always comes with a
/// message, and an evaluation error always with its information.
pub open spec fn context_wf(c: ErrorContextView) -> bool {
    &&& c.code != NIX_OK ==> c.last_err is Some
    &&& c.code == NIX_ERR_NIX_ERROR ==> c.info_msg is Some
}

/// The trace of the errors that a context yields.
pub open spec fn context_trace() -> Seq<char> {
    "nixide::errors::ErrorContext::peak"@
}

/// What a `nix_err` code stands for, given the context's name and
/// information message of an evaluation error.
pub open spec fn spec_nix_error_of(code: i32, name: Seq<char>, info_msg: Seq<char>) -> NixErrorView {
    if code == NIX_ERR_OVERFLOW {
        NixErrorView::Overflow
    } else if code == NIX_ERR_KEY {
        NixErrorView::KeyNotFound(None)
    } else if code == NIX_ERR_NIX_ERROR {
        NixErrorView::ExprEval { name, info_msg }
    } else if code == NIX_ERR_UNKNOWN {
        NixErrorView::Unknown
    } else {
        NixErrorView::Undocumented(code)
    }
}

/// The error that a context reports, if any: none when its code is
/// `NIX_OK`, else a [`NixideError::NixError`] with the code, what it stands
/// for and the last error message.
pub open spec fn spec_context_error(c: ErrorContextView) -> Option<NixideErrorView> {
    if c.code == NIX_OK {
        None
    } else {
        Some(
            NixideErrorView::NixError {
                trace: context_trace(),
                inner: c.code,
                err: spec_nix_error_of(
                    c.code,
                    c.name,
                    match c.info_msg {
                        Some(i) => i,
                        None => Seq::empty(),
                    },
                ),
                msg: match c.last_err {
                    Some(m) => m,
                    None => Seq::empty(),
                },
            },
        )
    }
}

/// What peeking at a context answers.
pub open spec fn spec_peak(c: ErrorContextView) -> Result<(), NixideErrorView> {
    match spec_context_error(c) {
        Some(e) => Err(e),
        None => Ok(()),
    }
}

impl ErrorContext {
    #[verifier::type_invariant]
    spec fn inv(self) -> bool {
        context_wf(self@)
    }

    /// A fresh context: no error, no message, an empty name.
    pub fn new() -> (ctx: ErrorContext)
        ensures
            ctx@ == (ErrorContextView {
                code: NIX_OK,
                last_err: None,
                name: Seq::empty(),
                info_msg: None,
            }),
    {
        ErrorContext { code: NIX_OK, last_err: None, name: String::new(), info_msg: None }
    }

    /// A context with the given state, as read from a libnix context.
    pub fn from_parts(
        code: i32,
        last_err: Option<String>,
        name: String,
        info_msg: Option<String>,
    ) -> (ctx: ErrorContext)
        requires
            code != NIX_OK ==> last_err is Some,
            code == NIX_ERR_NIX_ERROR ==> info_msg is Some,
        ensures
            ctx@ == (ErrorContextView {
                code,
                last_err: opt_view(last_err),
                name: name@,
                info_msg: opt_view(info_msg),
            }),
    {
        ErrorContext { code, last_err, name, info_msg }
    }

    /// Records an error code and its message (libnix's `nix_set_err_msg`).
    pub fn set_err_msg(&mut self, code: i32, msg: &str)
        requires
            code != NIX_ERR_NIX_ERROR,
        ensures
            final(self)@ == (ErrorContextView {
                code,
                last_err: Some(msg@),
                ..old(self)@
            }),
    {
        proof {
            use_type_invariant(&*self);
        }
        self.last_err = Some(String::from_str(msg));
        self.code = code;
    }

    /// Records an error raised while evaluating, with its name, information
    /// message and message (libnix's `nix_context_error` on a Nix error).
    pub fn set_nix_error(&mut self, name: &str, info_msg: &str, msg: &str)
        ensures
            final(self)@ == (ErrorContextView {
                code: NIX_ERR_NIX_ERROR,
                last_err: Some(msg@),
                name: name@,
                info_msg: Some(info_msg@),
            }),
    {
        proof {
            use_type_invariant(&*self);
        }
        self.last_err = Some(String::from_str(msg));
        self.name = String::from_str(name);
        self.info_msg = Some(String::from_str(info_msg));
        self.code = NIX_ERR_NIX_ERROR;
    }

    /// The code of the last error, or `None` if it is `NIX_OK`
    /// (libnix's `nix_err_code`, which never fails).
    pub fn get_err(&self) -> (r: Option<i32>)
        ensures
            r == (if self@.code == NIX_OK { None } else { Some(self@.code) }),
    {
        if self.code == NIX_OK {
            None
        } else {
            Some(self.code)
        }
    }

    /// The last error message, if there is an error and a message
    /// (libnix's `nix_err_msg`).
    pub fn get_msg(&self) -> (r: Option<String>)
        ensures
            opt_view(r) == (if self@.code != NIX_OK { self@.last_err } else { None }),
    {
        if self.code == NIX_OK {
            None
        } else {
            match &self.last_err {
                Some(m) => Some(m.clone()),
                None => None,
            }
        }
    }

    /// The name of the last error, if it is an evaluation error
    /// (libnix's `nix_err_name`).
    pub fn get_nix_err_name(&self) -> (r: Option<String>)
        ensures
            opt_view(r) == (if self@.code == NIX_ERR_NIX_ERROR {
                Some(self@.name)
            } else {
                None
            }),
    {
        if self.code == NIX_ERR_NIX_ERROR {
            Some(self.name.clone())
        } else {
            None
        }
    }

    /// The information message of the last error, if it is an evaluation
    /// error (libnix's `nix_err_info_msg`).
    pub fn get_nix_err_info_msg(&self) -> (r: Option<String>)
        ensures
            opt_view(r) == (if self@.code == NIX_ERR_NIX_ERROR {
                self@.info_msg
            } else {
                None
            }),
    {
        if self.code == NIX_ERR_NIX_ERROR {
            match &self.info_msg {
                Some(i) => Some(i.clone()),
                None => None,
            }
        } else {
            None
        }
    }

    /// The error that this context reports, if any.
    pub fn to_error(&self) -> (r: Option<NixideError>)
        ensures
            match r {
                Some(e) => spec_context_error(self@) == Some(e@),
                None => spec_context_error(self@) is None,
            },
    {
        proof {
            use_type_invariant(self);
        }
        let code = match self.get_err() {
            Some(code) => code,
            None => return None,
        };
        let msg = match self.get_msg() {
            Some(m) => m,
            None => String::new(),
        };
        let err = if code == NIX_ERR_OVERFLOW {
            NixError::Overflow
        } else if code == NIX_ERR_KEY {
            NixError::KeyNotFound(None)
        } else if code == NIX_ERR_NIX_ERROR {
            let name = match self.get_nix_err_name() {
                Some(n) => n,
                None => String::new(),
            };
            let info_msg = match self.get_nix_err_info_msg() {
                Some(i) => i,
                None => String::new(),
            };
            NixError::ExprEval { name, info_msg }
        } else if code == NIX_ERR_UNKNOWN {
            NixError::Unknown
        } else {
            NixError::Undocumented(code)
        };
        Some(
            NixideError::NixError {
                trace: String::from_str("nixide::errors::ErrorContext::peak"),
                inner: code,
                err,
                msg,
            },
        )
    }

    /// Checks the error code: `Err` with the context's error if it is not
    /// `NIX_OK`, `Ok(())` if it is.
    pub fn peak(&self) -> (r: NixideResult<()>)
        ensures
            match r {
                Ok(()) => spec_peak(self@) is Ok,
                Err(e) => spec_peak(self@) == Err::<(), NixideErrorView>(e@),
            },
    {
        match self.to_error() {
            Some(err) => Err(err),
            None => Ok(()),
        }
    }

    /// Peeks at the error, then clears it; answers what the peek answered.
    pub fn pop(&mut self) -> (r: NixideResult<()>)
        ensures
            match r {
                Ok(()) => spec_peak(old(self)@) is Ok,
                Err(e) => spec_peak(old(self)@) == Err::<(), NixideErrorView>(e@),
            },
            final(self)@ == (ErrorContextView { code: NIX_OK, ..old(self)@ }),
    {
        let error = self.peak();
        self.clear();
        error
    }

    /// Sets the error code back to `NIX_OK` (libnix's `nix_clear_err`,
    /// which leaves the message, name and information in place).
    pub fn clear(&mut self)
        ensures
            final(self)@ == (ErrorContextView { code: NIX_OK, ..old(self)@ }),
    {
        self.code = NIX_OK;
    }
}

/// A context reports an error exactly when its code is not `NIX_OK`; the
/// error carries that code, its variant stands for the same code, and its
/// message is the context's last message.
pub proof fn lemma_context_error_carries_code(c: ErrorContextView)
    requires
        context_wf(c),
    ensures
        spec_context_error(c) is Some <==> c.code != NIX_OK,
        spec_context_error(c) matches Some(e) ==> (e matches NixideErrorView::NixError {
            inner,
            err,
            msg,
            ..
        } && inner == c.code && spec_err_code(err) == c.code && Some(msg) == c.last_err),
{
}

/// Every `nix_err` code, read into a [`NixError`], stands for itself again.
pub proof fn lemma_nix_error_code_round_trip(code: i32, name: Seq<char>, info_msg: Seq<char>)
    ensures
        spec_err_code(spec_nix_error_of(code, name, info_msg)) == code,
{
}

/// After a pop (or a clear) a context reports no error, and a second pop
/// answers `Ok`.
pub proof fn lemma_cleared_context_is_ok(c: ErrorContextView)
    ensures
        spec_peak(ErrorContextView { code: NIX_OK, ..c }) is Ok,
{
}

} // verus!
