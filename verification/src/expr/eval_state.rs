//! The evaluation state, in which Nix expressions are evaluated.

use vstd::prelude::*;

use super::values::Value;
use crate::errors::context::ErrorContext;
use crate::errors::error::{NixideErrorView, NixideResult};
use crate::stdext::cchar_ptr_ext::{spec_as_c_ptr, str_to_c_string};
use crate::store::Store;
use crate::util::wrap::{nix_fn, nix_ptr_fn, spec_nix_fn, spec_nix_ptr_fn};
use crate::util::wrappers::AsInnerPtr;

verus! {

/// A Nix evaluation state, held by its address, with the store it
/// evaluates against. A copy is another handle on the same state.
#[derive(Clone, Copy)]
pub struct EvalState {
    inner: usize,
    store: Store,
}

/// The view of a result that holds a value: the value itself, its error by
/// its view.
pub open spec fn value_result_view(r: NixideResult<Value>) -> Result<Value, NixideErrorView> {
    match r {
        Ok(v) => Ok(v),
        Err(e) => Err(e@),
    }
}

/// What evaluating `expr` (reported at `path`) gives, once the result value
/// is allocated at `value`: the C strings handed to `eval` are those of
/// `expr` and `path`, and the outcome is the error of `eval`'s context or
/// the value that `read` reads.
pub open spec fn spec_evaluated<E, R>(
    state: usize,
    expr_c: Seq<u8>,
    path_c: Seq<u8>,
    value: usize,
    eval: E,
    read: R,
    r: NixideResult<Value>,
) -> bool where E: FnOnce(usize, Vec<u8>, Vec<u8>, usize) -> ErrorContext, R: FnOnce(usize, usize) -> Value {
    exists|ec: Vec<u8>, pc: Vec<u8>, ctx: ErrorContext|
        ec@ == expr_c && pc@ == path_c && #[trigger] eval.ensures((state, ec, pc, value), ctx)
            && match spec_nix_fn(ctx@, ()) {
            Err(e) => value_result_view(r) == Err::<Value, NixideErrorView>(e),
            Ok(()) => r matches Ok(v) && read.ensures((value, state), v),
        }
}

impl EvalState {
    #[verifier::type_invariant]
    spec fn inv(self) -> bool {
        self.inner != 0
    }

    /// The store that the state evaluates against.
    pub closed spec fn spec_store(&self) -> Store {
        self.store
    }

    /// The evaluation state held at `inner`, evaluating against `store`.
    pub fn from(inner: usize, store: Store) -> (s: EvalState)
        requires
            inner != 0,
        ensures
            s.spec_ptr() == inner,
            s.spec_store() == store,
    {
        EvalState { inner, store }
    }

    /// As [`EvalState::from`].
    pub fn new(inner: usize, store: Store) -> (s: EvalState)
        requires
            inner != 0,
        ensures
            s.spec_ptr() == inner,
            s.spec_store() == store,
    {
        Self::from(inner, store)
    }

    /// The address of the state.
    pub fn inner_ref(&self) -> (r: &usize)
        ensures
            *r == self.spec_ptr(),
    {
        &self.inner
    }

    /// The store that the state evaluates against.
    pub fn store_ref(&self) -> (r: &Store)
        ensures
            *r == self.spec_store(),
    {
        &self.store
    }

    /// Evaluates the Nix expression `expr`, reporting errors at `path`
    /// (such as `<eval>`). `alloc` calls `nix_alloc_value` with the state,
    /// which must not fail; `eval` calls `nix_expr_eval_from_string` with
    /// the state, the two C strings and the value; `read` reads the value.
    /// `StringNulByte` if `expr` or `path` holds a NUL character (no call
    /// is made), else the evaluation's error or its value.
    pub fn interpret<A, E, R>(&self, expr: &str, path: &str, alloc: A, eval: E, read: R) -> (r:
        NixideResult<Value>) where
        A: FnOnce(usize) -> (ErrorContext, usize),
        E: FnOnce(usize, Vec<u8>, Vec<u8>, usize) -> ErrorContext,
        R: FnOnce(usize, usize) -> Value,

        requires
            alloc.requires((self.spec_ptr(),)),
            forall|ctx: ErrorContext, p: usize| #[trigger]
                alloc.ensures((self.spec_ptr(),), (ctx, p)) ==> spec_nix_ptr_fn(ctx@, p) is Ok,
            forall|ec: Vec<u8>, pc: Vec<u8>, value: usize|
                spec_as_c_ptr(expr@) == Ok::<Seq<u8>, NixideErrorView>(ec@) && spec_as_c_ptr(path@)
                    == Ok::<Seq<u8>, NixideErrorView>(pc@) ==> #[trigger] eval.requires(
                    (self.spec_ptr(), ec, pc, value),
                ),
            forall|value: usize| #[trigger] read.requires((value, self.spec_ptr())),
        ensures
            match (spec_as_c_ptr(expr@), spec_as_c_ptr(path@)) {
                (Err(e), _) => value_result_view(r) == Err::<Value, NixideErrorView>(e),
                (Ok(_), Err(e)) => value_result_view(r) == Err::<Value, NixideErrorView>(e),
                (Ok(ec), Ok(pc)) => exists|actx: ErrorContext, aptr: usize|
                    #[trigger] alloc.ensures((self.spec_ptr(),), (actx, aptr)) && spec_nix_ptr_fn(
                        actx@,
                        aptr,
                    ) == Ok::<usize, NixideErrorView>(aptr) && spec_evaluated(
                        self.spec_ptr(),
                        ec,
                        pc,
                        aptr,
                        eval,
                        read,
                        r,
                    ),
            },
    {
        let expr_c = match str_to_c_string(expr) {
            Ok(c) => c,
            Err(e) => return Err(e),
        };
        let path_c = match str_to_c_string(path) {
            Ok(c) => c,
            Err(e) => return Err(e),
        };
        let (actx, aptr) = alloc(self.as_ptr());
        let value = match nix_ptr_fn(actx, aptr) {
            Ok(v) => v,
            Err(_) => {
                assert(false);
                return Err(crate::errors::error::NixideError::null_ptr("nixide::expr::EvalState::interpret"));
            },
        };
        let ctx = eval(self.as_ptr(), expr_c, path_c, value);
        match nix_fn(ctx, ()) {
            Ok(()) => Ok(read(value, self.as_ptr())),
            Err(e) => Err(e),
        }
    }

    /// Evaluates the Nix expression `expr`, reporting errors at `path`, as
    /// [`EvalState::interpret`] does, except that a failure to allocate the
    /// result value is returned as an error.
    pub fn eval_from_string<A, E, R>(&self, expr: &str, path: &str, alloc: A, eval: E, read: R) -> (r:
        NixideResult<Value>) where
        A: FnOnce(usize) -> (ErrorContext, usize),
        E: FnOnce(usize, Vec<u8>, Vec<u8>, usize) -> ErrorContext,
        R: FnOnce(usize, usize) -> Value,

        requires
            alloc.requires((self.spec_ptr(),)),
            forall|ec: Vec<u8>, pc: Vec<u8>, value: usize|
                spec_as_c_ptr(expr@) == Ok::<Seq<u8>, NixideErrorView>(ec@) && spec_as_c_ptr(path@)
                    == Ok::<Seq<u8>, NixideErrorView>(pc@) ==> #[trigger] eval.requires(
                    (self.spec_ptr(), ec, pc, value),
                ),
            forall|value: usize| #[trigger] read.requires((value, self.spec_ptr())),
        ensures
            match (spec_as_c_ptr(expr@), spec_as_c_ptr(path@)) {
                (Err(e), _) => value_result_view(r) == Err::<Value, NixideErrorView>(e),
                (Ok(_), Err(e)) => value_result_view(r) == Err::<Value, NixideErrorView>(e),
                (Ok(ec), Ok(pc)) => exists|
                actx: ErrorContext,
                aptr: usize,
            |
                #[trigger] alloc.ensures((self.spec_ptr(),), (actx, aptr)) && match spec_nix_ptr_fn(
                    actx@,
                    aptr,
                ) {
                    Err(e) => value_result_view(r) == Err::<Value, NixideErrorView>(e),
                    Ok(value) => spec_evaluated(self.spec_ptr(), ec, pc, value, eval, read, r),
                },
            },
    {
        let expr_c = match str_to_c_string(expr) {
            Ok(c) => c,
            Err(e) => return Err(e),
        };
        let path_c = match str_to_c_string(path) {
            Ok(c) => c,
            Err(e) => return Err(e),
        };
        let (actx, aptr) = alloc(self.as_ptr());
        let value = match nix_ptr_fn(actx, aptr) {
            Ok(v) => v,
            Err(e) => return Err(e),
        };
        let ctx = eval(self.as_ptr(), expr_c, path_c, value);
        match nix_fn(ctx, ()) {
            Ok(()) => Ok(read(value, self.as_ptr())),
            Err(e) => Err(e),
        }
    }
}

impl AsInnerPtr for EvalState {
    closed spec fn spec_ptr(&self) -> usize {
        self.inner
    }

    fn as_ptr(&self) -> (p: usize) {
        self.inner
    }
}

} // verus!
