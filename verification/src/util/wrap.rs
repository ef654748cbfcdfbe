//! Checking the outcome of a libnix call.
//!
//! A libnix call is made with a fresh error context; afterwards the
//! context says whether it failed. The functions here take the context as
//! it stands after the call, together with what the call returned (or
//! handed to its string callback), and decide the result.

use vstd::prelude::*;
use vstd::utf8::{decode_utf8, valid_utf8};

use crate::errors::context::{spec_peak, ErrorContext, ErrorContextView};
use crate::errors::error::{
    result_view, string_result_view, NixideError, NixideErrorView, NixideResult,
};
use crate::stdext::cchar_ptr_ext::{read_trace, spec_decode, CCharPtrExt};
use crate::util::wrappers::AsInnerPtr;

verus! {

/// The trace of the null-pointer errors raised by [`nonnull`].
pub open spec fn nonnull_trace() -> Seq<char> {
    "nixide::util::wrap::nonnull"@
}

/// A pointer returned by libnix, checked: the error `NullPtr` if null.
pub open spec fn spec_nonnull(ptr: usize) -> Result<usize, NixideErrorView> {
    if ptr == 0 {
        Err(NixideErrorView::NullPtr { trace: nonnull_trace() })
    } else {
        Ok(ptr)
    }
}

/// The outcome of a call that returned `value`: the context's error if it
/// has one, else the value.
pub open spec fn spec_nix_fn<T>(ctx: ErrorContextView, value: T) -> Result<T, NixideErrorView> {
    match spec_peak(ctx) {
        Err(e) => Err(e),
        Ok(()) => Ok(value),
    }
}

/// The outcome of a call that returned a pointer: the context's error if
/// it has one, else the pointer, checked not to be null.
pub open spec fn spec_nix_ptr_fn(ctx: ErrorContextView, ptr: usize) -> Result<usize, NixideErrorView> {
    match spec_peak(ctx) {
        Err(e) => Err(e),
        Ok(()) => spec_nonnull(ptr),
    }
}

/// The string that a callback was handed: `NullPtr` for none (or a null
/// pointer), the empty string for no bytes, else the bytes decoded.
pub open spec fn spec_delivered_string(delivered: Option<Seq<u8>>) -> Result<
    Seq<char>,
    NixideErrorView,
> {
    match delivered {
        None => Err(NixideErrorView::NullPtr { trace: read_trace() }),
        Some(bytes) => if bytes.len() == 0 {
            Ok(Seq::empty())
        } else {
            spec_decode(bytes, read_trace())
        },
    }
}

/// The outcome of a call that hands a string to a callback: the context's
/// error if it has one, else the string handed over.
pub open spec fn spec_nix_string_callback(
    ctx: ErrorContextView,
    delivered: Option<Seq<u8>>,
) -> Result<Seq<char>, NixideErrorView> {
    match spec_peak(ctx) {
        Err(e) => Err(e),
        Ok(()) => spec_delivered_string(delivered),
    }
}

/// The view of a result that holds a libnix object: the object's address.
pub open spec fn ptr_result_view<T: AsInnerPtr>(r: NixideResult<T>) -> Result<usize, NixideErrorView> {
    match r {
        Ok(v) => Ok(v.spec_ptr()),
        Err(e) => Err(e@),
    }
}

/// The view of optional bytes.
pub open spec fn opt_bytes(d: Option<Vec<u8>>) -> Option<Seq<u8>> {
    match d {
        Some(b) => Some(b@),
        None => None,
    }
}

/// Checks that a pointer returned by libnix is not null.
pub fn nonnull(ptr: usize) -> (r: NixideResult<usize>)
    ensures
        result_view(r) == spec_nonnull(ptr),
{
    if ptr == 0 {
        Err(NixideError::null_ptr("nixide::util::wrap::nonnull"))
    } else {
        Ok(ptr)
    }
}

/// Finishes a call that returned `value`: pops the context's error, if
/// any, else keeps the value.
pub fn nix_fn<T>(ctx: ErrorContext, value: T) -> (r: NixideResult<T>)
    ensures
        result_view(r) == spec_nix_fn(ctx@, value),
{
    let mut ctx = ctx;
    match ctx.pop() {
        Ok(()) => Ok(value),
        Err(e) => Err(e),
    }
}

/// Finishes a call that returned a pointer: pops the context's error, if
/// any, else checks that the pointer is not null.
pub fn nix_ptr_fn(ctx: ErrorContext, ptr: usize) -> (r: NixideResult<usize>)
    ensures
        result_view(r) == spec_nix_ptr_fn(ctx@, ptr),
{
    match nix_fn(ctx, ptr) {
        Ok(p) => nonnull(p),
        Err(e) => Err(e),
    }
}

/// Decodes the string that a callback was handed.
pub fn delivered_string(delivered: Option<Vec<u8>>) -> (r: NixideResult<String>)
    ensures
        string_result_view(r) == spec_delivered_string(opt_bytes(delivered)),
{
    match delivered {
        None => {
            let e = NixideError::null_ptr("nixide::stdext::CCharPtrExt::to_utf8_string");
            Err(e)
        },
        Some(bytes) => {
            if bytes.len() == 0 {
                return Ok(String::new());
            }
            assert(bytes@.take(bytes@.len() as int) =~= bytes@);
            let mem: Option<&[u8]> = Some(bytes.as_slice());
            mem.to_utf8_string_n(bytes.len())
        },
    }
}

/// Finishes a call that hands a string to a callback: pops the context's
/// error, if any, else decodes the string handed over.
pub fn nix_string_callback(ctx: ErrorContext, delivered: Option<Vec<u8>>) -> (r: NixideResult<
    String,
>)
    ensures
        string_result_view(r) == spec_nix_string_callback(ctx@, opt_bytes(delivered)),
{
    let mut ctx = ctx;
    match ctx.pop() {
        Err(e) => Err(e),
        Ok(()) => delivered_string(delivered),
    }
}

/// As [`nix_string_callback`], for a string that names a path.
pub fn nix_pathbuf_callback(ctx: ErrorContext, delivered: Option<Vec<u8>>) -> (r: NixideResult<
    String,
>)
    ensures
        string_result_view(r) == spec_nix_string_callback(ctx@, opt_bytes(delivered)),
{
    nix_string_callback(ctx, delivered)
}

/// A string handed to a callback is exactly the decoding of the bytes
/// handed over, so that encoding it gives those bytes back; bytes that are
/// not UTF-8 give `StringNotUtf8`, and no bytes at all `NullPtr`.
pub proof fn lemma_delivered_string_is_the_bytes(b: Seq<u8>)
    ensures
        valid_utf8(b) ==> spec_delivered_string(Some(b)) == Ok::<Seq<char>, NixideErrorView>(
            decode_utf8(b),
        ),
        valid_utf8(b) ==> (spec_delivered_string(Some(b)) matches Ok(s) && vstd::utf8::encode_utf8(s)
            == b),
        !valid_utf8(b) ==> spec_delivered_string(Some(b)) is Err && spec_delivered_string(Some(b))->Err_0
            is StringNotUtf8,
        spec_delivered_string(None) is Err && spec_delivered_string(None)->Err_0 is NullPtr,
{
    if b.len() == 0 {
        assert(valid_utf8(b));
        assert(decode_utf8(b) =~= Seq::<char>::empty());
    }
    if valid_utf8(b) {
        vstd::utf8::decode_utf8_encode_utf8(b);
    }
}

/// The answer of a call that hands a string to a callback: the context's
/// error if it holds one, whatever was handed over; else exactly the
/// decoding of the bytes handed over.
pub proof fn lemma_string_callback_answer(ctx: ErrorContextView, b: Seq<u8>)
    ensures
        spec_peak(ctx) matches Err(e) ==> spec_nix_string_callback(ctx, Some(b)) == Err::<
            Seq<char>,
            NixideErrorView,
        >(e),
        spec_peak(ctx) is Ok && valid_utf8(b) ==> spec_nix_string_callback(ctx, Some(b)) == Ok::<
            Seq<char>,
            NixideErrorView,
        >(decode_utf8(b)),
        spec_peak(ctx) is Ok && valid_utf8(b) ==> (spec_nix_string_callback(ctx, Some(b)) matches Ok(
            s,
        ) && vstd::utf8::encode_utf8(s) == b),
{
    lemma_delivered_string_is_the_bytes(b);
}

} // verus!
