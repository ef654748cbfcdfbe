//! References to flakes.

use vstd::prelude::*;
use vstd::string::StrSliceExecFns;

use super::fetchers_settings::FetchersSettings;
use super::flake_reference_parse_flags::FlakeReferenceParseFlags;
use super::flake_settings::FlakeSettings;
use crate::errors::context::ErrorContext;
use crate::errors::error::{NixideError, NixideErrorView, NixideResult};
use crate::stdext::cchar_ptr_ext::utf8_bytes;
use crate::util::wrap::{nix_string_callback, opt_bytes, spec_nix_string_callback};
use crate::util::wrappers::AsInnerPtr;

verus! {

/// A parsed flake reference, held by its address, with the fragment that
/// followed its `#` and the settings it was parsed with.
pub struct FlakeRef {
    inner: usize,
    fragment: String,
    fetch_settings: FetchersSettings,
    flake_settings: FlakeSettings,
}

/// The trace of the error raised when parsing yields a null reference.
pub open spec fn parse_trace() -> Seq<char> {
    "nixide::flake::FlakeRef::parse"@
}

/// The view of a result that holds a flake reference: its address and its
/// fragment.
pub open spec fn flake_ref_result_view(r: NixideResult<FlakeRef>) -> Result<
    (usize, Seq<char>),
    NixideErrorView,
> {
    match r {
        Ok(f) => Ok((f.spec_ptr(), f.spec_fragment())),
        Err(e) => Err(e@),
    }
}

/// What parsing gives once the settings and parameters are made: the
/// reference's UTF-8 bytes and their number are handed to `parse`, and the
/// outcome is its context's error, else `NullPtr` for a null reference,
/// else the reference and the fragment it handed over.
pub open spec fn spec_parsed<D>(
    reference: Seq<char>,
    fetchers: usize,
    settings: usize,
    flags: usize,
    parse: D,
    r: NixideResult<FlakeRef>,
) -> bool where D: FnOnce(usize, usize, usize, Vec<u8>, usize) -> (ErrorContext, Option<Vec<u8>>, usize) {
    exists|b: Vec<u8>, ctx: ErrorContext, d: Option<Vec<u8>>, p: usize|
        b@ == utf8_bytes(reference) && #[trigger] parse.ensures(
            (fetchers, settings, flags, b, b@.len() as usize),
            (ctx, d, p),
        ) && match spec_nix_string_callback(ctx@, opt_bytes(d)) {
            Err(e) => flake_ref_result_view(r) == Err::<(usize, Seq<char>), NixideErrorView>(e),
            Ok(fragment) => if p == 0 {
                flake_ref_result_view(r) == Err::<(usize, Seq<char>), NixideErrorView>(
                    NixideErrorView::NullPtr { trace: parse_trace() },
                )
            } else {
                flake_ref_result_view(r) == Ok::<(usize, Seq<char>), NixideErrorView>(
                    (p, fragment),
                )
            },
        }
}

impl FlakeRef {
    #[verifier::type_invariant]
    spec fn inv(self) -> bool {
        self.inner != 0
    }

    /// The fragment that followed the reference's `#`.
    pub closed spec fn spec_fragment(&self) -> Seq<char> {
        self.fragment@
    }

    /// Parses a flake reference such as `github:owner/repo`, possibly
    /// followed by `#` and a fragment. New fetcher settings, flake settings
    /// and parse parameters (for those flake settings) are made first, and
    /// the first of them that fails ends it with its error; then `parse`
    /// calls `nix_flake_reference_and_fragment_from_string` with the three
    /// and the reference's UTF-8 bytes and their number, and returns the
    /// context, the fragment it was handed and the reference it returned.
    pub fn parse<A, B, C, D>(
        reference: &str,
        make_fetchers: A,
        make_settings: B,
        make_flags: C,
        parse: D,
    ) -> (r: NixideResult<FlakeRef>) where
        A: FnOnce() -> NixideResult<FetchersSettings>,
        B: FnOnce() -> NixideResult<FlakeSettings>,
        C: FnOnce(usize) -> NixideResult<FlakeReferenceParseFlags>,
        D: FnOnce(usize, usize, usize, Vec<u8>, usize) -> (ErrorContext, Option<Vec<u8>>, usize),

        requires
            make_fetchers.requires(()),
            make_settings.requires(()),
            forall|s: usize| #[trigger] make_flags.requires((s,)),
            forall|f: usize, s: usize, g: usize, b: Vec<u8>, n: usize| #[trigger]
                parse.requires((f, s, g, b, n)),
        ensures
            exists|ra: NixideResult<FetchersSettings>|
                #[trigger] make_fetchers.ensures((), ra) && match ra {
                    Err(e) => flake_ref_result_view(r) == Err::<(usize, Seq<char>), NixideErrorView>(
                        e@,
                    ),
                    Ok(fs) => exists|rb: NixideResult<FlakeSettings>|
                        #[trigger] make_settings.ensures((), rb) && match rb {
                            Err(e) => flake_ref_result_view(r) == Err::<
                                (usize, Seq<char>),
                                NixideErrorView,
                            >(e@),
                            Ok(ss) => exists|rc: NixideResult<FlakeReferenceParseFlags>|
                                #[trigger] make_flags.ensures((ss.spec_ptr(),), rc) && match rc {
                                    Err(e) => flake_ref_result_view(r) == Err::<
                                        (usize, Seq<char>),
                                        NixideErrorView,
                                    >(e@),
                                    Ok(pf) => spec_parsed(
                                        reference@,
                                        fs.spec_ptr(),
                                        ss.spec_ptr(),
                                        pf.spec_ptr(),
                                        parse,
                                        r,
                                    ),
                                },
                        },
                },
    {
        let fetch_settings = match make_fetchers() {
            Ok(s) => s,
            Err(e) => return Err(e),
        };
        let flake_settings = match make_settings() {
            Ok(s) => s,
            Err(e) => return Err(e),
        };
        let parse_flags = match make_flags(flake_settings.as_ptr()) {
            Ok(f) => f,
            Err(e) => return Err(e),
        };
        let bytes = reference.as_bytes_vec();
        let n = bytes.len();
        let ghost gb = bytes;
        let (ctx, delivered, ptr) = parse(
            fetch_settings.as_ptr(),
            flake_settings.as_ptr(),
            parse_flags.as_ptr(),
            bytes,
            n,
        );
        let ghost gctx = ctx;
        let ghost gd = delivered;
        let r = match nix_string_callback(ctx, delivered) {
            Err(e) => Err(e),
            Ok(fragment) => {
                if ptr == 0 {
                    Err(NixideError::null_ptr("nixide::flake::FlakeRef::parse"))
                } else {
                    Ok(FlakeRef { inner: ptr, fragment, fetch_settings, flake_settings })
                }
            },
        };
        assert(parse.ensures(
            (fetch_settings.spec_ptr(), flake_settings.spec_ptr(), parse_flags.spec_ptr(), gb, gb@.len() as usize),
            (gctx, gd, ptr),
        ));
        assert(spec_parsed(
            reference@,
            fetch_settings.spec_ptr(),
            flake_settings.spec_ptr(),
            parse_flags.spec_ptr(),
            parse,
            r,
        ));
        r
    }

    /// The fragment that followed the reference's `#` (empty if none).
    pub fn fragment(&self) -> (f: &str)
        ensures
            f@ == self.spec_fragment(),
    {
        self.fragment.as_str()
    }
}

impl AsInnerPtr for FlakeRef {
    closed spec fn spec_ptr(&self) -> usize {
        self.inner
    }

    fn as_ptr(&self) -> (p: usize) {
        self.inner
    }
}

} // verus!
