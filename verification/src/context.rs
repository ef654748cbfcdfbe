//! The root libnix context, with the libraries it initializes.

use vstd::prelude::*;

use crate::error::{spec_from_code, NixError, NixErrorView};
use crate::util::wrappers::AsInnerPtr;

verus! {

/// The libnix libraries that a [`Context`] initializes, in order.
#[derive(Debug, Clone, Copy, PartialEq, Eq, Structural)]
pub enum LibnixInit {
    /// `nix_libutil_init`.
    Util,
    /// `nix_libstore_init`.
    Store,
    /// `nix_libexpr_init`.
    Expr,
}

/// The view of a result that holds a context: its address.
pub open spec fn context_result_view(r: Result<Context, NixError>) -> Result<usize, NixErrorView> {
    match r {
        Ok(c) => Ok(c.spec_ptr()),
        Err(e) => Err(e@),
    }
}

/// What initializing the libraries from `step` on gives, given the codes
/// that the initialization calls return: the error of the first code that
/// is not `NIX_OK`, else the context.
pub open spec fn spec_init_from<I: Fn(usize, LibnixInit) -> i32>(
    ctx: usize,
    init: I,
    r: Result<Context, NixError>,
) -> bool {
    exists|c1: i32|
        #[trigger] init.ensures((ctx, LibnixInit::Util), c1) && match spec_from_code(
            c1,
            "nix_libutil_init"@,
        ) {
            Some(e) => context_result_view(r) == Err::<usize, NixErrorView>(e),
            None => exists|c2: i32|
                #[trigger] init.ensures((ctx, LibnixInit::Store), c2) && match spec_from_code(
                    c2,
                    "nix_libstore_init"@,
                ) {
                    Some(e) => context_result_view(r) == Err::<usize, NixErrorView>(e),
                    None => exists|c3: i32|
                        #[trigger] init.ensures((ctx, LibnixInit::Expr), c3) && match spec_from_code(
                            c3,
                            "nix_libexpr_init"@,
                        ) {
                            Some(e) => context_result_view(r) == Err::<usize, NixErrorView>(e),
                            None => context_result_view(r) == Ok::<usize, NixErrorView>(ctx),
                        },
                },
        }
}

/// The root of all libnix operations, held by its address.
pub struct Context {
    inner: usize,
}

impl Context {
    #[verifier::type_invariant]
    spec fn inv(self) -> bool {
        self.inner != 0
    }

    /// A new context with the libraries initialized: `create` calls
    /// `nix_c_context_create` and `init` calls the initialization of a
    /// library with the context, returning its code. `NullPtr` if no
    /// context was created; then the libraries are initialized in order,
    /// and the first that fails ends it with its error.
    pub fn new<C, I>(create: C, init: I) -> (r: Result<Self, NixError>) where
        C: FnOnce() -> usize,
        I: Fn(usize, LibnixInit) -> i32,

        requires
            create.requires(()),
            forall|c: usize, l: LibnixInit| #[trigger] init.requires((c, l)),
        ensures
            exists|p: usize|
                #[trigger] create.ensures((), p) && if p == 0 {
                    context_result_view(r) == Err::<usize, NixErrorView>(
                        NixErrorView::NullPtr { location: "nix_c_context_create"@ },
                    )
                } else {
                    spec_init_from(p, init, r)
                },
    {
        let p = create();
        if p == 0 {
            return Err(NixError::NullPtr { location: "nix_c_context_create" });
        }
        let c1 = init(p, LibnixInit::Util);
        match NixError::from(c1, "nix_libutil_init") {
            Ok(()) => {},
            Err(e) => return Err(e),
        }
        let c2 = init(p, LibnixInit::Store);
        match NixError::from(c2, "nix_libstore_init") {
            Ok(()) => {},
            Err(e) => return Err(e),
        }
        let c3 = init(p, LibnixInit::Expr);
        match NixError::from(c3, "nix_libexpr_init") {
            Ok(()) => {},
            Err(e) => return Err(e),
        }
        Ok(Context { inner: p })
    }
}

impl AsInnerPtr for Context {
    closed spec fn spec_ptr(&self) -> usize {
        self.inner
    }

    fn as_ptr(&self) -> (p: usize) {
        self.inner
    }
}

} // verus!
