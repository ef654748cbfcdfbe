//! Reading C strings handed over by libnix.

use vstd::prelude::*;

use crate::errors::error::{NixideErrorView, NixideResult};
use crate::stdext::cchar_ptr_ext::{
    is_first_nul, spec_to_utf8_string, spec_to_utf8_string_n, CCharPtrExt,
};

verus! {

/// Reading a C string that libnix handed over into a Rust `String`.
pub trait CCharPtrNixExt: Sized {
    /// The memory that the pointer reaches, `None` for a null pointer.
    spec fn nix_memory(&self) -> Option<Seq<u8>>;

    /// Reads the NUL-terminated string: `NullPtr` for a null pointer,
    /// `StringNotUtf8` if its bytes are not UTF-8.
    fn to_utf8_string(self) -> (r: NixideResult<String>)
        requires
            self.nix_memory() matches Some(m) ==> exists|k: int| is_first_nul(m, k),
        ensures
            match r {
                Ok(s) => spec_to_utf8_string(self.nix_memory()) == Ok::<
                    Seq<char>,
                    NixideErrorView,
                >(s@),
                Err(e) => spec_to_utf8_string(self.nix_memory()) == Err::<
                    Seq<char>,
                    NixideErrorView,
                >(e@),
            },
    ;

    /// Reads the first `n` bytes: `NullPtr` for a null pointer,
    /// `StringNotUtf8` if the bytes are not UTF-8, else their text (empty
    /// for `n == 0`).
    fn to_utf8_string_sized(self, n: usize) -> (r: NixideResult<String>)
        requires
            self.nix_memory() matches Some(m) ==> n <= m.len(),
        ensures
            match r {
                Ok(s) => spec_to_utf8_string_n(self.nix_memory(), n as nat) == Ok::<
                    Seq<char>,
                    NixideErrorView,
                >(s@),
                Err(e) => spec_to_utf8_string_n(self.nix_memory(), n as nat) == Err::<
                    Seq<char>,
                    NixideErrorView,
                >(e@),
            },
    ;
}

impl<'a> CCharPtrNixExt for Option<&'a [u8]> {
    open spec fn nix_memory(&self) -> Option<Seq<u8>> {
        match self {
            Some(m) => Some(m@),
            None => None,
        }
    }

    fn to_utf8_string(self) -> (r: NixideResult<String>) {
        CCharPtrExt::to_utf8_string(self)
    }

    fn to_utf8_string_sized(self, n: usize) -> (r: NixideResult<String>) {
        CCharPtrExt::to_utf8_string_n(self, n)
    }
}

} // verus!
