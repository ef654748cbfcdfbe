//! Conversions between Rust strings and C strings.
//!
//! A C string handed to libnix is its UTF-8 bytes followed by a NUL byte;
//! a C string read from libnix is given as the memory that its pointer
//! reaches (`None` for a null pointer).

use vstd::prelude::*;
use vstd::string::StrSliceExecFns;
use vstd::utf8::{decode_utf8, valid_utf8};

use crate::errors::error::{NixideError, NixideErrorView, NixideResult, result_view};
use crate::util::text::utf8_to_string;

verus! {

/// The UTF-8 encoding of a text.
pub open spec fn utf8_bytes(s: Seq<char>) -> Seq<u8> {
    vstd::utf8::encode_utf8(s)
}

/// The trace of the errors raised by the conversions of this module.
pub open spec fn c_string_trace() -> Seq<char> {
    "nixide::stdext::AsCPtr::as_c_ptr"@
}

/// What converting a text to a C string gives.
pub open spec fn spec_as_c_ptr(s: Seq<char>) -> Result<Seq<u8>, NixideErrorView> {
    if s.contains('\0') {
        Err(NixideErrorView::StringNulByte { trace: c_string_trace() })
    } else {
        Ok(utf8_bytes(s).push(0u8))
    }
}

/// Whether the text `s` holds the character `c`.
pub fn contains_char(s: &str, c: char) -> (r: bool)
    ensures
        r == s@.contains(c),
{
    let len = s.unicode_len();
    let mut i: usize = 0;
    while i < len
        invariant
            len == s@.len(),
            i <= len,
            forall|j: int| 0 <= j < i ==> s@[j] != c,
        decreases len - i,
    {
        if s.get_char(i) == c {
            assert(s@[i as int] == c);
            return true;
        }
        i = i + 1;
    }
    false
}

/// Whether the text `s` holds a NUL character.
pub fn contains_nul(s: &str) -> (r: bool)
    ensures
        r == s@.contains('\0'),
{
    contains_char(s, '\0')
}

/// Converts a text to the C string that libnix is handed.
pub fn str_to_c_string(s: &str) -> (r: NixideResult<Vec<u8>>)
    ensures
        match r {
            Ok(bytes) => spec_as_c_ptr(s@) == Ok::<Seq<u8>, NixideErrorView>(bytes@),
            Err(e) => spec_as_c_ptr(s@) == Err::<Seq<u8>, NixideErrorView>(e@),
        },
{
    if contains_nul(s) {
        return Err(NixideError::string_nul_byte("nixide::stdext::AsCPtr::as_c_ptr"));
    }
    let mut bytes = s.as_bytes_vec();
    bytes.push(0u8);
    Ok(bytes)
}

/// Conversion of a text to a C string.
pub trait AsCPtr {
    /// The text that is converted.
    spec fn c_text(&self) -> Seq<char>;

    /// The C string (UTF-8 bytes and a NUL), or `StringNulByte` if the text
    /// holds a NUL character.
    fn as_c_ptr(&self) -> (r: NixideResult<Vec<u8>>)
        ensures
            match r {
                Ok(bytes) => spec_as_c_ptr(self.c_text()) == Ok::<Seq<u8>, NixideErrorView>(
                    bytes@,
                ),
                Err(e) => spec_as_c_ptr(self.c_text()) == Err::<Seq<u8>, NixideErrorView>(e@),
            },
    ;

    /// As [`AsCPtr::as_c_ptr`], taking the text by value.
    fn into_c_ptr(self) -> (r: NixideResult<Vec<u8>>)
        ensures
            match r {
                Ok(bytes) => spec_as_c_ptr(self.c_text()) == Ok::<Seq<u8>, NixideErrorView>(
                    bytes@,
                ),
                Err(e) => spec_as_c_ptr(self.c_text()) == Err::<Seq<u8>, NixideErrorView>(e@),
            },
    ;
}

impl<'a> AsCPtr for &'a str {
    open spec fn c_text(&self) -> Seq<char> {
        (*self)@
    }

    fn as_c_ptr(&self) -> (r: NixideResult<Vec<u8>>) {
        str_to_c_string(*self)
    }

    fn into_c_ptr(self) -> (r: NixideResult<Vec<u8>>) {
        str_to_c_string(self)
    }
}

impl AsCPtr for String {
    open spec fn c_text(&self) -> Seq<char> {
        self@
    }

    fn as_c_ptr(&self) -> (r: NixideResult<Vec<u8>>) {
        str_to_c_string(self.as_str())
    }

    fn into_c_ptr(self) -> (r: NixideResult<Vec<u8>>) {
        str_to_c_string(self.as_str())
    }
}

/// `k` is the index of the first NUL byte of `mem`.
pub open spec fn is_first_nul(mem: Seq<u8>, k: int) -> bool {
    &&& 0 <= k < mem.len()
    &&& mem[k] == 0u8
    &&& forall|j: int| 0 <= j < k ==> mem[j] != 0u8
}

/// What decoding the bytes of a C string gives: the characters they
/// encode, or `StringNotUtf8` (raised by `trace`) if they are not UTF-8.
pub open spec fn spec_decode(bytes: Seq<u8>, trace: Seq<char>) -> Result<Seq<char>, NixideErrorView> {
    if valid_utf8(bytes) {
        Ok(decode_utf8(bytes))
    } else {
        Err(NixideErrorView::StringNotUtf8 { trace })
    }
}

/// The trace of the errors raised when reading C strings.
pub open spec fn read_trace() -> Seq<char> {
    "nixide::stdext::CCharPtrExt::to_utf8_string"@
}

/// What reading a NUL-terminated C string gives; `mem` is the memory that
/// its pointer reaches, `None` for a null pointer.
pub open spec fn spec_to_utf8_string(mem: Option<Seq<u8>>) -> Result<Seq<char>, NixideErrorView> {
    match mem {
        None => Err(NixideErrorView::NullPtr { trace: read_trace() }),
        Some(m) => spec_decode(m.take(choose|k: int| is_first_nul(m, k)), read_trace()),
    }
}

/// What reading the first `n` bytes of a C string gives.
pub open spec fn spec_to_utf8_string_n(mem: Option<Seq<u8>>, n: nat) -> Result<
    Seq<char>,
    NixideErrorView,
> {
    match mem {
        None => Err(NixideErrorView::NullPtr { trace: read_trace() }),
        Some(m) => spec_decode(m.take(n as int), read_trace()),
    }
}

/// The encoding of a character other than NUL holds no zero byte.
proof fn lemma_encode_scalar_nonzero(c: char)
    requires
        c != '\0',
    ensures
        forall|i: int|
            0 <= i < vstd::utf8::encode_scalar(c as u32).len() ==> #[trigger] vstd::utf8::encode_scalar(
                c as u32,
            )[i] != 0u8,
{
    vstd::utf8::char_is_scalar(c);
    let v = c as u32;
    assert(v != 0);
    assert(v <= 0x7F && v != 0 ==> (v & 0x7F) as u8 != 0u8) by (bit_vector);
    assert(0xC0u8 | ((v >> 6) & 0x1F) as u8 != 0u8) by (bit_vector);
    assert(0xE0u8 | ((v >> 12) & 0x0F) as u8 != 0u8) by (bit_vector);
    assert(0xF0u8 | ((v >> 18) & 0x7) as u8 != 0u8) by (bit_vector);
    assert(0x80u8 | (v & 0x3F) as u8 != 0u8) by (bit_vector);
    assert(0x80u8 | ((v >> 6) & 0x3F) as u8 != 0u8) by (bit_vector);
    assert(0x80u8 | ((v >> 12) & 0x3F) as u8 != 0u8) by (bit_vector);
}

/// The encoding of a text without NUL characters holds no zero byte.
proof fn lemma_encode_no_zero(s: Seq<char>)
    requires
        !s.contains('\0'),
    ensures
        forall|i: int| 0 <= i < utf8_bytes(s).len() ==> #[trigger] utf8_bytes(s)[i] != 0u8,
    decreases s.len(),
{
    if s.len() > 0 {
        let head = vstd::utf8::encode_scalar(s[0] as u32);
        let rest = s.drop_first();
        assert(s[0] != '\0') by {
            if s[0] == '\0' {
                assert(s.contains('\0'));
            }
        }
        lemma_encode_scalar_nonzero(s[0]);
        assert(!rest.contains('\0')) by {
            if rest.contains('\0') {
                let j = choose|j: int| 0 <= j < rest.len() && rest[j] == '\0';
                assert(s[j + 1] == '\0');
            }
        }
        lemma_encode_no_zero(rest);
        assert(utf8_bytes(s) == head + utf8_bytes(rest));
        assert forall|i: int| 0 <= i < utf8_bytes(s).len() implies #[trigger] utf8_bytes(s)[i]
            != 0u8 by {
            if i < head.len() {
                assert(utf8_bytes(s)[i] == head[i]);
            } else {
                assert(utf8_bytes(s)[i] == utf8_bytes(rest)[i - head.len()]);
            }
        }
    }
}

/// A text without NUL characters, converted to a C string and read back,
/// is the same text; a text with a NUL character is refused.
pub proof fn lemma_c_string_round_trip(s: Seq<char>)
    ensures
        spec_as_c_ptr(s) is Err <==> s.contains('\0'),
        !s.contains('\0') ==> (spec_as_c_ptr(s) matches Ok(bytes) && spec_to_utf8_string(
            Some(bytes),
        ) == Ok::<Seq<char>, NixideErrorView>(s)),
{
    if !s.contains('\0') {
        let enc = utf8_bytes(s);
        let bytes = enc.push(0u8);
        lemma_encode_no_zero(s);
        let n = enc.len() as int;
        assert(is_first_nul(bytes, n));
        let k = choose|k: int| is_first_nul(bytes, k);
        assert(k == n) by {
            if k < n {
                assert(bytes[k] == enc[k]);
            } else if k > n {
                assert(bytes[n] != 0u8);
            }
        }
        assert(bytes.take(k) =~= enc);
        vstd::utf8::encode_utf8_valid_utf8(s);
        vstd::utf8::encode_utf8_decode_utf8(s);
    }
}

/// Reading no bytes of a non-null C string gives the empty text.
pub proof fn lemma_read_zero_bytes(m: Seq<u8>)
    ensures
        spec_to_utf8_string_n(Some(m), 0) == Ok::<Seq<char>, NixideErrorView>(Seq::empty()),
{
    assert(m.take(0) =~= Seq::<u8>::empty());
    assert(valid_utf8(Seq::<u8>::empty()));
    assert(decode_utf8(Seq::<u8>::empty()) =~= Seq::<char>::empty());
}

/// Decodes bytes as UTF-8, failing with `StringNotUtf8`.
pub fn decode_bytes(bytes: &[u8]) -> (r: NixideResult<String>)
    ensures
        match r {
            Ok(s) => spec_decode(bytes@, read_trace()) == Ok::<Seq<char>, NixideErrorView>(s@),
            Err(e) => spec_decode(bytes@, read_trace()) == Err::<Seq<char>, NixideErrorView>(e@),
        },
{
    match utf8_to_string(bytes) {
        Some(s) => Ok(s),
        None => Err(NixideError::string_not_utf8("nixide::stdext::CCharPtrExt::to_utf8_string")),
    }
}

/// The first `n` bytes of `mem`.
pub fn take_bytes(mem: &[u8], n: usize) -> (r: Vec<u8>)
    requires
        n <= mem@.len(),
    ensures
        r@ == mem@.take(n as int),
{
    let mut r: Vec<u8> = Vec::new();
    let mut i: usize = 0;
    while i < n
        invariant
            n <= mem@.len(),
            i <= n,
            r@ == mem@.take(i as int),
        decreases n - i,
    {
        r.push(mem[i]);
        i = i + 1;
        assert(r@ =~= mem@.take(i as int));
    }
    r
}

/// Reading a C string into a Rust `String`.
pub trait CCharPtrExt: Sized {
    /// The memory that the pointer reaches, `None` for a null pointer.
    spec fn memory(&self) -> Option<Seq<u8>>;

    /// Reads the NUL-terminated string: `NullPtr` for a null pointer,
    /// `StringNotUtf8` if its bytes are not UTF-8.
    fn to_utf8_string(self) -> (r: NixideResult<String>)
        requires
            self.memory() matches Some(m) ==> exists|k: int| is_first_nul(m, k),
        ensures
            match r {
                Ok(s) => spec_to_utf8_string(self.memory()) == Ok::<Seq<char>, NixideErrorView>(
                    s@,
                ),
                Err(e) => spec_to_utf8_string(self.memory()) == Err::<Seq<char>, NixideErrorView>(
                    e@,
                ),
            },
    ;

    /// Reads the first `n` bytes: `NullPtr` for a null pointer,
    /// `StringNotUtf8` if the bytes are not UTF-8, else their text (empty
    /// for `n == 0`).
    fn to_utf8_string_n(self, n: usize) -> (r: NixideResult<String>)
        requires
            self.memory() matches Some(m) ==> n <= m.len(),
        ensures
            match r {
                Ok(s) => spec_to_utf8_string_n(self.memory(), n as nat) == Ok::<
                    Seq<char>,
                    NixideErrorView,
                >(s@),
                Err(e) => spec_to_utf8_string_n(self.memory(), n as nat) == Err::<
                    Seq<char>,
                    NixideErrorView,
                >(e@),
            },
    ;
}

impl<'a> CCharPtrExt for Option<&'a [u8]> {
    open spec fn memory(&self) -> Option<Seq<u8>> {
        match self {
            Some(m) => Some(m@),
            None => None,
        }
    }

    fn to_utf8_string(self) -> (r: NixideResult<String>) {
        match self {
            None => Err(NixideError::null_ptr("nixide::stdext::CCharPtrExt::to_utf8_string")),
            Some(mem) => {
                let mut k: usize = 0;
                while mem[k] != 0u8
                    invariant
                        exists|j: int| is_first_nul(mem@, j),
                        k < mem@.len(),
                        forall|j: int| 0 <= j < k ==> mem@[j] != 0u8,
                    decreases mem@.len() - k,
                {
                    k = k + 1;
                    assert(k < mem@.len()) by {
                        let j = choose|j: int| is_first_nul(mem@, j);
                        assert(j >= k);
                    }
                }
                assert(is_first_nul(mem@, k as int));
                assert forall|j: int| is_first_nul(mem@, j) implies j == k by {
                    if j < k {
                        assert(mem@[j] != 0u8);
                    } else if j > k {
                        assert(mem@[k as int] != 0u8);
                    }
                }
                let bytes = take_bytes(mem, k);
                decode_bytes(bytes.as_slice())
            },
        }
    }

    fn to_utf8_string_n(self, n: usize) -> (r: NixideResult<String>) {
        match self {
            None => Err(NixideError::null_ptr("nixide::stdext::CCharPtrExt::to_utf8_string")),
            Some(mem) => {
                let bytes = take_bytes(mem, n);
                decode_bytes(bytes.as_slice())
            },
        }
    }
}

} // verus!
