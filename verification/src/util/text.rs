//! Text helpers: decimal rendering of integers and UTF-8 decoding of bytes.

use vstd::prelude::*;
use vstd::string::StrSliceExecFns;
use vstd::utf8::*;

verus! {

/// The ASCII digit for `d` (`0 <= d < 10`).
pub open spec fn digit_char(d: nat) -> char {
    (48 + d) as char
}

/// The decimal digits of a natural number, most significant first.
pub open spec fn decimal_digits(n: nat) -> Seq<char>
    decreases n,
{
    if n < 10 {
        seq![digit_char(n)]
    } else {
        decimal_digits(n / 10) + seq![digit_char(n % 10)]
    }
}

/// The decimal rendering of an integer: a `-` before the digits of its
/// magnitude when it is negative.
pub open spec fn decimal(x: int) -> Seq<char> {
    if x < 0 {
        seq!['-'] + decimal_digits((-x) as nat)
    } else {
        decimal_digits(x as nat)
    }
}

/// Appends the decimal digits of `n` to `s`.
fn push_decimal_digits(s: &mut String, n: u64)
    ensures
        final(s)@ == old(s)@ + decimal_digits(n as nat),
    decreases n,
{
    if n >= 10 {
        push_decimal_digits(s, n / 10);
    }
    let d: usize = (n % 10) as usize;
    let digits = "0123456789";
    proof {
        reveal_strlit("0123456789");
    }
    let piece = digits.substring_char(d, d + 1);
    assert(piece@ =~= seq![digit_char(d as nat)]);
    s.append(piece);
    assert(n >= 10 ==> decimal_digits(n as nat) == decimal_digits((n / 10) as nat) + seq![
        digit_char((n % 10) as nat),
    ]);
}

/// Renders `x` in decimal: a `-` before the digits of its magnitude when
/// it is negative, and no leading zeros.
pub(crate) fn int_to_string(x: i64) -> (s: String)
    ensures
        s@ == decimal(x as int),
{
    let mut s = String::new();
    if x < 0 {
        s.append("-");
        proof {
            reveal_strlit("-");
        }
        let magnitude: u64 = (0i128 - (x as i128)) as u64;
        push_decimal_digits(&mut s, magnitude);
    } else {
        push_decimal_digits(&mut s, x as u64);
    }
    s
}

/// Decodes `bytes` as UTF-8.
///
/// Calls `std::str::from_utf8`, which accepts exactly the valid UTF-8
/// byte sequences and then yields the characters they encode; the
/// contract states that over vstd's definitions of validity and decoding.
#[verifier::external_body]
pub(crate) fn utf8_to_string(bytes: &[u8]) -> (r: Option<String>)
    ensures
        r is Some <==> valid_utf8(bytes@),
        r matches Some(s) ==> s@ == decode_utf8(bytes@),
{
    match std::str::from_utf8(bytes) {
        Ok(s) => Some(s.to_string()),
        Err(_) => None,
    }
}

} // verus!
