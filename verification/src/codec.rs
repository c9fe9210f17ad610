//! Byte and text conversions that the request path relies on: UTF-8 checks,
//! base64 decoding and decimal rendering of integers.

use base64::Engine;
use vstd::prelude::*;
use vstd::utf8::*;

verus! {

/// The decimal digit `d` (for `d < 10`) as a character.
pub open spec fn digit_char(d: nat) -> char {
    ((48 + d) as u32) as char
}

/// The decimal rendering of `n`, most significant digit first, without
/// leading zeros ("0" for zero).
pub open spec fn decimal_digits(n: nat) -> Seq<char>
    decreases n,
{
    if n < 10 {
        seq![digit_char(n)]
    } else {
        decimal_digits(n / 10).push(digit_char(n % 10))
    }
}

/// A decimal rendering has at least one digit, and at least two from ten on.
pub proof fn lemma_decimal_digits_len(n: nat)
    ensures
        decimal_digits(n).len() >= 1,
        n >= 10 ==> decimal_digits(n).len() >= 2,
    decreases n,
{
    if n >= 10 {
        lemma_decimal_digits_len(n / 10);
    }
}

/// Distinct numbers have distinct decimal renderings.
pub proof fn lemma_decimal_digits_injective(a: nat, b: nat)
    ensures
        decimal_digits(a) == decimal_digits(b) ==> a == b,
    decreases a,
{
    lemma_decimal_digits_len(a);
    lemma_decimal_digits_len(b);
    if decimal_digits(a) == decimal_digits(b) {
        if a < 10 {
            assert(decimal_digits(a)[0] == digit_char(a));
            assert(decimal_digits(b)[0] == digit_char(b));
            assert((digit_char(a) as u32) == 48 + a);
            assert((digit_char(b) as u32) == 48 + b);
        } else {
            let da = decimal_digits(a);
            let db = decimal_digits(b);
            assert(da.last() == digit_char(a % 10));
            assert(db.last() == digit_char(b % 10));
            assert((digit_char(a % 10) as u32) == 48 + a % 10);
            assert((digit_char(b % 10) as u32) == 48 + b % 10);
            assert(da.drop_last() =~= decimal_digits(a / 10));
            assert(db.drop_last() =~= decimal_digits(b / 10));
            lemma_decimal_digits_injective(a / 10, b / 10);
        }
    }
}

/// The number that a text of decimal digits stands for, read most
/// significant digit first.
pub open spec fn decimal_value(digits: Seq<char>) -> int
    decreases digits.len(),
{
    if digits.len() == 0 {
        0
    } else {
        decimal_value(digits.drop_last()) * 10 + ((digits.last() as u32) - 48)
    }
}

/// A decimal rendering is made of the digits '0' to '9', starts with a
/// nonzero digit unless it is "0", and reads back as the number rendered.
pub proof fn lemma_decimal_digits_value(n: nat)
    ensures
        decimal_value(decimal_digits(n)) == n,
        forall|i: int|
            0 <= i < decimal_digits(n).len() ==> 48 <= (#[trigger] decimal_digits(n)[i] as u32)
                <= 57,
        n >= 10 ==> decimal_digits(n)[0] != '0',
    decreases n,
{
    let d = decimal_digits(n);
    if n < 10 {
        assert((digit_char(n) as u32) == 48 + n);
        assert(d.drop_last() =~= Seq::<char>::empty());
        assert(d.last() == digit_char(n));
        assert(decimal_value(d) == decimal_value(d.drop_last()) * 10 + ((d.last() as u32) - 48));
    } else {
        lemma_decimal_digits_value(n / 10);
        lemma_decimal_digits_len(n / 10);
        assert((digit_char(n % 10) as u32) == 48 + n % 10);
        assert(d.drop_last() =~= decimal_digits(n / 10));
        assert(d.last() == digit_char(n % 10));
        assert(decimal_value(d) == decimal_value(d.drop_last()) * 10 + ((d.last() as u32) - 48));
        assert(n == (n / 10) * 10 + n % 10);
        assert(d[0] == decimal_digits(n / 10)[0]);
        if n / 10 < 10 {
            assert(decimal_digits(n / 10)[0] == digit_char(n / 10));
            assert((digit_char(n / 10) as u32) == 48 + n / 10);
        }
        assert forall|i: int| 0 <= i < d.len() implies 48 <= (#[trigger] d[i] as u32) <= 57 by {
            if i < d.len() - 1 {
                assert(d[i] == decimal_digits(n / 10)[i]);
            }
        }
    }
}

/// The text that the bytes `bytes` encode in UTF-8, or `None` where they are
/// not valid UTF-8.
pub open spec fn utf8_text(bytes: Seq<u8>) -> Option<Seq<char>> {
    if valid_utf8(bytes) {
        Some(decode_utf8(bytes))
    } else {
        None
    }
}

#[verifier::external_type_specification]
#[verifier::external_body]
pub struct ExDecodeError(base64::DecodeError);

/// What `base64::engine::general_purpose::STANDARD.decode` gives for `input`:
/// `Some` of the decoded bytes, or `None` where the engine refuses the input.
pub uninterp spec fn standard_base64_decode(input: Seq<u8>) -> Option<Seq<u8>>;

/// Calls `Engine::decode` of `base64::engine::general_purpose::STANDARD`
/// (standard alphabet, canonical padding required). The contract claims that
/// the call succeeds exactly where `standard_base64_decode` is `Some`, and that
/// it then returns those bytes: the decoding depends on the input alone.
#[verifier::external_body]
pub(crate) fn base64_standard_decode(input: &[u8]) -> (res: Result<Vec<u8>, base64::DecodeError>)
    ensures
        res is Ok <==> standard_base64_decode(input@) is Some,
        res matches Ok(bytes) ==> standard_base64_decode(input@) == Some(bytes@),
{
    base64::engine::general_purpose::STANDARD.decode(input)
}

/// Calls `std::str::from_utf8`. As its documentation says, it accepts exactly
/// the valid UTF-8 byte sequences, and the string it returns is made of those
/// same bytes.
#[verifier::external_body]
pub(crate) fn str_from_utf8<'a>(bytes: &'a [u8]) -> (res: Option<&'a str>)
    ensures
        res is Some <==> valid_utf8(bytes@),
        res matches Some(s) ==> encode_utf8(s@) == bytes@,
{
    std::str::from_utf8(bytes).ok()
}

/// Calls `ToString::to_string` on a `u64`, which writes the integer in
/// decimal, as the `Display` implementation of the integer types documents.
#[verifier::external_body]
pub(crate) fn u64_to_string(n: u64) -> (res: String)
    ensures
        res@ == decimal_digits(n as nat),
{
    n.to_string()
}

} // verus!
