//! The textual form of the values that audit records carry: boolean flags,
//! decimal amounts, and the base64 rendering of the signer key.

use vstd::prelude::*;
use vstd::string::StringExecFns;

verus! {

/// The text of a boolean flag as the audit record carries it.
pub open spec fn bool_text(b: bool) -> Seq<char> {
    if b {
        "true"@
    } else {
        "false"@
    }
}

/// The decimal digit character of `d`, for `0 <= d <= 9`.
pub open spec fn decimal_digit(d: int) -> char {
    if d == 0 {
        '0'
    } else if d == 1 {
        '1'
    } else if d == 2 {
        '2'
    } else if d == 3 {
        '3'
    } else if d == 4 {
        '4'
    } else if d == 5 {
        '5'
    } else if d == 6 {
        '6'
    } else if d == 7 {
        '7'
    } else if d == 8 {
        '8'
    } else {
        '9'
    }
}

/// The decimal text of `n`: most significant digit first, no sign, no
/// leading zeros.
pub open spec fn decimal_text(n: int) -> Seq<char>
    decreases n,
{
    if n < 10 {
        seq![decimal_digit(n)]
    } else {
        decimal_text(n / 10).push(decimal_digit(n % 10))
    }
}

/// The base64 text of a byte string; a function of the bytes alone.
pub uninterp spec fn base64_of(bytes: Seq<u8>) -> Seq<char>;

/// Renders a boolean flag for an audit record.
pub fn bool_string(b: bool) -> (r: String)
    ensures
        r@ == bool_text(b),
{
    if b {
        String::from_str("true")
    } else {
        String::from_str("false")
    }
}

/// The character of one decimal digit.
fn decimal_digit_char(d: u128) -> (c: char)
    requires
        d < 10,
    ensures
        c == decimal_digit(d as int),
{
    if d == 0 {
        '0'
    } else if d == 1 {
        '1'
    } else if d == 2 {
        '2'
    } else if d == 3 {
        '3'
    } else if d == 4 {
        '4'
    } else if d == 5 {
        '5'
    } else if d == 6 {
        '6'
    } else if d == 7 {
        '7'
    } else if d == 8 {
        '8'
    } else {
        '9'
    }
}

/// Appends the decimal digits of `n` to `out`, most significant first.
fn push_decimal(n: u128, out: &mut Vec<char>)
    ensures
        final(out)@ == old(out)@ + decimal_text(n as int),
    decreases n,
{
    if n < 10 {
        out.push(decimal_digit_char(n));
    } else {
        push_decimal(n / 10, out);
        out.push(decimal_digit_char(n % 10));
        proof {
            assert(out@ =~= old(out)@ + decimal_text(n as int));
        }
    }
}

/// Relies on String's `FromIterator` implementation over characters: the
/// collected string holds exactly the given characters in order.
#[verifier::external_body]
fn chars_string(chars: &Vec<char>) -> (r: String)
    ensures
        r@ == chars@,
{
    chars.iter().collect()
}

/// Renders an amount in decimal for an audit record.
pub fn u128_string(n: u128) -> (r: String)
    ensures
        r@ == decimal_text(n as int),
{
    let mut digits: Vec<char> = Vec::new();
    push_decimal(n, &mut digits);
    chars_string(&digits)
}

/// Relies on cosmwasm_std::Binary::to_base64: the standard base64 text of
/// the bytes, depending on the bytes alone.
#[verifier::external_body]
pub(crate) fn base64_string(bytes: &Vec<u8>) -> (r: String)
    ensures
        r@ == base64_of(bytes@),
{
    cosmwasm_std::Binary::from(bytes.clone()).to_base64()
}

} // verus!
