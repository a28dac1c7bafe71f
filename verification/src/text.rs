//! Amounts as text: the decimal digits of a number, as attributes carry them.

use vstd::prelude::*;

verus! {

/// The decimal digits of `n` as ASCII codes, the highest first, with no
/// leading zero; the single digit zero for zero.
pub open spec fn digit_codes(n: nat) -> Seq<u8>
    decreases n,
{
    if n < 10 {
        seq![(48 + n) as u8]
    } else {
        digit_codes(n / 10).push((48 + n % 10) as u8)
    }
}

/// The characters that ASCII codes stand for.
pub open spec fn ascii(codes: Seq<u8>) -> Seq<char> {
    Seq::new(codes.len(), |i: int| codes[i] as char)
}

/// `n` in decimal digits.
pub open spec fn decimal_digits(n: nat) -> Seq<char> {
    ascii(digit_codes(n))
}

/// Every code of a decimal number is one of the ten digits.
pub proof fn lemma_digit_codes_are_digits(n: nat)
    ensures
        digit_codes(n).len() >= 1,
        forall|i: int| 0 <= i < digit_codes(n).len() ==> 48 <= #[trigger] digit_codes(n)[i] <= 57,
    decreases n,
{
    if n >= 10 {
        lemma_digit_codes_are_digits(n / 10);
    }
}

/// `String::from_utf8`: text of ASCII codes is valid and has one character
/// for each code.
#[verifier::external_body]
fn ascii_text(codes: Vec<u8>) -> (s: String)
    requires
        forall|i: int| 0 <= i < codes@.len() ==> codes@[i] < 128,
    ensures
        s@ == ascii(codes@),
{
    String::from_utf8(codes).unwrap_or_default()
}

fn push_digit_codes(n: u128, out: &mut Vec<u8>)
    ensures
        final(out)@ == old(out)@ + digit_codes(n as nat),
    decreases n,
{
    if n >= 10 {
        push_digit_codes(n / 10, out);
    }
    let low = (n % 10) as u8;
    out.push(48 + low);
}

/// Writes `n` in decimal digits.
pub fn decimal(n: u128) -> (s: String)
    ensures
        s@ == decimal_digits(n as nat),
{
    let mut codes: Vec<u8> = Vec::new();
    push_digit_codes(n, &mut codes);
    proof {
        lemma_digit_codes_are_digits(n as nat);
        assert(codes@ =~= digit_codes(n as nat));
    }
    ascii_text(codes)
}

} // verus!
