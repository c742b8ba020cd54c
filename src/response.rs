//! The reply sent for each attempt: the delay in seconds, as ASCII decimal
//! text with exactly three digits after the point.

use vstd::prelude::*;

verus! {

/// The ASCII digit for `d`, which is below ten.
pub open spec fn digit_byte(d: nat) -> u8 {
    (48 + d) as u8
}

/// The decimal digits of `n`, most significant first, without leading zeros
/// (a single `0` for zero).
pub open spec fn decimal_digits(n: nat) -> Seq<u8>
    decreases n,
{
    if n < 10 {
        seq![digit_byte(n)]
    } else {
        decimal_digits(n / 10).push(digit_byte(n % 10))
    }
}

/// `millis` milliseconds written as seconds with three decimals.
pub open spec fn seconds_text(millis: nat) -> Seq<u8> {
    decimal_digits(millis / 1000) + seq![
        46u8,
        digit_byte((millis / 100) % 10),
        digit_byte((millis / 10) % 10),
        digit_byte(millis % 10),
    ]
}

fn push_decimal(n: u128, out: &mut Vec<u8>)
    ensures
        final(out)@ == old(out)@ + decimal_digits(n as nat),
    decreases n,
{
    if n < 10 {
        out.push(48u8 + n as u8);
        assert(out@ =~= old(out)@ + decimal_digits(n as nat));
    } else {
        push_decimal(n / 10, out);
        out.push(48u8 + (n % 10) as u8);
        assert(out@ =~= old(out)@ + decimal_digits(n as nat));
    }
}

/// The reply for a delay of `millis` milliseconds, such as `1.234` or `0.000`.
pub fn delay_text(millis: u128) -> (r: Vec<u8>)
    ensures
        r@ == seconds_text(millis as nat),
{
    let mut out: Vec<u8> = Vec::new();
    push_decimal(millis / 1000, &mut out);
    out.push(46u8);
    out.push(48u8 + ((millis / 100) % 10) as u8);
    out.push(48u8 + ((millis / 10) % 10) as u8);
    out.push(48u8 + (millis % 10) as u8);
    assert(out@ =~= seconds_text(millis as nat));
    out
}

} // verus!
