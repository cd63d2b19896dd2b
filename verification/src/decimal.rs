//! Decimal text of integers, as `i32`'s `Display` writes it.
use vstd::prelude::*;
use crate::text::pushChar;

verus! {

/// The character of the decimal digit `d`.
pub open spec fn digitChar(d: nat) -> char {
    if d == 0 { '0' } else if d == 1 { '1' } else if d == 2 { '2' } else if d == 3 { '3' }
    else if d == 4 { '4' } else if d == 5 { '5' } else if d == 6 { '6' } else if d == 7 { '7' }
    else if d == 8 { '8' } else { '9' }
}

/// The decimal digits of `n`, most significant first, without leading zeros.
pub open spec fn naturalDigits(n: nat) -> Seq<char>
    decreases n,
{
    if n < 10 {
        seq![digitChar(n)]
    } else {
        naturalDigits(n / 10).push(digitChar(n % 10))
    }
}

/// The decimal text of `n`, with a leading minus sign for a negative number.
pub open spec fn decimalText(n: int) -> Seq<char> {
    if n < 0 {
        seq!['-'] + naturalDigits((-n) as nat)
    } else {
        naturalDigits(n as nat)
    }
}

fn digitOf(d: u32) -> (c: char)
    requires
        d < 10,
    ensures
        c == digitChar(d as nat),
{
    if d == 0 { '0' } else if d == 1 { '1' } else if d == 2 { '2' } else if d == 3 { '3' }
    else if d == 4 { '4' } else if d == 5 { '5' } else if d == 6 { '6' } else if d == 7 { '7' }
    else if d == 8 { '8' } else { '9' }
}

fn pushDigits(n: u32, out: &mut String)
    ensures
        final(out)@ == old(out)@ + naturalDigits(n as nat),
    decreases n,
{
    if n >= 10 {
        pushDigits(n / 10, out);
    }
    pushChar(out, digitOf(n % 10));
    assert(out@ =~= old(out)@ + naturalDigits(n as nat));
}

/// Appends the decimal text of `n` to `out`.
pub fn pushDecimal(out: &mut String, n: i32)
    ensures
        final(out)@ == old(out)@ + decimalText(n as int),
{
    if n < 0 {
        pushChar(out, '-');
        let magnitude: u32 = (0i64 - n as i64) as u32;
        pushDigits(magnitude, out);
        assert(out@ =~= old(out)@ + decimalText(n as int));
    } else {
        pushDigits(n as u32, out);
    }
}

} // verus!
