//! Reading integer settings: the decimal syntax that `i32`'s `FromStr`
//! accepts, and the fallback to a default for a missing or unreadable value.
use vstd::prelude::*;
use crate::decimal::{decimalText, digitChar, naturalDigits, pushDecimal};
use crate::text::charsOf;

verus! {

/// Whether `c` is a decimal digit.
pub open spec fn isDigit(c: char) -> bool {
    '0' <= c && c <= '9'
}

/// Whether every character of `s` is a decimal digit.
pub open spec fn allDigits(s: Seq<char>) -> bool {
    forall|i: int| 0 <= i < s.len() ==> isDigit(#[trigger] s[i])
}

/// The number that the decimal digits `s` write.
pub open spec fn digitsValue(s: Seq<char>) -> int
    decreases s.len(),
{
    if s.len() == 0 {
        0
    } else {
        digitsValue(s.drop_last()) * 10 + (s.last() as int - '0' as int)
    }
}

/// The number that `s` writes in decimal, with an optional leading `+` or
/// `-`: `None` unless at least one digit follows the sign and nothing else.
pub open spec fn decimalValue(s: Seq<char>) -> Option<int> {
    let negative = s.len() > 0 && s[0] == '-';
    let digits = if s.len() > 0 && (s[0] == '-' || s[0] == '+') {
        s.drop_first()
    } else {
        s
    };
    if digits.len() == 0 || !allDigits(digits) {
        None
    } else if negative {
        Some(-digitsValue(digits))
    } else {
        Some(digitsValue(digits))
    }
}

/// What `i32`'s `FromStr` gives for `s`: its decimal value where that is an `i32`.
pub open spec fn parsedI32(s: Seq<char>) -> Option<i32> {
    match decimalValue(s) {
        Some(v) => if i32::MIN <= v && v <= i32::MAX {
            Some(v as i32)
        } else {
            None
        },
        None => None,
    }
}

/// Digits never write a negative number, and more digits never write a smaller one.
proof fn lemma_digitsValue_grows(s: Seq<char>, j: int)
    requires
        allDigits(s),
        0 <= j <= s.len(),
    ensures
        0 <= digitsValue(s.take(j)) <= digitsValue(s),
    decreases s.len(),
{
    if s.len() > 0 {
        if j < s.len() {
            assert(s.drop_last().take(j) =~= s.take(j));
            lemma_digitsValue_grows(s.drop_last(), j);
        } else {
            assert(s.take(j) =~= s);
            lemma_digitsValue_grows(s.drop_last(), s.len() - 1);
            assert(s.drop_last().take(s.len() - 1) =~= s.drop_last());
        }
        assert(isDigit(s[s.len() - 1]));
    } else {
        assert(s.take(j) =~= s);
    }
}

/// The digits `chars[start..]`, read while their value stays at most 2^31;
/// `None` where it grows beyond.
fn readDigits(chars: &Vec<char>, start: usize) -> (value: Option<i64>)
    requires
        start <= chars.len(),
        allDigits(chars@.skip(start as int)),
    ensures
        match value {
            Some(v) => v == digitsValue(chars@.skip(start as int)) && 0 <= v <= 0x8000_0000,
            None => digitsValue(chars@.skip(start as int)) > 0x8000_0000,
        },
{
    let ghost digits = chars@.skip(start as int);
    let mut acc: i64 = 0;
    let mut i: usize = start;
    assert(digits.take(0) =~= Seq::<char>::empty());
    while i < chars.len()
        invariant
            start <= i <= chars.len(),
            digits == chars@.skip(start as int),
            allDigits(digits),
            acc == digitsValue(digits.take(i - start)),
            0 <= acc <= 0x8000_0000,
        decreases chars.len() - i,
    {
        let ghost k: int = i - start;
        assert(digits.take(k + 1).drop_last() =~= digits.take(k));
        assert(digits.take(k + 1).last() == chars@[i as int]);
        assert(isDigit(digits[k]));
        let d: i64 = (chars[i] as u32 - '0' as u32) as i64;
        let next: i64 = acc * 10 + d;
        if next > 0x8000_0000 {
            proof {
                lemma_digitsValue_grows(digits, k + 1);
            }
            return None;
        }
        acc = next;
        i = i + 1;
    }
    assert(digits.take(i - start) =~= digits);
    Some(acc)
}

/// `i32`'s `FromStr`: the value that `text` writes in decimal, with an
/// optional sign, where it is an `i32`.
pub fn parseI32(text: &str) -> (parsed: Option<i32>)
    ensures
        parsed == parsedI32(text@),
{
    let chars = charsOf(text);
    let mut start: usize = 0;
    let mut negative = false;
    if chars.len() > 0 && (chars[0] == '-' || chars[0] == '+') {
        negative = chars[0] == '-';
        start = 1;
    }
    let ghost digits = chars@.skip(start as int);
    proof {
        if start == 0 {
            assert(digits =~= text@);
        } else {
            assert(digits =~= text@.drop_first());
        }
        assert(negative == (text@.len() > 0 && text@[0] == '-'));
        assert(decimalValue(text@) == if digits.len() == 0 || !allDigits(digits) {
            None
        } else if negative {
            Some(-digitsValue(digits))
        } else {
            Some(digitsValue(digits))
        });
    }
    if start == chars.len() {
        return None;
    }
    let mut i: usize = start;
    while i < chars.len()
        invariant
            start <= i <= chars.len(),
            chars@ == text@,
            digits == chars@.skip(start as int),
            forall|j: int| 0 <= j < i - start ==> isDigit(#[trigger] digits[j]),
            !allDigits(digits) ==> parsedI32(text@) is None,
        decreases chars.len() - i,
    {
        if !('0' <= chars[i] && chars[i] <= '9') {
            assert(!isDigit(digits[i - start]));
            assert(!allDigits(digits));
            return None;
        }
        i = i + 1;
    }
    assert(allDigits(digits));
    match readDigits(&chars, start) {
        Some(magnitude) => {
            if negative {
                Some((0 - magnitude) as i32)
            } else if magnitude <= 0x7fff_ffff {
                Some(magnitude as i32)
            } else {
                None
            }
        },
        None => None,
    }
}

/// The integer setting stored as `value`: its value where it reads as an
/// `i32`, else `default`, which also stands for a missing value.
pub fn i32SettingOrDefault(value: Option<&str>, default: i32) -> (setting: i32)
    ensures
        setting == match value {
            Some(text) => match parsedI32(text@) {
                Some(v) => v,
                None => default,
            },
            None => default,
        },
{
    match value {
        Some(text) => match parseI32(text) {
            Some(v) => v,
            None => default,
        },
        None => default,
    }
}

/// The text that an integer setting is stored as: its decimal text.
pub fn i32SettingText(value: i32) -> (text: String)
    ensures
        text@ == decimalText(value as int),
{
    let mut text = String::new();
    pushDecimal(&mut text, value);
    assert(text@ =~= decimalText(value as int));
    text
}

/// The digit character of `d` stands for `d`.
proof fn lemma_digitChar(d: nat)
    requires
        d < 10,
    ensures
        isDigit(digitChar(d)),
        digitChar(d) as int - '0' as int == d,
{
}

/// The digits of `n` are digits that write `n`, and there is at least one.
proof fn lemma_naturalDigits(n: nat)
    ensures
        naturalDigits(n).len() > 0,
        allDigits(naturalDigits(n)),
        digitsValue(naturalDigits(n)) == n,
    decreases n,
{
    lemma_digitChar(n % 10);
    if n >= 10 {
        lemma_naturalDigits(n / 10);
        let s = naturalDigits(n);
        assert(s.drop_last() =~= naturalDigits(n / 10));
        assert(s.last() == digitChar(n % 10));
        assert((n / 10) * 10 + n % 10 == n) by (nonlinear_arith);
        assert(allDigits(s)) by {
            assert forall|i: int| 0 <= i < s.len() implies isDigit(#[trigger] s[i]) by {
                if i < s.len() - 1 {
                    assert(s[i] == naturalDigits(n / 10)[i]);
                }
            }
        }
    } else {
        assert(naturalDigits(n).drop_last() =~= Seq::<char>::empty());
        assert(n % 10 == n);
        assert(digitsValue(Seq::<char>::empty()) == 0);
    }
}

/// An integer setting reads back as the value it was stored with: parsing
/// the decimal text of an `i32` gives the `i32`.
pub proof fn lemma_stored_setting_reads_back(value: i32)
    ensures
        parsedI32(decimalText(value as int)) == Some(value),
{
    let text = decimalText(value as int);
    if value < 0 {
        let magnitude = (-value) as nat;
        lemma_naturalDigits(magnitude);
        assert(text.drop_first() =~= naturalDigits(magnitude));
    } else {
        lemma_naturalDigits(value as nat);
        lemma_digitChar((value as nat) % 10);
        let digits = naturalDigits(value as nat);
        assert(isDigit(digits[0]));
    }
}

} // verus!
