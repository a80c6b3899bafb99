//! Unsigned numbers in decimal notation: reading them from bytes and
//! writing them as text.

use vstd::prelude::*;
use vstd::slice::slice_subrange;
use vstd::string::StringExecFns;

verus! {

pub const DIGIT_ZERO: u8 = 48;

pub const DIGIT_NINE: u8 = 57;

pub const PLUS: u8 = 43;

/// Whether `b` is a decimal digit.
pub open spec fn is_digit(b: u8) -> bool {
    DIGIT_ZERO <= b <= DIGIT_NINE
}

/// Whether `text` holds decimal digits only.
pub open spec fn all_digits(text: Seq<u8>) -> bool {
    forall|i: int| 0 <= i < text.len() ==> is_digit(#[trigger] text[i])
}

/// The number that the digits of `text` denote, the first digit weighing
/// most.
pub open spec fn digits_value(text: Seq<u8>) -> nat
    decreases text.len(),
{
    if text.len() == 0 {
        0
    } else {
        digits_value(text.drop_last()) * 10 + (text.last() - DIGIT_ZERO) as nat
    }
}

/// `text` without one leading plus sign.
pub open spec fn without_sign(text: Seq<u8>) -> Seq<u8> {
    if text.len() > 0 && text[0] == PLUS {
        text.skip(1)
    } else {
        text
    }
}

/// The number that `text` denotes: an optional plus sign, then one or more
/// decimal digits, worth at most `max`. Anything else denotes no number.
pub open spec fn parse_unsigned(text: Seq<u8>, max: nat) -> Option<nat> {
    let digits = without_sign(text);
    if digits.len() > 0 && all_digits(digits) && digits_value(digits) <= max {
        Some(digits_value(digits))
    } else {
        None
    }
}

/// The character of a digit below ten.
pub open spec fn digit_char(d: nat) -> char {
    if d == 0 {
        '0'
    } else if d == 1 {
        '1'
    } else if d == 2 {
        '2'
    } else if d == 3 {
        '3'
    } else if d == 4 {
        '4'
    } else if d == 5 {
        '5'
    } else if d == 6 {
        '6'
    } else if d == 7 {
        '7'
    } else if d == 8 {
        '8'
    } else {
        '9'
    }
}

/// `n` in decimal notation, without leading zeros.
pub open spec fn decimal_text(n: nat) -> Seq<char>
    decreases n,
{
    if n < 10 {
        seq![digit_char(n)]
    } else {
        decimal_text(n / 10).push(digit_char(n % 10))
    }
}

/// The decimal digits of `n` as bytes, without leading zeros.
pub open spec fn decimal_digits(n: nat) -> Seq<u8>
    decreases n,
{
    if n < 10 {
        seq![(DIGIT_ZERO + n) as u8]
    } else {
        decimal_digits(n / 10).push((DIGIT_ZERO + n % 10) as u8)
    }
}

/// The decimal digits of a number are digits, at least one, and denote the
/// number.
pub proof fn lemma_digits_denote(n: nat)
    ensures
        decimal_digits(n).len() > 0,
        all_digits(decimal_digits(n)),
        digits_value(decimal_digits(n)) == n,
    decreases n,
{
    let digits = decimal_digits(n);
    if n < 10 {
        assert(digits.drop_last() =~= Seq::<u8>::empty());
        assert(digits_value(digits.drop_last()) == 0);
    } else {
        lemma_digits_denote(n / 10);
        assert(digits.drop_last() =~= decimal_digits(n / 10));
    }
}

/// A number grows, or stays, as digits are appended to its notation.
pub proof fn lemma_prefix_value(text: Seq<u8>, k: int)
    requires
        0 <= k <= text.len(),
        all_digits(text),
    ensures
        digits_value(text.take(k)) <= digits_value(text),
    decreases text.len() - k,
{
    if k < text.len() {
        lemma_prefix_value(text, k + 1);
        assert(text.take(k + 1).drop_last() =~= text.take(k));
        assert(text.take(k + 1).last() == text[k]);
    } else {
        assert(text.take(k) =~= text);
    }
}

/// Reads the number that `text` denotes.
pub fn read_unsigned(text: &[u8], max: u64) -> (r: Option<u64>)
    ensures
        match r {
            Some(n) => parse_unsigned(text@, max as nat) == Some(n as nat),
            None => parse_unsigned(text@, max as nat) is None,
        },
{
    let digits = if text.len() > 0 && text[0] == PLUS {
        slice_subrange(text, 1, text.len())
    } else {
        text
    };
    assert(digits@ == without_sign(text@));
    if digits.len() == 0 {
        return None;
    }
    let mut value: u64 = 0;
    let mut i: usize = 0;
    while i < digits.len()
        invariant
            i <= digits.len(),
            digits@.len() > 0,
            digits@ == without_sign(text@),
            all_digits(digits@.take(i as int)),
            value == digits_value(digits@.take(i as int)),
            value <= max,
        decreases digits.len() - i,
    {
        let b = digits[i];
        if b < DIGIT_ZERO || b > DIGIT_NINE {
            assert(!is_digit(digits@[i as int]));
            return None;
        }
        let d: u64 = (b - DIGIT_ZERO) as u64;
        proof {
            assert(digits@.take(i + 1).drop_last() =~= digits@.take(i as int));
            assert(digits@.take(i + 1).last() == b);
            assert(all_digits(digits@.take(i + 1))) by {
                assert forall|j: int| 0 <= j < i + 1 implies is_digit(
                    #[trigger] digits@.take(i + 1)[j],
                ) by {
                    if j < i {
                        assert(digits@.take(i as int)[j] == digits@.take(i + 1)[j]);
                    }
                }
            }
            if all_digits(digits@) {
                lemma_prefix_value(digits@, i + 1);
            }
        }
        if d > max || value > (max - d) / 10 {
            assert(digits_value(digits@.take(i + 1)) > max);
            return None;
        }
        value = value * 10 + d;
        i += 1;
    }
    assert(digits@.take(i as int) =~= digits@);
    Some(value)
}

/// The text of one decimal digit.
fn digit_text(d: u64) -> (r: &'static str)
    requires
        d < 10,
    ensures
        r@ == seq![digit_char(d as nat)],
{
    proof {
        reveal_strlit("0");
        reveal_strlit("1");
        reveal_strlit("2");
        reveal_strlit("3");
        reveal_strlit("4");
        reveal_strlit("5");
        reveal_strlit("6");
        reveal_strlit("7");
        reveal_strlit("8");
        reveal_strlit("9");
    }
    let r = if d == 0 {
        "0"
    } else if d == 1 {
        "1"
    } else if d == 2 {
        "2"
    } else if d == 3 {
        "3"
    } else if d == 4 {
        "4"
    } else if d == 5 {
        "5"
    } else if d == 6 {
        "6"
    } else if d == 7 {
        "7"
    } else if d == 8 {
        "8"
    } else {
        "9"
    };
    assert(r@ =~= seq![digit_char(d as nat)]);
    r
}

/// Writes `n` in decimal notation.
pub fn write_unsigned(n: u64) -> (r: String)
    ensures
        r@ == decimal_text(n as nat),
    decreases n,
{
    if n < 10 {
        String::from_str(digit_text(n))
    } else {
        let mut text = write_unsigned(n / 10);
        text.append(digit_text(n % 10));
        assert(text@ =~= decimal_text(n as nat));
        text
    }
}

} // verus!
