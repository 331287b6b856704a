//! Numbers written in decimal digits.

use crate::date::{digit_char, digit_text, digit_value, is_digit};
use vstd::prelude::*;
use vstd::string::StringSliceAdditionalSpecFns;

verus! {

/// The decimal digits of a number, without leading zeros.
pub open spec fn decimal_text(n: nat) -> Seq<char>
    decreases n,
{
    if n < 10 {
        seq![digit_char(n as int)]
    } else {
        decimal_text(n / 10).push(digit_char((n % 10) as int))
    }
}

/// Whether a text is made of decimal digits, and of one at least.
pub open spec fn is_decimal(text: Seq<char>) -> bool {
    text.len() > 0 && forall|i: int| 0 <= i < text.len() ==> is_digit(#[trigger] text[i])
}

/// The number that a text of decimal digits stands for; leading zeros count
/// for nothing.
pub open spec fn decimal_value(text: Seq<char>) -> nat
    decreases text.len(),
{
    if text.len() == 0 {
        0
    } else {
        (decimal_value(text.drop_last()) * 10 + digit_value(text.last())) as nat
    }
}

/// The number that a text stands for, where the text is made of decimal
/// digits and the number fits into 64 bits.
pub open spec fn parsed_decimal(text: Seq<char>) -> Option<u64> {
    if is_decimal(text) && decimal_value(text) <= u64::MAX {
        Some(decimal_value(text) as u64)
    } else {
        None
    }
}

/// A text of digits stands for no less than any of its beginnings.
proof fn lemma_value_grows(text: Seq<char>, shorter: int, longer: int)
    requires
        0 <= shorter <= longer <= text.len(),
        forall|i: int| 0 <= i < text.len() ==> is_digit(#[trigger] text[i]),
    ensures
        decimal_value(text.take(shorter)) <= decimal_value(text.take(longer)),
    decreases longer - shorter,
{
    if shorter < longer {
        lemma_value_grows(text, shorter, longer - 1);
        assert(text.take(longer).drop_last() == text.take(longer - 1));
        assert(text.take(longer).last() == text[longer - 1]);
        assert(is_digit(text[longer - 1]));
    }
}

/// Reading what was written for a number gives the number back.
pub proof fn law_parse_inverts_decimal_text(n: nat)
    ensures
        is_decimal(decimal_text(n)),
        decimal_value(decimal_text(n)) == n,
    decreases n,
{
    let text = decimal_text(n);
    if n < 10 {
        assert(text.drop_last() == Seq::<char>::empty());
        assert(decimal_value(text.drop_last()) == 0);
        assert(text.last() == digit_char(n as int));
    } else {
        law_parse_inverts_decimal_text(n / 10);
        let head = decimal_text(n / 10);
        assert(text.drop_last() == head);
        assert(text.last() == digit_char((n % 10) as int));
        assert forall|i: int| 0 <= i < text.len() implies is_digit(#[trigger] text[i]) by {
            if i < head.len() {
                assert(text[i] == head[i]);
            }
        }
    }
}

/// Writes a number in decimal digits.
pub fn to_decimal(n: u64) -> (text: String)
    ensures
        text@ == decimal_text(n as nat),
    decreases n,
{
    if n < 10 {
        String::from_str(digit_text(n as u8))
    } else {
        let mut text = to_decimal(n / 10);
        text.append(digit_text((n % 10) as u8));
        assert(text@ =~= decimal_text(n as nat));
        text
    }
}

/// Reads a number written in decimal digits. A text that holds anything
/// else, or none at all, or stands for more than 64 bits hold, is no number.
pub fn parse_decimal(text: &str) -> (number: Option<u64>)
    ensures
        number == parsed_decimal(text@),
{
    if !text.is_ascii() {
        return None;
    }
    proof {
        vstd::utf8::is_ascii_chars_encode_utf8(text@);
    }
    let bytes = text.as_bytes();
    let n = bytes.len();
    if n == 0 {
        return None;
    }
    let mut value: u64 = 0;
    let mut i: usize = 0;
    while i < n
        invariant
            i <= n,
            n == text@.len(),
            n == bytes@.len(),
            text.is_ascii(),
            bytes@ == text.spec_bytes(),
            forall|k: int| 0 <= k < i ==> is_digit(#[trigger] text@[k]),
            value == decimal_value(text@.take(i as int)),
        decreases n - i,
    {
        let byte = bytes[i];
        proof {
            vstd::utf8::is_ascii_chars_encode_utf8(text@);
        }
        assert(byte == text@[i as int] as u8);
        if byte < 48 || byte > 57 {
            assert(!is_digit(text@[i as int]));
            return None;
        }
        assert(is_digit(text@[i as int]));
        let digit = (byte - 48) as u64;
        proof {
            assert(text@.take(i + 1).drop_last() == text@.take(i as int));
            assert(text@.take(i + 1).last() == text@[i as int]);
            assert(decimal_value(text@.take(i + 1)) == value * 10 + digit);
        }
        if value > (u64::MAX - digit) / 10 {
            proof {
                if is_decimal(text@) {
                    lemma_value_grows(text@, i + 1, n as int);
                    assert(text@.take(n as int) == text@);
                }
            }
            return None;
        }
        value = value * 10 + digit;
        i = i + 1;
    }
    assert(text@.take(n as int) == text@);
    Some(value)
}

} // verus!
