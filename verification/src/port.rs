//! Reading a port number out of the text of a command-line value.
//!
//! A port is written as an optional `+` followed by one or more ASCII decimal
//! digits whose value fits in sixteen bits. Anything else (an empty text, a
//! stray sign, a blank, a letter, a value above 65535) is no port.

use vstd::prelude::*;

verus! {

/// Whether `c` is one of the ten ASCII decimal digits.
pub open spec fn is_decimal_digit(c: char) -> bool {
    '0' <= c && c <= '9'
}

/// The number a decimal digit stands for.
pub open spec fn digit_value(c: char) -> nat {
    (c as int - '0' as int) as nat
}

/// The number that a run of decimal digits denotes, most significant digit first.
pub open spec fn decimal_value(digits: Seq<char>) -> nat
    decreases digits.len(),
{
    if digits.len() == 0 {
        0
    } else {
        10 * decimal_value(digits.drop_last()) + digit_value(digits.last())
    }
}

/// Whether every character of `text` is a decimal digit.
pub open spec fn all_decimal_digits(text: Seq<char>) -> bool {
    forall|i: int| 0 <= i < text.len() ==> is_decimal_digit(#[trigger] text[i])
}

/// `text` without the single `+` it may start with.
pub open spec fn without_plus_sign(text: Seq<char>) -> Seq<char> {
    if text.len() > 0 && text[0] == '+' {
        text.subrange(1, text.len() as int)
    } else {
        text
    }
}

/// The port that `text` denotes, if it denotes one.
pub open spec fn parsed_port(text: Seq<char>) -> Option<u16> {
    let digits = without_plus_sign(text);
    if digits.len() > 0 && all_decimal_digits(digits) && decimal_value(digits) <= u16::MAX {
        Some(decimal_value(digits) as u16)
    } else {
        None
    }
}

/// Reading more digits never lowers the value: a prefix of a digit run denotes
/// at most what the whole run denotes.
pub proof fn lemma_prefix_value_is_lower_bound(digits: Seq<char>, k: int)
    requires
        0 <= k <= digits.len(),
    ensures
        decimal_value(digits.take(k)) <= decimal_value(digits),
    decreases digits.len() - k,
{
    if k == digits.len() {
        assert(digits.take(k) =~= digits);
    } else {
        lemma_prefix_value_is_lower_bound(digits.drop_last(), k);
        assert(digits.drop_last().take(k) =~= digits.take(k));
    }
}

/// Parses `raw` as a port number.
pub fn parse_port(raw: &str) -> (port: Option<u16>)
    ensures
        port == parsed_port(raw@),
{
    let len: usize = raw.unicode_len();
    if len == 0 {
        return None;
    }
    let start: usize = if raw.get_char(0) == '+' {
        1
    } else {
        0
    };
    if start == len {
        return None;
    }
    let ghost digits = without_plus_sign(raw@);
    let mut value: u32 = 0;
    let mut i: usize = start;
    while i < len
        invariant
            start <= i <= len,
            len == raw@.len(),
            digits == without_plus_sign(raw@),
            digits == raw@.subrange(start as int, len as int),
            all_decimal_digits(digits.take(i - start)),
            value == decimal_value(digits.take(i - start)),
            value <= u16::MAX,
        decreases len - i,
    {
        let c: char = raw.get_char(i);
        if !('0' <= c && c <= '9') {
            assert(!is_decimal_digit(digits[i - start]));
            return None;
        }
        let digit: u32 = c as u32 - '0' as u32;
        let next: u32 = value * 10 + digit;
        proof {
            let seen = digits.take(i + 1 - start);
            assert(seen.drop_last() =~= digits.take(i - start));
            assert(seen.last() == c);
            assert(next == decimal_value(seen));
            assert forall|j: int| 0 <= j < seen.len() implies is_decimal_digit(#[trigger] seen[j]) by {
                if j < seen.len() - 1 {
                    assert(digits.take(i - start)[j] == seen[j]);
                }
            }
        }
        if next > 0xffff {
            proof {
                lemma_prefix_value_is_lower_bound(digits, i + 1 - start);
            }
            return None;
        }
        value = next;
        i = i + 1;
    }
    assert(digits.take(len - start) =~= digits);
    Some(value as u16)
}

} // verus!
