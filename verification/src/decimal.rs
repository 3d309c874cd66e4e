//! Decimal numerals: an optional sign, then one or more of the digits `0` to
//! `9`, and nothing else.

use vstd::prelude::*;

verus! {

pub open spec fn is_digit(c: char) -> bool {
    '0' <= c && c <= '9'
}

/// The value of the digit `c`.
pub open spec fn digit_value(c: char) -> nat {
    (c as int - '0' as int) as nat
}

pub open spec fn all_digits(digits: Seq<char>) -> bool {
    forall|i: int| 0 <= i < digits.len() ==> is_digit(#[trigger] digits[i])
}

/// The number that `digits` write in base ten; the empty sequence writes 0.
pub open spec fn digits_value(digits: Seq<char>) -> nat
    decreases digits.len(),
{
    if digits.len() == 0 {
        0
    } else {
        digits_value(digits.drop_last()) * 10 + digit_value(digits.last())
    }
}

/// The number that an unsigned numeral writes; `None` where `text` is empty
/// or holds anything but digits.
pub open spec fn magnitude(text: Seq<char>) -> Option<nat> {
    if text.len() > 0 && all_digits(text) {
        Some(digits_value(text))
    } else {
        None
    }
}

/// The number that a numeral with an optional sign writes.
pub open spec fn signed_value(text: Seq<char>) -> Option<int> {
    if text.len() > 0 && text[0] == '-' {
        match magnitude(text.skip(1)) {
            Some(m) => Some(-(m as int)),
            None => None,
        }
    } else if text.len() > 0 && text[0] == '+' {
        match magnitude(text.skip(1)) {
            Some(m) => Some(m as int),
            None => None,
        }
    } else {
        match magnitude(text) {
            Some(m) => Some(m as int),
            None => None,
        }
    }
}

/// The `i32` that `text` writes; `None` where `text` is no numeral or its
/// number does not fit.
pub open spec fn i32_of(text: Seq<char>) -> Option<i32> {
    match signed_value(text) {
        Some(v) => if i32::MIN <= v <= i32::MAX {
            Some(v as i32)
        } else {
            None
        },
        None => None,
    }
}

/// A numeral's value does not shrink as digits are appended.
pub proof fn lemma_digits_value_grows(digits: Seq<char>, k: int)
    requires
        0 <= k <= digits.len(),
    ensures
        digits_value(digits.take(k)) <= digits_value(digits),
    decreases digits.len(),
{
    if k == digits.len() {
        assert(digits.take(k) =~= digits);
    } else {
        assert(digits.drop_last().take(k) =~= digits.take(k));
        lemma_digits_value_grows(digits.drop_last(), k);
    }
}

/// The characters of `text`, in order.
pub fn chars_of(text: &str) -> (chars: Vec<char>)
    ensures
        chars@ == text@,
{
    let mut chars: Vec<char> = Vec::new();
    for c in it: text.chars()
        invariant
            it.seq() == text@,
            chars@ == it.seq().take(it.index()),
    {
        chars.push(c);
    }
    chars
}

/// Reads the digits of `chars` from position `from` on as a number of at
/// most `limit`.
pub fn parse_magnitude(chars: &Vec<char>, from: usize, limit: u64) -> (value: Option<u64>)
    requires
        from <= chars.len(),
    ensures
        value == match magnitude(chars@.skip(from as int)) {
            Some(m) => if m <= limit {
                Some(m as u64)
            } else {
                None
            },
            None => None,
        },
{
    let ghost digits = chars@.skip(from as int);
    if from == chars.len() {
        return None;
    }
    let mut total: u64 = 0;
    let mut i: usize = from;
    assert(digits.take(0) =~= Seq::<char>::empty());
    while i < chars.len()
        invariant
            from <= i <= chars.len(),
            digits == chars@.skip(from as int),
            all_digits(digits.take(i - from)),
            total == digits_value(digits.take(i - from)),
            total <= limit,
        decreases chars.len() - i,
    {
        let c: char = chars[i];
        let ghost upto = digits.take(i - from + 1);
        proof {
            assert(upto.drop_last() =~= digits.take(i - from));
            assert(upto.last() == c);
        }
        if !(c >= '0' && c <= '9') {
            proof {
                assert(!is_digit(digits[i - from]));
            }
            return None;
        }
        let digit: u64 = (c as u32 - '0' as u32) as u64;
        let next: u128 = total as u128 * 10 + digit as u128;
        if next > limit as u128 {
            proof {
                lemma_digits_value_grows(digits, i - from + 1);
            }
            return None;
        }
        total = next as u64;
        i += 1;
    }
    proof {
        assert(digits.take(i - from) =~= digits);
    }
    Some(total)
}

/// Reads `chars` as an `i32`, written in base ten with an optional sign.
pub fn parse_i32_chars(chars: &Vec<char>) -> (value: Option<i32>)
    ensures
        value == i32_of(chars@),
{
    if chars.len() == 0 {
        return None;
    }
    let first: char = chars[0];
    if first == '-' {
        match parse_magnitude(chars, 1, 2147483648) {
            Some(m) => Some((0 - m as i64) as i32),
            None => None,
        }
    } else if first == '+' {
        match parse_magnitude(chars, 1, 2147483647) {
            Some(m) => Some(m as i32),
            None => None,
        }
    } else {
        assert(chars@.skip(0) =~= chars@);
        match parse_magnitude(chars, 0, 2147483647) {
            Some(m) => Some(m as i32),
            None => None,
        }
    }
}

/// Reads `text` as an `i32`, written in base ten with an optional sign.
pub fn parse_i32(text: &str) -> (value: Option<i32>)
    ensures
        value == i32_of(text@),
{
    let chars = chars_of(text);
    parse_i32_chars(&chars)
}

} // verus!
