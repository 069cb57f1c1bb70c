//! Comparing and reading texts character by character.

use vstd::prelude::*;
use vstd::string::StrSliceExecFns;
use crate::mention::{decimal, is_digit};

verus! {

/// Says whether the characters `from..to` of `text` spell `word`.
pub fn spells(text: &str, from: usize, to: usize, word: &str) -> (same: bool)
    requires
        from <= to <= text@.len(),
    ensures
        same <==> text@.subrange(from as int, to as int) == word@,
{
    let m = word.unicode_len();
    if to - from != m {
        return false;
    }
    let mut k: usize = 0;
    while k < m
        invariant
            from <= to <= text@.len(),
            m == word@.len(),
            to - from == m,
            k <= m,
            forall|j: int| 0 <= j < k ==> text@[from + j] == word@[j],
        decreases m - k,
    {
        if text.get_char(from + k) != word.get_char(k) {
            assert(text@.subrange(from as int, to as int)[k as int] != word@[k as int]);
            return false;
        }
        k = k + 1;
    }
    assert(text@.subrange(from as int, to as int) =~= word@);
    true
}

/// Says whether two texts are the same.
pub fn same_text(a: &str, b: &str) -> (same: bool)
    ensures
        same <==> a@ == b@,
{
    let n = a.unicode_len();
    assert(a@.subrange(0, n as int) =~= a@);
    spells(a, 0, n, b)
}

/// Says whether a text ends in the character `c`.
pub fn ends_with(text: &str, c: char) -> (ends: bool)
    ensures
        ends <==> (text@.len() > 0 && text@.last() == c),
{
    let n = text.unicode_len();
    n > 0 && text.get_char(n - 1) == c
}

/// Every character of `text` is a decimal digit.
pub open spec fn all_digits(text: Seq<char>) -> bool {
    forall|i: int| 0 <= i < text.len() ==> is_digit(#[trigger] text[i])
}

/// `text` without the plus sign it may begin with.
pub open spec fn unsigned_part(text: Seq<char>) -> Seq<char> {
    if text.len() > 0 && text[0] == '+' {
        text.drop_first()
    } else {
        text
    }
}

/// The number that `text` spells in decimal digits, a plus sign before
/// them or not. A text with anything else in it, or with no digit, or with
/// a number too large for 64 bits, spells none.
pub open spec fn number_of(text: Seq<char>) -> Option<u64> {
    let digits = unsigned_part(text);
    if digits.len() > 0 && all_digits(digits) && decimal(digits) <= u64::MAX {
        Some(decimal(digits) as u64)
    } else {
        None
    }
}

/// The number that a row of digits spells does not get smaller when a
/// digit is put behind it.
proof fn lemma_decimal_grows(digits: Seq<char>, len: int)
    requires
        0 <= len <= digits.len(),
    ensures
        decimal(digits.take(len)) <= decimal(digits),
    decreases digits.len() - len,
{
    if len < digits.len() {
        lemma_decimal_grows(digits, len + 1);
        assert(digits.take(len + 1).drop_last() =~= digits.take(len));
    } else {
        assert(digits.take(len) =~= digits);
    }
}

/// Reads the number that `text` spells.
pub fn parse_number(text: &str) -> (number: Option<u64>)
    ensures
        number == number_of(text@),
{
    let n = text.unicode_len();
    if n == 0 {
        return None;
    }
    let first: usize = if text.get_char(0) == '+' {
        1
    } else {
        0
    };
    let ghost digits = unsigned_part(text@);
    assert(digits =~= text@.subrange(first as int, n as int));
    if first == n {
        return None;
    }
    let mut i: usize = first;
    let mut value: u64 = 0;
    assert(digits.take(0) =~= Seq::<char>::empty());
    while i < n
        invariant
            n == text@.len(),
            first <= i <= n,
            digits == text@.subrange(first as int, n as int),
            digits == unsigned_part(text@),
            all_digits(digits.take(i - first)),
            value == decimal(digits.take(i - first)),
        decreases n - i,
    {
        let c = text.get_char(i);
        let ghost seen = digits.take(i - first);
        let ghost more = digits.take(i - first + 1);
        proof {
            assert(digits[i - first] == c);
            assert(more.drop_last() =~= seen);
            assert(more.last() == c);
        }
        if !(c >= '0' && c <= '9') {
            assert(!is_digit(digits[i - first]));
            return None;
        }
        assert(all_digits(more)) by {
            assert forall|j: int| 0 <= j < more.len() implies is_digit(#[trigger] more[j]) by {
                if j < seen.len() {
                    assert(more[j] == seen[j]);
                }
            }
        }
        let digit: u64 = (c as u32 - '0' as u32) as u64;
        let next = match value.checked_mul(10) {
            Some(tens) => tens.checked_add(digit),
            None => None,
        };
        match next {
            Some(sum) => {
                value = sum;
            },
            None => {
                proof {
                    assert(decimal(more) > u64::MAX);
                    lemma_decimal_grows(digits, i - first + 1);
                }
                return None;
            },
        }
        i = i + 1;
    }
    assert(digits.take(n - first) =~= digits);
    Some(value)
}

} // verus!
