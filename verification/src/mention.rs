//! Reading the user id out of a mention such as `<@!82982763317166080>`.

use vstd::prelude::*;
use vstd::string::StrSliceExecFns;

verus! {

/// `c` is one of the ten decimal digits.
pub open spec fn is_digit(c: char) -> bool {
    '0' <= c && c <= '9'
}

/// The number a decimal digit stands for.
pub open spec fn digit_value(c: char) -> nat {
    (c as u32 - '0' as u32) as nat
}

/// The decimal digits of `text`, in their order.
pub open spec fn digits_of(text: Seq<char>) -> Seq<char> {
    text.filter(|c: char| is_digit(c))
}

/// The number that a row of decimal digits spells; zero for an empty row.
pub open spec fn decimal(digits: Seq<char>) -> nat
    decreases digits.len(),
{
    if digits.len() == 0 {
        0
    } else {
        decimal(digits.drop_last()) * 10 + digit_value(digits.last())
    }
}

/// The user id a mention names: the number that its digits spell, all other
/// characters left aside. A mention without a digit names no one, and
/// neither does one whose number is too large for an id.
pub open spec fn user_id_of(mention: Seq<char>) -> Option<u64> {
    let digits = digits_of(mention);
    if digits.len() > 0 && decimal(digits) <= u64::MAX {
        Some(decimal(digits) as u64)
    } else {
        None
    }
}

/// The digits of a text that ends in `last` are those of the text before
/// it, and `last` itself if it is a digit.
proof fn lemma_digits_step(text: Seq<char>, last: char)
    ensures
        digits_of(text.push(last)) == if is_digit(last) {
            digits_of(text).push(last)
        } else {
            digits_of(text)
        },
{
    reveal(Seq::filter);
    assert(text.push(last).drop_last() =~= text);
}

/// Reads the user id out of a mention.
pub fn mention_to_user_id(mention: &str) -> (id: Option<u64>)
    ensures
        id == user_id_of(mention@),
{
    let n = mention.unicode_len();
    let mut i: usize = 0;
    let mut value: u64 = 0;
    let mut any: bool = false;
    let mut fits: bool = true;
    proof {
        reveal(Seq::filter);
        assert(mention@.take(0) =~= Seq::<char>::empty());
    }
    while i < n
        invariant
            n == mention@.len(),
            i <= n,
            any <==> digits_of(mention@.take(i as int)).len() > 0,
            fits ==> value == decimal(digits_of(mention@.take(i as int))),
            !fits ==> decimal(digits_of(mention@.take(i as int))) > u64::MAX,
        decreases n - i,
    {
        let c = mention.get_char(i);
        proof {
            assert(mention@.take(i + 1) =~= mention@.take(i as int).push(c));
            lemma_digits_step(mention@.take(i as int), c);
            let before = digits_of(mention@.take(i as int));
            if is_digit(c) {
                assert(before.push(c).drop_last() =~= before);
                assert(before.push(c).last() == c);
            }
        }
        if c >= '0' && c <= '9' {
            any = true;
            if fits {
                let digit: u64 = (c as u32 - '0' as u32) as u64;
                match value.checked_mul(10) {
                    Some(tens) => match tens.checked_add(digit) {
                        Some(sum) => {
                            value = sum;
                        },
                        None => {
                            fits = false;
                        },
                    },
                    None => {
                        fits = false;
                    },
                }
            }
        }
        i = i + 1;
    }
    proof {
        assert(mention@.take(n as int) =~= mention@);
    }
    if any && fits {
        Some(value)
    } else {
        None
    }
}

} // verus!
