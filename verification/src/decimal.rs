//! Numbers written in decimal.

use vstd::prelude::*;
use vstd::string::*;

verus! {

/// The character of a decimal digit.
pub open spec fn digit(value: nat) -> char
    recommends
        value < 10,
{
    ((48 + value) as u8) as char
}

/// A number in decimal, without leading zeros.
pub open spec fn decimal(value: nat) -> Seq<char>
    decreases value,
{
    if value < 10 {
        seq![digit(value)]
    } else {
        decimal(value / 10).push(digit(value % 10))
    }
}

/// The character is a decimal digit.
pub open spec fn is_digit(c: char) -> bool {
    '0' <= c <= '9'
}

/// The text is not empty and holds decimal digits only.
pub open spec fn all_digits(text: Seq<char>) -> bool {
    text.len() > 0 && forall|i: int| 0 <= i < text.len() ==> is_digit(#[trigger] text[i])
}

/// The number that a text of digits denotes.
pub open spec fn digits_value(text: Seq<char>) -> nat
    decreases text.len(),
{
    if text.len() == 0 {
        0
    } else {
        digits_value(text.drop_last()) * 10 + ((text.last() as u32 - 48) as nat)
    }
}

/// Reading a number that was written in decimal gives the number back.
pub proof fn lemma_decimal_reads_back(value: nat)
    ensures
        all_digits(decimal(value)),
        digits_value(decimal(value)) == value,
    decreases value,
{
    if value < 10 {
        assert(decimal(value).drop_last() =~= Seq::<char>::empty());
        assert(digits_value(decimal(value).drop_last()) == 0);
    } else {
        lemma_decimal_reads_back(value / 10);
        assert(decimal(value).drop_last() =~= decimal(value / 10));
    }
}

/// Whether `text` is a text of digits that denotes a number above `limit`.
/// Leading zeros do not matter, and the number may be of any length.
pub fn digits_exceed(text: &str, limit: u32) -> (over: bool)
    ensures
        over == (all_digits(text@) && digits_value(text@) > limit),
{
    let length = text.unicode_len();
    if length == 0 {
        return false;
    }
    let mut seen: u64 = 0;
    let mut over = false;
    let mut i: usize = 0;
    while i < length
        invariant
            i <= length,
            length == text@.len(),
            forall|k: int| 0 <= k < i ==> is_digit(#[trigger] text@[k]),
            over == (digits_value(text@.take(i as int)) > limit),
            !over ==> seen == digits_value(text@.take(i as int)),
        decreases length - i,
    {
        let c = text.get_char(i);
        if c < '0' || c > '9' {
            return false;
        }
        assert(text@.take(i + 1).drop_last() =~= text@.take(i as int));
        if !over {
            seen = seen * 10 + ((c as u32 - 48) as u64);
            over = seen > limit as u64;
        }
        i += 1;
    }
    assert(text@.take(length as int) =~= text@);
    over
}

} // verus!
