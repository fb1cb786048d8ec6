//! Decimal numbers as a PHC string writes them: ASCII digits, no sign, no
//! leading zero, and a value that fits in 32 bits.

use vstd::prelude::*;

verus! {

/// `c` is one of the ten ASCII digits.
pub open spec fn is_digit(c: char) -> bool {
    '0' <= c && c <= '9'
}

/// The number a digit stands for.
pub open spec fn digit_value(c: char) -> nat {
    (c as u32 - '0' as u32) as nat
}

/// Every character of `text` is a digit.
pub open spec fn all_digits(text: Seq<char>) -> bool {
    forall|i: int| 0 <= i < text.len() ==> is_digit(#[trigger] text[i])
}

/// The number that a run of digits denotes in base ten; 0 for the empty run.
pub open spec fn digits_value(text: Seq<char>) -> nat
    decreases text.len(),
{
    if text.len() == 0 {
        0
    } else {
        10 * digits_value(text.drop_last()) + digit_value(text.last())
    }
}

/// The value of `text` read as a PHC decimal, or `None` where it is not one:
/// empty, a character that is no digit, a leading zero before further
/// digits, or a value above 2^32 - 1.
pub open spec fn decimal_value(text: Seq<char>) -> Option<u32> {
    if text.len() > 0 && all_digits(text) && (text.len() > 1 ==> text[0] != '0') && digits_value(
        text,
    ) <= u32::MAX {
        Some(digits_value(text) as u32)
    } else {
        None
    }
}

/// A run of digits denotes at least what any of its prefixes denotes.
pub proof fn lemma_prefix_value(text: Seq<char>, length: int)
    requires
        0 <= length <= text.len(),
    ensures
        digits_value(text.take(length)) <= digits_value(text),
    decreases text.len(),
{
    if length == text.len() {
        assert(text.take(length) =~= text);
    } else {
        assert(text.drop_last().take(length) =~= text.take(length));
        lemma_prefix_value(text.drop_last(), length);
    }
}

/// Reads `text` as a PHC decimal.
pub fn parse_decimal(text: &str) -> (value: Option<u32>)
    ensures
        value == decimal_value(text@),
{
    let length = text.unicode_len();
    if length == 0 {
        return None;
    }
    let mut value: u64 = 0;
    let mut index: usize = 0;
    while index < length
        invariant
            index <= length,
            length == text@.len(),
            all_digits(text@.take(index as int)),
            value == digits_value(text@.take(index as int)),
            value <= u32::MAX,
            index > 0 && length > 1 ==> text@[0] != '0',
        decreases length - index,
    {
        let c = text.get_char(index);
        if c < '0' || c > '9' {
            return None;
        }
        if index == 0 && c == '0' && length > 1 {
            return None;
        }
        let next: u64 = value * 10 + (c as u64 - '0' as u64);
        proof {
            let prefix = text@.take(index as int + 1);
            assert(prefix.drop_last() =~= text@.take(index as int));
            assert(prefix.last() == c);
            assert(next == digits_value(prefix));
            assert(all_digits(prefix)) by {
                assert forall|i: int| 0 <= i < prefix.len() implies is_digit(
                    #[trigger] prefix[i],
                ) by {
                    if i < index {
                        assert(text@.take(index as int)[i] == prefix[i]);
                    }
                }
            }
            lemma_prefix_value(text@, index as int + 1);
        }
        if next > u32::MAX as u64 {
            return None;
        }
        value = next;
        index += 1;
    }
    proof {
        assert(text@.take(length as int) =~= text@);
    }
    Some(value as u32)
}

} // verus!
