//! Integers as decimal texts: case revisions and case numbers.

use vstd::prelude::*;
use vstd::string::*;
use vstd::utf8::*;

use crate::text;
use crate::text::is_digit_byte;

verus! {

/// The digit that stands for a value below ten.
pub open spec fn digit(value: int) -> char {
    ('0' as u32 + value) as char
}

/// The decimal digits of a number, without leading zeros.
pub open spec fn decimal(number: nat) -> Seq<char>
    decreases number,
{
    if number < 10 {
        seq![digit(number as int)]
    } else {
        decimal(number / 10).push(digit((number % 10) as int))
    }
}

/// The decimal text of an integer.
pub open spec fn integer_text(value: int) -> Seq<char> {
    if value < 0 {
        seq!['-'] + decimal((-value) as nat)
    } else {
        decimal(value as nat)
    }
}

/// Whether a text is made of digits, at least one.
pub open spec fn all_digits(text: Seq<char>) -> bool {
    &&& text.len() > 0
    &&& forall|i: int| 0 <= i < text.len() ==> text::ascii_digit(#[trigger] text[i])
}

/// The number that a sequence of digits stands for.
pub open spec fn digits_value(digits: Seq<char>) -> nat
    decreases digits.len(),
{
    if digits.len() == 0 {
        0
    } else {
        10 * digits_value(digits.drop_last()) + (digits.last() as u32 - '0' as u32) as nat
    }
}

/// The digits of a signed text behind an optional plus sign.
pub open spec fn without_plus(text: Seq<char>) -> Seq<char> {
    if text.len() > 0 && text[0] == '+' {
        text.subrange(1, text.len() as int)
    } else {
        text
    }
}

/// The positive 64-bit integer that a text stands for, if any. A plus sign and
/// leading zeros are accepted.
pub open spec fn positive_value(text: Seq<char>) -> Option<i64> {
    let digits = without_plus(text);
    if all_digits(digits) && 0 < digits_value(digits) <= i64::MAX {
        Some(digits_value(digits) as i64)
    } else {
        None
    }
}

fn digit_text(value: u64) -> (text: &'static str)
    requires
        value < 10,
    ensures
        text@ == seq![digit(value as int)],
{
    proof {
        reveal_strlit("0");
        reveal_strlit("1");
        reveal_strlit("2");
        reveal_strlit("3");
        reveal_strlit("4");
        reveal_strlit("5");
        reveal_strlit("6");
        reveal_strlit("7");
        reveal_strlit("8");
        reveal_strlit("9");
    }
    let text = if value == 0 {
        "0"
    } else if value == 1 {
        "1"
    } else if value == 2 {
        "2"
    } else if value == 3 {
        "3"
    } else if value == 4 {
        "4"
    } else if value == 5 {
        "5"
    } else if value == 6 {
        "6"
    } else if value == 7 {
        "7"
    } else if value == 8 {
        "8"
    } else {
        "9"
    };
    assert(text@ =~= seq![digit(value as int)]);
    text
}

/// Writes the decimal digits of a number behind a text.
pub fn append_number(text: &mut String, number: u64)
    ensures
        final(text)@ == old(text)@ + decimal(number as nat),
    decreases number,
{
    if number >= 10 {
        append_number(text, number / 10);
    }
    text.append(digit_text(number % 10));
    proof {
        let digits = decimal(number as nat);
        assert(text@ =~= old(text)@ + digits);
    }
}

/// The decimal text of an integer.
pub fn format_integer(value: i64) -> (text: String)
    ensures
        text@ == integer_text(value as int),
{
    let mut text = String::new();
    if value >= 0 {
        append_number(&mut text, value as u64);
        assert(text@ =~= integer_text(value as int));
    } else {
        text.append("-");
        proof {
            reveal_strlit("-");
        }
        let magnitude: u64 = (-(value as i128)) as u64;
        append_number(&mut text, magnitude);
        assert(text@ =~= integer_text(value as int));
    }
    text
}

/// Reads a positive integer: decimal digits behind an optional plus sign.
pub fn parse_positive(value: &str) -> (result: Option<i64>)
    ensures
        result == positive_value(value@),
{
    broadcast use is_ascii_spec_bytes;

    if !value.is_ascii() {
        proof {
            let digits = without_plus(value@);
            if all_digits(digits) {
                assert forall|i: int| 0 <= i < value@.len() implies '\0' <= #[trigger] value@[i] <= '\u{7f}' by {
                    if value@[0] == '+' {
                        if i > 0 {
                            assert(text::ascii_digit(digits[i - 1]));
                        }
                    } else {
                        assert(text::ascii_digit(digits[i]));
                    }
                }
                assert(is_ascii_chars(value@));
            }
        }
        return None;
    }
    let bytes = value.as_bytes();
    let ghost digits = without_plus(value@);
    if bytes.len() == 0 {
        return None;
    }
    assert(bytes@[0] == value@[0] as u8);
    let start: usize = if bytes[0] == 43 {
        1
    } else {
        0
    };
    if start == bytes.len() {
        return None;
    }
    let mut total: u64 = 0;
    let mut over = false;
    let mut index: usize = start;
    while index < bytes.len()
        invariant
            start <= index <= bytes@.len(),
            start == 0 || start == 1,
            is_ascii_chars(value@),
            bytes@ == Seq::new(value@.len(), |i: int| value@[i] as u8),
            digits == value@.subrange(start as int, value@.len() as int),
            digits == without_plus(value@),
            forall|i: int| 0 <= i < index - start ==> text::ascii_digit(#[trigger] digits[i]),
            !over ==> total == digits_value(digits.take(index - start)) && total <= i64::MAX as u64,
            over ==> digits_value(digits.take(index - start)) > i64::MAX,
        decreases bytes@.len() - index,
    {
        let ghost position = index - start;
        assert(bytes@[index as int] == value@[index as int] as u8);
        assert(digits[position] == value@[index as int]);
        let byte: u8 = bytes[index];
        if !is_digit_byte(byte) {
            assert(!text::ascii_digit(digits[position]));
            return None;
        }
        proof {
            assert(digits.take(position + 1).drop_last() =~= digits.take(position));
        }
        if !over {
            let next: u128 = total as u128 * 10 + (byte - 48) as u128;
            if next > i64::MAX as u128 {
                over = true;
            } else {
                total = next as u64;
            }
        }
        index += 1;
    }
    assert(digits.take(digits.len() as int) =~= digits);
    if over || total == 0 {
        None
    } else {
        Some(total as i64)
    }
}

/// The decimal text of a number: digits of that value, with no zero before them.
pub proof fn lemma_digits(number: nat)
    ensures
        all_digits(decimal(number)),
        digits_value(decimal(number)) == number,
        number > 0 ==> decimal(number)[0] != '0',
        number > 0 ==> decimal(number)[0] != '+',
    decreases number,
{
    if number < 10 {
        assert(decimal(number).drop_last() =~= Seq::empty());
        assert(digits_value(Seq::empty()) == 0);
    } else {
        lemma_digits(number / 10);
        let shorter = decimal(number / 10);
        assert(decimal(number).drop_last() =~= shorter);
        assert forall|i: int| 0 <= i < decimal(number).len() implies text::ascii_digit(
            #[trigger] decimal(number)[i],
        ) by {
            if i < shorter.len() {
                assert(decimal(number)[i] == shorter[i]);
                assert(text::ascii_digit(shorter[i]));
            }
        }
        assert(decimal(number)[0] == shorter[0]);
    }
}

/// Reading the decimal text of a positive integer gives the integer back.
pub proof fn law_decimal_round_trip(value: i64)
    requires
        value > 0,
    ensures
        positive_value(integer_text(value as int)) == Some(value),
{
    lemma_digits(value as nat);
    assert(without_plus(decimal(value as nat)) =~= decimal(value as nat));
}

/// Two numbers with the same digits are equal.
pub proof fn law_decimal_is_injective(left: nat, right: nat)
    requires
        decimal(left) == decimal(right),
    ensures
        left == right,
{
    lemma_digits(left);
    lemma_digits(right);
}

} // verus!
