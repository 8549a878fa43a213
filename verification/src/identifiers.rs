//! What the texts of UUIDs hold.

use vstd::prelude::*;

use crate::outside;

verus! {

/// Sixteen to a power.
spec fn power16(exponent: nat) -> int
    decreases exponent,
{
    if exponent == 0 {
        1
    } else {
        16 * power16((exponent - 1) as nat)
    }
}

proof fn lemma_hex_digit_round_trip(value: int)
    requires
        0 <= value < 16,
    ensures
        outside::hex_digit_value(outside::hex_digit(value)) == Some(value),
        outside::hex_digit(value) != '-',
{
}

proof fn lemma_hex_round_trip(value: int, count: nat)
    requires
        0 <= value < power16(count),
    ensures
        outside::hex_digits(value, count).len() == count,
        outside::hex_value(outside::hex_digits(value, count)) == Some(value),
    decreases count,
{
    if count == 0 {
        assert(outside::hex_digits(value, count) =~= Seq::empty());
    } else {
        let fewer = (count - 1) as nat;
        assert(power16(count) == 16 * power16(fewer));
        assert(0 <= value / 16 < power16(fewer));
        lemma_hex_round_trip(value / 16, fewer);
        lemma_hex_digit_round_trip(value % 16);
        let digits = outside::hex_digits(value, count);
        assert(digits.drop_last() =~= outside::hex_digits(value / 16, fewer));
        assert(digits.last() == outside::hex_digit(value % 16));
    }
}

proof fn lemma_simple_uuid(id: u128)
    ensures
        outside::simple_uuid(id).len() == 32,
        outside::hex_value(outside::simple_uuid(id)) == Some(id as int),
{
    reveal_with_fuel(power16, 33);
    assert(power16(32) == u128::MAX + 1);
    lemma_hex_round_trip(id as int, 32);
}

/// Reading the canonical text of an identifier gives the identifier back.
pub proof fn law_uuid_round_trip(id: u128)
    ensures
        outside::uuid_text(id).len() == 36,
        outside::uuid_of(outside::uuid_text(id)) == Some(id),
{
    lemma_simple_uuid(id);
    let digits = outside::simple_uuid(id);
    let text = outside::uuid_text(id);
    assert(text.len() == 36);
    assert(text[8] == '-' && text[13] == '-' && text[18] == '-' && text[23] == '-');
    assert(text.subrange(0, 8) + text.subrange(9, 13) + text.subrange(14, 18) + text.subrange(19, 23)
        + text.subrange(24, 36) =~= digits);
}

/// Reading the digits of an identifier gives the identifier back.
pub proof fn law_simple_uuid_round_trip(id: u128)
    ensures
        outside::uuid_of(outside::simple_uuid(id)) == Some(id),
{
    lemma_simple_uuid(id);
}

} // verus!
