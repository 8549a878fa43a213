//! The rules that texts, numbers and configurations obey.

use vstd::prelude::*;
use vstd::string::*;
use vstd::utf8::*;

use crate::command;
use crate::config;
use crate::config::{SupportCaseConfig, SupportCaseConfigError};
use crate::cursor;
use crate::decimal;
use crate::outside;
use crate::text;
use crate::validate;

verus! {

/// Whether a character is a letter or a digit of ASCII, or one of the five signs that
/// opaque identifiers may hold.
pub open spec fn in_identifiers(c: char) -> bool {
    ||| 'a' <= c <= 'z'
    ||| 'A' <= c <= 'Z'
    ||| '0' <= c <= '9'
    ||| c == '.'
    ||| c == '_'
    ||| c == '-'
    ||| c == ':'
    ||| c == '/'
}

/// An opaque identifier has at least one character and at most as many as allowed, and
/// every one of them is a letter, a digit or one of the five signs. An exact name has no
/// slash either.
pub proof fn law_identifiers_hold_no_other_characters(id: Seq<char>, maximum: nat)
    ensures
        validate::opaque_id(id, maximum) <==> 1 <= id.len() <= maximum && forall|i: int|
            0 <= i < id.len() ==> in_identifiers(#[trigger] id[i]),
        validate::identifier(id, maximum) <==> validate::opaque_id(id, maximum) && forall|i: int|
            0 <= i < id.len() ==> #[trigger] id[i] != '/',
{
    if validate::opaque_id(id, maximum) {
        assert forall|i: int| 0 <= i < id.len() implies in_identifiers(#[trigger] id[i]) by {
            assert(validate::opaque_char(id[i]));
        }
    }
}

/// Whether a character is blank.
pub open spec fn is_blank(c: char) -> bool {
    ||| c == '\t'
    ||| c == '\n'
    ||| c == '\u{b}'
    ||| c == '\u{c}'
    ||| c == '\r'
    ||| c == ' '
    ||| c == '\u{85}'
    ||| c == '\u{a0}'
    ||| c == '\u{1680}'
    ||| '\u{2000}' <= c <= '\u{200a}'
    ||| c == '\u{2028}'
    ||| c == '\u{2029}'
    ||| c == '\u{202f}'
    ||| c == '\u{205f}'
    ||| c == '\u{3000}'
}

/// Whether a character is a control character that texts may not hold: all of them but
/// tabs and the ends of lines.
pub open spec fn is_barred(c: char) -> bool {
    (c < ' ' || '\u{7f}' <= c <= '\u{9f}') && c != '\t' && c != '\n' && c != '\r'
}

/// A text takes at most as many bytes in UTF-8 as allowed, holds no control character
/// but tabs and the ends of lines, and is not blank unless it may be empty.
pub proof fn law_texts_are_plain(content: Seq<char>, maximum: nat, allow_empty: bool)
    ensures
        validate::plain_text(content, maximum, allow_empty) <==> encode_utf8(content).len()
            <= maximum && (forall|i: int|
            0 <= i < content.len() ==> !is_barred(#[trigger] content[i])) && (allow_empty
            || exists|i: int| 0 <= i < content.len() && !is_blank(#[trigger] content[i])),
{
    assert forall|i: int| 0 <= i < content.len() implies text::white_space(content[i])
        == is_blank(#[trigger] content[i]) && (text::control_char(content[i]) && content[i] != '\n'
        && content[i] != '\r' && content[i] != '\t') == is_barred(content[i]) by {
        lemma_signs(content[i]);
    }
    if !text::blank(content) {
        let i = choose|i: int| 0 <= i < content.len() && !text::white_space(#[trigger] content[i]);
        assert(!is_blank(content[i]));
    }
    if forall|i: int| 0 <= i < content.len() ==> !is_barred(#[trigger] content[i]) {
        assert forall|i: int| 0 <= i < content.len() implies {
            let c = #[trigger] content[i];
            text::control_char(c) ==> c == '\n' || c == '\r' || c == '\t'
        } by {
            assert(!is_barred(content[i]));
        }
    }
}

proof fn lemma_signs(c: char)
    ensures
        text::white_space(c) == is_blank(c),
        (text::control_char(c) && c != '\n' && c != '\r' && c != '\t') == is_barred(c),
{
}

/// A case is named by its identifier, or by its number: `SUP-` and digits without a zero
/// before them. Every number that a case can have is such a name.
pub proof fn law_cases_are_named_by_identifier_or_number(reference: Seq<char>, number: nat)
    ensures
        validate::case_reference(reference) <==> outside::uuid_of(reference) is Some
            || validate::case_identifier(reference),
        validate::case_identifier(reference) ==> reference.len() > 4 && reference[0] == 'S'
            && reference[1] == 'U' && reference[2] == 'P' && reference[3] == '-' && reference[4]
            != '0' && forall|i: int|
            4 <= i < reference.len() ==> '0' <= #[trigger] reference[i] <= '9',
        number > 0 ==> validate::case_identifier(command::numbered(number as int)),
{
    reveal_strlit("SUP-");
    if validate::case_identifier(reference) {
        assert(reference.take(4)[0] == 'S' && reference.take(4)[1] == 'U' && reference.take(4)[2]
            == 'P' && reference.take(4)[3] == '-');
        assert forall|i: int| 4 <= i < reference.len() implies '0' <= #[trigger] reference[i]
            <= '9' by {
            assert(reference.skip(4)[i - 4] == reference[i]);
        }
    }
    if number > 0 {
        decimal::lemma_digits(number);
        let named = command::numbered(number as int);
        assert(named.take(4) =~= "SUP-"@);
        assert(named.skip(4) =~= decimal::decimal(number));
        assert(named[4] == decimal::decimal(number)[0]);
    }
}

/// Numbers are written with the ten digits, the units last.
pub proof fn law_numbers_are_written_in_tens(tens: nat, units: nat)
    requires
        units < 10,
    ensures
        decimal::decimal(units).len() == 1,
        decimal::decimal(units)[0] as u32 == '0' as u32 + units,
        tens > 0 ==> decimal::decimal(10 * tens + units) == decimal::decimal(tens)
            + decimal::decimal(units),
{
    if tens > 0 {
        assert((10 * tens + units) / 10 == tens);
        assert((10 * tens + units) % 10 == units);
        assert(decimal::decimal(units) =~= seq![decimal::digit(units as int)]);
        assert(decimal::decimal(tens).push(decimal::digit(units as int)) =~= decimal::decimal(tens)
            + decimal::decimal(units));
    }
}

/// Digits are read from the left, in tens.
pub proof fn law_numbers_are_read_in_tens(digits: Seq<char>, last: char)
    requires
        '0' <= last <= '9',
    ensures
        decimal::digits_value(Seq::empty()) == 0,
        decimal::digits_value(digits.push(last)) == 10 * decimal::digits_value(digits) + (
        last as u32 - '0' as u32),
{
    assert(digits.push(last).drop_last() =~= digits);
}

/// An integer below zero is written with a sign before it.
pub proof fn law_integers_are_written_with_their_sign(value: int)
    ensures
        value >= 0 ==> decimal::integer_text(value) == decimal::decimal(value as nat),
        value < 0 ==> decimal::integer_text(value) == seq!['-'] + decimal::decimal((-value) as nat),
{
}

/// What stands behind a plus, or the whole where there is none.
pub open spec fn behind_plus(given: Seq<char>) -> Seq<char> {
    if given.len() > 0 && given[0] == '+' {
        given.skip(1)
    } else {
        given
    }
}

/// A revision is read from digits, with or without a plus before them, exactly where
/// their value is positive and fits in 64 bits. Anything else is no revision.
pub proof fn law_revisions_are_positive(given: Seq<char>)
    ensures
        ({
            let digits = behind_plus(given);
            let value = decimal::digits_value(digits);
            let read = digits.len() > 0 && (forall|i: int|
                0 <= i < digits.len() ==> '0' <= #[trigger] digits[i] <= '9') && 1 <= value
                <= 0x7fff_ffff_ffff_ffff;
            &&& decimal::positive_value(given) is Some <==> read
            &&& decimal::positive_value(given) matches Some(revision) ==> revision == value
        }),
{
    if given.len() > 0 && given[0] == '+' {
        assert(decimal::without_plus(given) =~= given.skip(1));
    }
    let digits = behind_plus(given);
    assert(decimal::without_plus(given) == digits);
    if decimal::all_digits(digits) {
        assert forall|i: int| 0 <= i < digits.len() implies '0' <= #[trigger] digits[i] <= '9' by {
            assert(text::ascii_digit(digits[i]));
        }
    }
    if digits.len() > 0 && (forall|i: int|
        0 <= i < digits.len() ==> '0' <= #[trigger] digits[i] <= '9') {
        assert forall|i: int| 0 <= i < digits.len() implies text::ascii_digit(
            #[trigger] digits[i],
        ) by {
            assert('0' <= digits[i] <= '9');
        }
        assert(decimal::all_digits(digits));
    }
}

/// A place is told as its time and its identifier with a bar between them.
pub proof fn law_places_are_told(instant: int, id: u128)
    ensures
        cursor::place_text(instant, id) == outside::rfc3339_text(instant) + "|"@
            + outside::uuid_text(id),
{
    reveal_strlit("|");
    assert("|"@ =~= seq!['|']);
}

/// A place is read from a time and an identifier with a bar between them. Where there is
/// no bar, no time before it or no identifier behind it, there is no place.
pub proof fn law_places_are_read(time: Seq<char>, id: Seq<char>, given: Seq<char>)
    requires
        !time.contains('|'),
        !given.contains('|'),
    ensures
        ({
            let place = cursor::place_named(time + seq!['|'] + id);
            &&& place is Some <==> outside::rfc3339_instant(time) is Some && outside::uuid_of(
                id,
            ) is Some
            &&& place matches Some((instant, named)) ==> Some(instant) == outside::rfc3339_instant(
                time,
            ) && Some(named) == outside::uuid_of(id)
        }),
        cursor::place_named(given) is None,
{
    broadcast use vstd::seq_lib::group_seq_properties;

    let whole = time + seq!['|'] + id;
    let bar = time.len() as int;
    whole.index_of_first_ensures('|');
    given.index_of_first_ensures('|');
    assert(whole[bar] == '|');
    assert(whole.contains('|'));
    let found = whole.index_of_first('|')->0;
    if found < bar {
        assert(whole[found] == time[found]);
        assert(time.contains('|'));
    }
    assert(found == bar);
    assert(whole.take(bar) =~= time);
    assert(whole.skip(bar + 1) =~= id);
}

/// A list of callers names at least one and at most 64, each by an exact name of at most
/// 256 bytes, and none twice.
pub proof fn law_callers_are_listed_once(callers: Seq<String>)
    ensures
        validate::caller_list(callers) <==> 1 <= callers.len() <= 64 && (forall|i: int|
            0 <= i < callers.len() ==> validate::identifier((#[trigger] callers[i])@, 256)) && (
        forall|i: int, j: int|
            0 <= i < callers.len() && 0 <= j < callers.len() && (#[trigger] callers[i])@ == (
            #[trigger] callers[j])@ ==> i == j),
{
}

/// A reference to a secret is an opaque identifier of at most 256 bytes that neither
/// begins nor ends with a slash, holds no two of them in a row, and whose parts between
/// them are neither a dot nor two.
pub proof fn law_secret_references_are_plain_paths(
    reference: Seq<char>,
    head: Seq<char>,
    tail: Seq<char>,
)
    ensures
        validate::secret_reference(reference) ==> validate::opaque_id(reference, 256),
        !validate::secret_reference(seq!['/'] + tail),
        !validate::secret_reference(head + seq!['/']),
        !validate::secret_reference(head + seq!['/', '/'] + tail),
        !validate::secret_reference(seq!['.']),
        !validate::secret_reference(seq!['.', '.']),
        !validate::secret_reference(seq!['.', '/'] + tail),
        !validate::secret_reference(seq!['.', '.', '/'] + tail),
        !validate::secret_reference(head + seq!['/', '.']),
        !validate::secret_reference(head + seq!['/', '.', '.']),
        !validate::secret_reference(head + seq!['/', '.', '/'] + tail),
        !validate::secret_reference(head + seq!['/', '.', '.', '/'] + tail),
        validate::identifier(reference, 256) && reference != seq!['.'] && reference != seq![
            '.',
            '.',
        ] ==> validate::secret_reference(reference),
{
    let first = seq!['/'] + tail;
    assert(first[0] == '/');
    let second = head + seq!['/'];
    assert(second.last() == '/');
    let third = head + seq!['/', '/'] + tail;
    let at = head.len() as int;
    assert(third[at] == '/' && third[at + 1] == '/');
    lemma_dots(Seq::empty(), Seq::empty());
    lemma_dots(Seq::empty(), seq!['/'] + tail);
    lemma_dots(head + seq!['/'], Seq::empty());
    lemma_dots(head + seq!['/'], seq!['/'] + tail);
    assert(Seq::<char>::empty() + seq!['.'] + Seq::empty() =~= seq!['.']);
    assert(Seq::<char>::empty() + seq!['.', '.'] + Seq::empty() =~= seq!['.', '.']);
    assert(Seq::<char>::empty() + seq!['.'] + (seq!['/'] + tail) =~= seq!['.', '/'] + tail);
    assert(Seq::<char>::empty() + seq!['.', '.'] + (seq!['/'] + tail) =~= seq!['.', '.', '/']
        + tail);
    assert(head + seq!['/'] + seq!['.'] + Seq::empty() =~= head + seq!['/', '.']);
    assert(head + seq!['/'] + seq!['.', '.'] + Seq::empty() =~= head + seq!['/', '.', '.']);
    assert(head + seq!['/'] + seq!['.'] + (seq!['/'] + tail) =~= head + seq!['/', '.', '/'] + tail);
    assert(head + seq!['/'] + seq!['.', '.'] + (seq!['/'] + tail) =~= head + seq![
        '/',
        '.',
        '.',
        '/',
    ] + tail);
    if validate::identifier(reference, 256) && reference != seq!['.'] && reference != seq![
        '.',
        '.',
    ] {
        assert forall|i: int| 0 <= i < reference.len() implies #[trigger] reference[i] != '/' by {
            if reference[i] == '/' {
                assert(reference.contains('/'));
            }
        }
        assert forall|start: int, end: int| #[trigger]
            validate::segment(reference, start, end) implies !validate::dotted(
            reference.subrange(start, end),
        ) by {
            assert(reference.subrange(start, end) =~= reference);
        }
    }
}

/// A part that is a dot or two is a segment between what ends and what begins with a
/// slash.
proof fn lemma_dots(head: Seq<char>, tail: Seq<char>)
    requires
        head.len() == 0 || head.last() == '/',
        tail.len() == 0 || tail[0] == '/',
    ensures
        !validate::secret_reference(head + seq!['.'] + tail),
        !validate::secret_reference(head + seq!['.', '.'] + tail),
{
    let one = head + seq!['.'] + tail;
    let two = head + seq!['.', '.'] + tail;
    let at = head.len() as int;
    assert(one.subrange(at, at + 1) =~= seq!['.']);
    assert(two.subrange(at, at + 2) =~= seq!['.', '.']);
    assert(validate::segment(one, at, at + 1));
    assert(validate::segment(two, at, at + 2));
}

/// Two references to secrets with a slash between them are one, if it is not too long.
pub proof fn law_secret_references_are_joined(head: Seq<char>, tail: Seq<char>)
    requires
        validate::secret_reference(head),
        validate::secret_reference(tail),
        head.len() + 1 + tail.len() <= 256,
    ensures
        validate::secret_reference(head + seq!['/'] + tail),
{
    let whole = head + seq!['/'] + tail;
    let bar = head.len() as int;
    assert(whole[bar] == '/');
    assert(whole.last() == tail.last());
    assert forall|i: int| 0 <= i < whole.len() implies validate::opaque_char(#[trigger] whole[i]) by {
        if i < bar {
            assert(whole[i] == head[i]);
        } else if i > bar {
            assert(whole[i] == tail[i - bar - 1]);
        }
    }
    assert forall|i: int| 0 < i < whole.len() && #[trigger] whole[i] == '/' implies whole[i - 1]
        != '/' by {
        if i < bar {
            assert(whole[i] == head[i] && whole[i - 1] == head[i - 1]);
        } else if i == bar {
            assert(whole[i - 1] == head.last());
        } else if i == bar + 1 {
            assert(whole[i] == tail[0]);
        } else {
            assert(whole[i] == tail[i - bar - 1] && whole[i - 1] == tail[i - bar - 2]);
        }
    }
    assert forall|start: int, end: int| #[trigger]
        validate::segment(whole, start, end) implies !validate::dotted(
        whole.subrange(start, end),
    ) by {
        let part = whole.subrange(start, end);
        if start <= bar < end {
            assert(part[bar - start] == '/');
            assert(part.contains('/'));
        } else if end <= bar {
            assert(part =~= head.subrange(start, end));
            assert(start > 0 ==> whole[start - 1] == head[start - 1]);
            assert(end < bar ==> whole[end] == head[end]);
            assert(validate::segment(head, start, end));
        } else {
            let from = start - bar - 1;
            let to = end - bar - 1;
            assert(part =~= tail.subrange(from, to));
            assert(from > 0 ==> whole[start - 1] == tail[from - 1]);
            assert(to < tail.len() ==> whole[end] == tail[to]);
            assert(validate::segment(tail, from, to));
        }
    }
}

/// Whether a part of a configuration obeys its rule.
pub open spec fn part_obeys(
    config: SupportCaseConfig,
    key_accepted: bool,
    part: SupportCaseConfigError,
) -> bool {
    match part {
        SupportCaseConfigError::InvalidSchema => outside::owned_schema_name(config.schema@),
        SupportCaseConfigError::InvalidSecretReference => validate::secret_reference(
            config.database_url_secret@,
        ),
        SupportCaseConfigError::InvalidAuthIssuer => validate::identifier(config.auth_issuer@, 256),
        SupportCaseConfigError::InvalidAuthPublicKey => key_accepted,
        SupportCaseConfigError::InvalidBusinessCallers => validate::caller_list(
            config.business_callers@,
        ),
        SupportCaseConfigError::InvalidIntakeCallers => validate::caller_list(
            config.intake_callers@,
        ),
        SupportCaseConfigError::InvalidResourceCallers => validate::caller_list(
            config.resource_callers@,
        ),
        SupportCaseConfigError::InvalidExportCallers => validate::caller_list(
            config.export_callers@,
        ),
        SupportCaseConfigError::InvalidRetentionCallers => validate::caller_list(
            config.retention_callers@,
        ),
        SupportCaseConfigError::InvalidExportLimit => 1 <= config.max_export_bytes <= 8_388_608,
    }
}

/// The order in which the parts of a configuration are looked at.
pub open spec fn turn_of(part: SupportCaseConfigError) -> int {
    match part {
        SupportCaseConfigError::InvalidSchema => 0,
        SupportCaseConfigError::InvalidSecretReference => 1,
        SupportCaseConfigError::InvalidAuthIssuer => 2,
        SupportCaseConfigError::InvalidAuthPublicKey => 3,
        SupportCaseConfigError::InvalidBusinessCallers => 4,
        SupportCaseConfigError::InvalidIntakeCallers => 5,
        SupportCaseConfigError::InvalidResourceCallers => 6,
        SupportCaseConfigError::InvalidExportCallers => 7,
        SupportCaseConfigError::InvalidRetentionCallers => 8,
        SupportCaseConfigError::InvalidExportLimit => 9,
    }
}

/// A configuration is accepted exactly where each of its parts obeys its rule, and one
/// that is refused is told of the first part that does not.
pub proof fn law_configurations_obey_every_rule(config: SupportCaseConfig, key_accepted: bool)
    ensures
        config::first_violation(config, key_accepted) is None <==> forall|
            part: SupportCaseConfigError,
        | #[trigger]
            part_obeys(config, key_accepted, part),
        config::first_violation(config, key_accepted) matches Some(part) ==> !part_obeys(
            config,
            key_accepted,
            part,
        ) && forall|other: SupportCaseConfigError|
            turn_of(other) < turn_of(part) ==> #[trigger] part_obeys(config, key_accepted, other),
{
    if config::first_violation(config, key_accepted) is Some {
        assert(!part_obeys(config, key_accepted, config::first_violation(config, key_accepted)->0));
    }
}

} // verus!
