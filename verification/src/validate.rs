//! The rules that request and configuration values obey.

use vstd::prelude::*;
use vstd::string::*;
use vstd::utf8::*;

use crate::decimal;
use crate::decimal::parse_positive;
use crate::outside;
use crate::outside::parse_uuid;
use crate::text;
use crate::text::{is_control, is_digit_byte, is_white_space, same_text};

verus! {

pub const MAX_CALLERS: usize = 64;
pub const MAX_ID_BYTES: usize = 512;
pub const MAX_TITLE_BYTES: usize = 300;
pub const MAX_DESCRIPTION_BYTES: usize = 50_000;
pub const MAX_MESSAGE_BYTES: usize = 100_000;
pub const MAX_REASON_BYTES: usize = 2_000;
pub const MAX_IDEMPOTENCY_BYTES: usize = 200;
pub const MAX_IDENTIFIER_BYTES: usize = 256;

/// A character that an opaque identifier may hold.
pub open spec fn opaque_char(c: char) -> bool {
    text::ascii_alphanumeric(c) || c == '.' || c == '_' || c == '-' || c == ':' || c == '/'
}

/// An opaque identifier: between one and `maximum` characters of the opaque alphabet.
pub open spec fn opaque_id(text: Seq<char>, maximum: nat) -> bool {
    &&& 0 < text.len() <= maximum
    &&& forall|i: int| 0 <= i < text.len() ==> opaque_char(#[trigger] text[i])
}

fn is_opaque_byte(byte: u8) -> (result: bool)
    ensures
        result == (byte < 128 && opaque_char(byte as char)),
{
    is_digit_byte(byte) || (97 <= byte && byte <= 122) || (65 <= byte && byte <= 90) || byte == 46
        || byte == 95 || byte == 45 || byte == 58 || byte == 47
}

pub fn valid_opaque_id(value: &str, maximum: usize) -> (result: bool)
    ensures
        result == opaque_id(value@, maximum as nat),
{
    broadcast use is_ascii_spec_bytes;

    if !value.is_ascii() {
        proof {
            if opaque_id(value@, maximum as nat) {
                assert forall|i: int| 0 <= i < value@.len() implies (#[trigger] value@[i]) as u32 <= 127 by {
                    assert(opaque_char(value@[i]));
                }
                assert(is_ascii_chars(value@));
            }
        }
        return false;
    }
    let bytes = value.as_bytes();
    if bytes.len() == 0 || bytes.len() > maximum {
        return false;
    }
    let mut index: usize = 0;
    while index < bytes.len()
        invariant
            index <= bytes@.len(),
            is_ascii_chars(value@),
            bytes@ == Seq::new(value@.len(), |i: int| value@[i] as u8),
            forall|i: int| 0 <= i < index ==> opaque_char(#[trigger] value@[i]),
        decreases bytes@.len() - index,
    {
        assert(bytes@[index as int] == value@[index as int] as u8);
        if !is_opaque_byte(bytes[index]) {
            assert(!opaque_char(value@[index as int]));
            return false;
        }
        index += 1;
    }
    true
}

/// An opaque identifier without a slash.
pub open spec fn identifier(text: Seq<char>, maximum: nat) -> bool {
    opaque_id(text, maximum) && !text.contains('/')
}

/// A text that a person wrote: bounded in bytes, without control codes other than
/// line breaks and tabs, and not blank unless that is allowed.
pub open spec fn plain_text(text: Seq<char>, maximum: nat, allow_empty: bool) -> bool {
    &&& allow_empty || !text::blank(text)
    &&& text::byte_length(text) <= maximum
    &&& forall|i: int|
        0 <= i < text.len() ==> {
            let c = #[trigger] text[i];
            text::control_char(c) ==> c == '\n' || c == '\r' || c == '\t'
        }
}

/// The organization-local identifier of a case: `SUP-` and a number.
pub open spec fn case_identifier(text: Seq<char>) -> bool {
    &&& text.len() > 4
    &&& text.take(4) == "SUP-"@
    &&& decimal::all_digits(text.skip(4))
    &&& text[4] != '0'
}

/// A reference to a case: its UUID or its organization-local identifier.
pub open spec fn case_reference(text: Seq<char>) -> bool {
    outside::uuid_of(text) is Some || case_identifier(text)
}

/// The part of a text between two slashes, or between a slash and an end.
pub open spec fn segment(text: Seq<char>, start: int, end: int) -> bool {
    &&& 0 <= start <= end <= text.len()
    &&& start == 0 || text[start - 1] == '/'
    &&& end == text.len() || text[end] == '/'
    &&& !text.subrange(start, end).contains('/')
}

/// Whether a part of a path is one of the two that walk the tree.
pub open spec fn dotted(part: Seq<char>) -> bool {
    part == seq!['.'] || part == seq!['.', '.']
}

/// The name of a secret: a relative path of non-empty parts, none of them dotted.
pub open spec fn secret_reference(text: Seq<char>) -> bool {
    &&& opaque_id(text, MAX_IDENTIFIER_BYTES as nat)
    &&& text[0] != '/'
    &&& text.last() != '/'
    &&& forall|i: int| 0 < i < text.len() && #[trigger] text[i] == '/' ==> text[i - 1] != '/'
    &&& forall|start: int, end: int| #[trigger]
        segment(text, start, end) ==> !dotted(text.subrange(start, end))
}

/// A list of exact callers: not empty, bounded, and without repetition.
pub open spec fn caller_list(callers: Seq<String>) -> bool {
    &&& 0 < callers.len() <= MAX_CALLERS
    &&& forall|i: int|
        0 <= i < callers.len() ==> identifier(#[trigger] callers[i]@, MAX_IDENTIFIER_BYTES as nat)
    &&& forall|i: int, j: int|
        0 <= i < j < callers.len() ==> #[trigger] callers[i]@ != #[trigger] callers[j]@
}

/// The expected revision of a mutation, where its organization, case, key and
/// revision are all acceptable.
pub open spec fn mutation_revision(
    organization_id: Seq<char>,
    case_id: Seq<char>,
    revision: Seq<char>,
    key: Seq<char>,
) -> Option<i64> {
    if opaque_id(organization_id, MAX_ID_BYTES as nat) && outside::uuid_of(case_id) is Some
        && opaque_id(key, MAX_IDEMPOTENCY_BYTES as nat) {
        decimal::positive_value(revision)
    } else {
        None
    }
}

pub fn valid_idempotency_key(value: &str) -> (result: bool)
    ensures
        result == opaque_id(value@, MAX_IDEMPOTENCY_BYTES as nat),
{
    valid_opaque_id(value, MAX_IDEMPOTENCY_BYTES)
}

/// The bytes of an opaque identifier are its characters.
proof fn lemma_opaque_bytes(text: Seq<char>, maximum: nat)
    requires
        opaque_id(text, maximum),
    ensures
        encode_utf8(text) == Seq::new(text.len(), |i: int| text[i] as u8),
        forall|i: int| 0 <= i < text.len() ==> (#[trigger] text[i]) as u32 <= 127,
{
    assert forall|i: int| 0 <= i < text.len() implies '\0' <= #[trigger] text[i] <= '\u{7f}' by {
        assert(opaque_char(text[i]));
    }
    assert(is_ascii_chars(text));
    is_ascii_chars_encode_utf8(text);
    assert(encode_utf8(text) =~= Seq::new(text.len(), |i: int| text[i] as u8));
}

pub fn valid_identifier(value: &str, maximum: usize) -> (result: bool)
    ensures
        result == identifier(value@, maximum as nat),
{
    if !valid_opaque_id(value, maximum) {
        return false;
    }
    proof {
        lemma_opaque_bytes(value@, maximum as nat);
    }
    let bytes = value.as_bytes();
    let mut index: usize = 0;
    while index < bytes.len()
        invariant
            index <= bytes@.len(),
            opaque_id(value@, maximum as nat),
            bytes@ == Seq::new(value@.len(), |i: int| value@[i] as u8),
            forall|i: int| 0 <= i < value@.len() ==> (#[trigger] value@[i]) as u32 <= 127,
            forall|i: int| 0 <= i < index ==> #[trigger] value@[i] != '/',
        decreases bytes@.len() - index,
    {
        assert(bytes@[index as int] == value@[index as int] as u8);
        if bytes[index] == 47 {
            assert(value@[index as int] == '/');
            return false;
        }
        index += 1;
    }
    true
}

pub fn valid_text(value: &str, maximum: usize, allow_empty: bool) -> (result: bool)
    ensures
        result == plain_text(value@, maximum as nat, allow_empty),
{
    if value.as_bytes().len() > maximum {
        return false;
    }
    let mut all_blank = true;
    let mut all_plain = true;
    for c in iter: value.chars()
        invariant
            iter.seq() == value@,
            all_blank == (forall|i: int|
                0 <= i < iter.index() ==> text::white_space(#[trigger] value@[i])),
            all_plain == (forall|i: int|
                0 <= i < iter.index() ==> {
                    let c = #[trigger] value@[i];
                    text::control_char(c) ==> c == '\n' || c == '\r' || c == '\t'
                }),
    {
        if !is_white_space(c) {
            all_blank = false;
        }
        if is_control(c) && c != '\n' && c != '\r' && c != '\t' {
            all_plain = false;
        }
    }
    (allow_empty || !all_blank) && all_plain
}

fn is_case_identifier(value: &str) -> (result: bool)
    ensures
        result == case_identifier(value@),
{
    broadcast use is_ascii_spec_bytes;

    proof {
        reveal_strlit("SUP-");
    }
    if !value.is_ascii() {
        proof {
            if case_identifier(value@) {
                assert forall|i: int| 0 <= i < value@.len() implies '\0' <= #[trigger] value@[i]
                    <= '\u{7f}' by {
                    if i < 4 {
                        assert(value@[i] == value@.take(4)[i]);
                    } else {
                        assert(text::ascii_digit(value@.skip(4)[i - 4]));
                    }
                }
                assert(is_ascii_chars(value@));
            }
        }
        return false;
    }
    let bytes = value.as_bytes();
    if bytes.len() <= 4 {
        return false;
    }
    proof {
        assert(bytes@[0] == value@[0] as u8 && bytes@[1] == value@[1] as u8 && bytes@[2]
            == value@[2] as u8 && bytes@[3] == value@[3] as u8 && bytes@[4] == value@[4] as u8);
        assert(value@.take(4)[0] == value@[0] && value@.take(4)[1] == value@[1] && value@.take(4)[2]
            == value@[2] && value@.take(4)[3] == value@[3]);
    }
    if bytes[0] != 83 || bytes[1] != 85 || bytes[2] != 80 || bytes[3] != 45 || bytes[4] == 48 {
        return false;
    }
    assert(value@.take(4) =~= "SUP-"@);
    let mut index: usize = 4;
    while index < bytes.len()
        invariant
            4 <= index <= bytes@.len(),
            is_ascii_chars(value@),
            bytes@ == Seq::new(value@.len(), |i: int| value@[i] as u8),
            forall|i: int| 0 <= i < index - 4 ==> text::ascii_digit(#[trigger] value@.skip(4)[i]),
        decreases bytes@.len() - index,
    {
        assert(bytes@[index as int] == value@[index as int] as u8);
        assert(value@.skip(4)[index - 4] == value@[index as int]);
        if !is_digit_byte(bytes[index]) {
            assert(!text::ascii_digit(value@.skip(4)[index - 4]));
            return false;
        }
        index += 1;
    }
    true
}

pub fn valid_case_ref(value: &str) -> (result: bool)
    ensures
        result == case_reference(value@),
{
    parse_uuid(value).is_some() || is_case_identifier(value)
}

pub fn valid_secret_reference(reference: &str) -> (result: bool)
    ensures
        result == secret_reference(reference@),
{
    if !valid_opaque_id(reference, MAX_IDENTIFIER_BYTES) {
        return false;
    }
    let ghost chars = reference@;
    proof {
        lemma_opaque_bytes(chars, MAX_IDENTIFIER_BYTES as nat);
    }
    let bytes = reference.as_bytes();
    let length: usize = bytes.len();
    assert forall|i: int| 0 <= i < chars.len() implies bytes@[i] == #[trigger] chars[i] as u8 by {}
    assert(bytes@[0] == chars[0] as u8 && bytes@[length - 1] == chars[length - 1] as u8);
    if bytes[0] == 47 || bytes[length - 1] == 47 {
        return false;
    }
    let mut start: usize = 0;
    let mut index: usize = 0;
    while index < length
        invariant
            start <= index <= length,
            length == chars.len(),
            length == bytes@.len(),
            chars == reference@,
            opaque_id(chars, MAX_IDENTIFIER_BYTES as nat),
            chars[0] != '/',
            chars.last() != '/',
            forall|i: int| 0 <= i < chars.len() ==> bytes@[i] == (#[trigger] chars[i]) as u8,
            forall|i: int| 0 <= i < chars.len() ==> (#[trigger] chars[i]) as u32 <= 127,
            start == 0 || chars[start - 1] == '/',
            forall|i: int| start <= i < index ==> #[trigger] chars[i] != '/',
            forall|i: int| 0 < i < index && #[trigger] chars[i] == '/' ==> chars[i - 1] != '/',
            forall|from: int, to: int| #[trigger]
                segment(chars, from, to) && to < start ==> !dotted(chars.subrange(from, to)),
        decreases length - index,
    {
        assert(bytes@[index as int] == chars[index as int] as u8);
        if bytes[index] == 47 {
            assert(chars[index as int] == '/');
            if index == start {
                assert(chars[index - 1] == '/');
                return false;
            }
            proof {
                lemma_segment_here(chars, start as int, index as int);
                lemma_dotted(chars.subrange(start as int, index as int));
                assert(bytes@[start as int] == chars[start as int] as u8);
                assert(bytes@[index - 1] == chars[index - 1] as u8);
            }
            if is_dotted(bytes, start, index) {
                return false;
            }
            proof {
                lemma_one_segment(chars, start as int, index as int);
            }
            start = index + 1;
        }
        index += 1;
    }
    proof {
        if start == length {
            assert(chars[start - 1] == '/');
        }
        lemma_segment_here(chars, start as int, length as int);
        lemma_dotted(chars.subrange(start as int, length as int));
        assert(bytes@[start as int] == chars[start as int] as u8);
    }
    if is_dotted(bytes, start, length) {
        return false;
    }
    proof {
        lemma_one_segment(chars, start as int, length as int);
        assert forall|from: int, to: int| #[trigger] segment(chars, from, to) implies !dotted(
            chars.subrange(from, to),
        ) by {
            if to >= start {
                assert(from == start && to == length);
            }
        }
    }
    true
}

proof fn lemma_segment_here(chars: Seq<char>, start: int, end: int)
    requires
        0 <= start <= end <= chars.len(),
        start == 0 || chars[start - 1] == '/',
        end == chars.len() || chars[end] == '/',
        forall|i: int| start <= i < end ==> #[trigger] chars[i] != '/',
    ensures
        segment(chars, start, end),
{
    let part = chars.subrange(start, end);
    if part.contains('/') {
        let i = choose|i: int| 0 <= i < part.len() && part[i] == '/';
        assert(chars[start + i] == '/');
    }
}

/// A segment that ends at or behind the start of another, and not behind its end,
/// is that segment.
proof fn lemma_one_segment(chars: Seq<char>, start: int, end: int)
    requires
        segment(chars, start, end),
    ensures
        forall|from: int, to: int| #[trigger]
            segment(chars, from, to) && start <= to <= end ==> from == start && to == end,
{
    assert forall|from: int, to: int| #[trigger] segment(chars, from, to) && start <= to <= end implies from
        == start && to == end by {
        let part = chars.subrange(start, end);
        let other = chars.subrange(from, to);
        if to < end {
            assert(part[to - start] == chars[to]);
            assert(part.contains('/'));
        }
        if from < start {
            assert(other[start - 1 - from] == chars[start - 1]);
            assert(other.contains('/'));
        }
        if from > start {
            assert(part[from - 1 - start] == chars[from - 1]);
            assert(part.contains('/'));
        }
    }
}

proof fn lemma_dotted(part: Seq<char>)
    ensures
        dotted(part) == ((part.len() == 1 || part.len() == 2) && part[0] == '.' && part.last() == '.'),
{
    if part.len() == 1 && part[0] == '.' {
        assert(part =~= seq!['.']);
    }
    if part.len() == 2 && part[0] == '.' && part.last() == '.' {
        assert(part =~= seq!['.', '.']);
    }
    assert(seq!['.', '.'].last() == '.' && seq!['.'].last() == '.');
}

fn is_dotted(bytes: &[u8], start: usize, end: usize) -> (result: bool)
    requires
        start < end <= bytes@.len(),
    ensures
        result == (end - start <= 2 && bytes@[start as int] == 46 && bytes@[end - 1] == 46),
{
    end - start <= 2 && bytes[start] == 46 && bytes[end - 1] == 46
}

pub fn validate_callers(callers: &Vec<String>) -> (result: Result<(), ()>)
    ensures
        result is Ok <==> caller_list(callers@),
{
    if callers.len() == 0 || callers.len() > MAX_CALLERS {
        return Err(());
    }
    let mut index: usize = 0;
    while index < callers.len()
        invariant
            index <= callers@.len(),
            forall|i: int|
                0 <= i < index ==> identifier(#[trigger] callers@[i]@, MAX_IDENTIFIER_BYTES as nat),
            forall|i: int, j: int|
                0 <= i < j < index ==> #[trigger] callers@[i]@ != #[trigger] callers@[j]@,
        decreases callers@.len() - index,
    {
        if !valid_identifier(callers[index].as_str(), MAX_IDENTIFIER_BYTES) {
            return Err(());
        }
        let mut earlier: usize = 0;
        while earlier < index
            invariant
                earlier <= index < callers@.len(),
                forall|i: int|
                    0 <= i < earlier ==> #[trigger] callers@[i]@ != callers@[index as int]@,
            decreases index - earlier,
        {
            if same_text(callers[earlier].as_str(), callers[index].as_str()) {
                assert(callers@[earlier as int]@ == callers@[index as int]@);
                return Err(());
            }
            earlier += 1;
        }
        index += 1;
    }
    Ok(())
}

pub fn parse_mutation_request(
    organization_id: &str,
    case_id: &str,
    revision: &str,
    key: &str,
) -> (result: Option<i64>)
    ensures
        result == mutation_revision(organization_id@, case_id@, revision@, key@),
{
    if !valid_opaque_id(organization_id, MAX_ID_BYTES) || parse_uuid(case_id).is_none()
        || !valid_idempotency_key(key) {
        return None;
    }
    parse_positive(revision)
}

} // verus!
