//! What the library has from other crates.
//!
//! Each function here makes one call into another crate. Its contract is
//! believed, not proved.

use vstd::prelude::*;
use vstd::string::*;

use lenso_auth_sdk::ActorAssertionVerifier;
use lenso_postgres_kit::{PlanError, SchemaPlan};
use sha2::{Digest, Sha256};
use time::format_description::well_known::Rfc3339;
use time::OffsetDateTime;
use uuid::Uuid;

use crate::text;

verus! {

/// The digit that stands for a value below sixteen.
pub open spec fn hex_digit(value: int) -> char {
    if value < 10 {
        ('0' as u32 + value) as char
    } else {
        ('a' as u32 + (value - 10)) as char
    }
}

/// The value of one hexadecimal digit, in lower or upper case.
pub open spec fn hex_digit_value(c: char) -> Option<int> {
    if '0' <= c <= '9' {
        Some(c as u32 - '0' as u32)
    } else if 'a' <= c <= 'f' {
        Some(c as u32 - 'a' as u32 + 10)
    } else if 'A' <= c <= 'F' {
        Some(c as u32 - 'A' as u32 + 10)
    } else {
        None
    }
}

/// The value of a sequence of hexadecimal digits, the most significant first.
pub open spec fn hex_value(digits: Seq<char>) -> Option<int>
    decreases digits.len(),
{
    if digits.len() == 0 {
        Some(0)
    } else {
        match (hex_value(digits.drop_last()), hex_digit_value(digits.last())) {
            (Some(high), Some(low)) => Some(16 * high + low),
            _ => None,
        }
    }
}

/// The last `count` hexadecimal digits of a value, the most significant first.
pub open spec fn hex_digits(value: int, count: nat) -> Seq<char>
    decreases count,
{
    if count == 0 {
        Seq::empty()
    } else {
        hex_digits(value / 16, (count - 1) as nat).push(hex_digit(value % 16))
    }
}

/// The 32 digits of an identifier, without hyphens.
pub open spec fn simple_uuid(id: u128) -> Seq<char> {
    hex_digits(id as int, 32)
}

/// Digits in the five groups of a hyphenated identifier.
pub open spec fn hyphenated(digits: Seq<char>) -> Seq<char> {
    digits.subrange(0, 8) + seq!['-'] + digits.subrange(8, 12) + seq!['-'] + digits.subrange(12, 16)
        + seq!['-'] + digits.subrange(16, 20) + seq!['-'] + digits.subrange(20, 32)
}

/// The canonical text of an identifier.
pub open spec fn uuid_text(id: u128) -> Seq<char> {
    hyphenated(simple_uuid(id))
}

/// The identifier that 32 digits stand for.
pub open spec fn uuid_of_digits(digits: Seq<char>) -> Option<u128> {
    match hex_value(digits) {
        Some(value) => Some(value as u128),
        None => None,
    }
}

/// The identifier that a text in five hyphenated groups stands for.
pub open spec fn uuid_of_groups(text: Seq<char>) -> Option<u128> {
    if text.len() == 36 && text[8] == '-' && text[13] == '-' && text[18] == '-' && text[23] == '-' {
        uuid_of_digits(
            text.subrange(0, 8) + text.subrange(9, 13) + text.subrange(14, 18) + text.subrange(19, 23)
                + text.subrange(24, 36),
        )
    } else {
        None
    }
}

/// A text with its ASCII capitals made small.
pub open spec fn ascii_lower(text: Seq<char>) -> Seq<char> {
    Seq::new(
        text.len(),
        |i: int| if 'A' <= text[i] <= 'Z' { (text[i] as u32 + 32) as char } else { text[i] },
    )
}

/// The identifier that a text stands for: 32 digits, five hyphenated groups, the
/// same in braces, or the same behind `urn:uuid:`.
pub open spec fn uuid_of(text: Seq<char>) -> Option<u128> {
    if text.len() == 32 {
        uuid_of_digits(text)
    } else if text.len() == 36 {
        uuid_of_groups(text)
    } else if text.len() == 38 && text[0] == '{' && text[37] == '}' {
        uuid_of_groups(text.subrange(1, 37))
    } else if text.len() == 45 && ascii_lower(text.subrange(0, 9)) == "urn:uuid:"@ {
        uuid_of_groups(text.subrange(9, 45))
    } else {
        None
    }
}

/// `uuid::Uuid::parse_str`: reads an identifier in any of the four forms of
/// `uuid_of`, and nothing else.
#[verifier::external_body]
pub(crate) fn parse_uuid(text: &str) -> (id: Option<u128>)
    ensures
        id == uuid_of(text@),
{
    Uuid::parse_str(text).ok().map(|id| id.as_u128())
}

/// `uuid::Uuid`'s `Display`: the canonical hyphenated text in small letters.
#[verifier::external_body]
pub(crate) fn format_uuid(id: u128) -> (text: String)
    ensures
        text@ == uuid_text(id),
{
    Uuid::from_u128(id).to_string()
}

/// `uuid::Uuid::simple` with its `Display`: the 32 digits in small letters.
#[verifier::external_body]
pub(crate) fn format_simple_uuid(id: u128) -> (text: String)
    ensures
        text@ == simple_uuid(id),
{
    Uuid::from_u128(id).simple().to_string()
}

/// Whether an identifier carries version four and the RFC variant.
pub open spec fn random_form(id: u128) -> bool {
    &&& (id as int / 0x1000_0000_0000_0000_0000) % 16 == 4
    &&& (id as int / 0x4000_0000_0000_0000) % 4 == 2
}

/// `uuid::Uuid::new_v4`: a random identifier. Of every outcome it is known only
/// that it carries version four and the RFC variant; two calls may differ.
#[verifier::external_body]
pub(crate) fn random_uuid() -> (id: u128)
    ensures
        random_form(id),
{
    Uuid::new_v4().as_u128()
}

/// The first instant of the year 0000, in nanoseconds since the Unix epoch.
pub open spec fn first_written_instant() -> int {
    -62_167_219_200_000_000_000
}

/// The first instant after the year 9999.
pub open spec fn after_written_instants() -> int {
    253_402_300_800_000_000_000
}

/// Whether an instant lies in the years that RFC 3339 can write.
pub open spec fn written_instant(instant: int) -> bool {
    first_written_instant() <= instant < after_written_instants()
}

/// The RFC 3339 text, in UTC, of an instant in nanoseconds since the Unix epoch.
pub uninterp spec fn rfc3339_text(instant: int) -> Seq<char>;

/// The instant that an RFC 3339 text names, if it is one.
pub uninterp spec fn rfc3339_instant(text: Seq<char>) -> Option<int>;

/// `time::OffsetDateTime::format` with `Rfc3339`, in UTC: writes every instant of
/// the years 0000 to 9999 and refuses the others. The text holds only digits and
/// `-`, `T`, `:`, `.`, `Z`, and reading it gives the instant back.
#[verifier::external_body]
pub(crate) fn format_instant(instant: i128) -> (text: Option<String>)
    ensures
        text is Some <==> written_instant(instant as int),
        text matches Some(written) ==> {
            &&& written@ == rfc3339_text(instant as int)
            &&& rfc3339_instant(written@) == Some(instant as int)
            &&& forall|i: int|
                0 <= i < written@.len() ==> {
                    let c = #[trigger] written@[i];
                    text::ascii_digit(c) || c == '-' || c == 'T' || c == ':' || c == '.' || c == 'Z'
                }
        },
{
    OffsetDateTime::from_unix_timestamp_nanos(instant).ok()?.format(&Rfc3339).ok()
}

/// `time::OffsetDateTime::parse` with `Rfc3339`: the instant that the text names,
/// as `rfc3339_instant` calls it. Which texts it takes is left to that crate.
#[verifier::external_body]
pub(crate) fn parse_instant(text: &str) -> (instant: Option<i128>)
    ensures
        (match instant {
            Some(value) => Some(value as int),
            None => None,
        }) == rfc3339_instant(text@),
{
    OffsetDateTime::parse(text, &Rfc3339).ok().map(|moment| moment.unix_timestamp_nanos())
}

/// The SHA-256 digest of a byte string.
pub uninterp spec fn sha256(bytes: Seq<u8>) -> Seq<u8>;

/// `sha2::Sha256::digest`: the 32 bytes of the digest.
#[verifier::external_body]
pub(crate) fn digest(bytes: &[u8]) -> (hash: Vec<u8>)
    ensures
        hash@ == sha256(bytes@),
        hash@.len() == 32,
{
    Sha256::digest(bytes).to_vec()
}

/// Whether a text is the URL-safe base64 of an Ed25519 public key.
pub uninterp spec fn verification_key(text: Seq<char>) -> bool;

/// `lenso_auth_sdk::ActorAssertionVerifier::from_public_key_base64`: whether the
/// key is accepted. The issuer is carried along and has no part in the decision.
#[verifier::external_body]
pub(crate) fn accepts_verification_key(issuer: &str, public_key: &str) -> (accepted: bool)
    ensures
        accepted == verification_key(public_key@),
{
    ActorAssertionVerifier::from_public_key_base64(issuer, public_key).is_ok()
}

/// A schema name that one plugin may own: up to 63 small letters, digits and
/// underscores, starting with a letter, and none of PostgreSQL's own names.
pub open spec fn owned_schema_name(name: Seq<char>) -> bool {
    &&& 0 < name.len() <= 63
    &&& 'a' <= name[0] <= 'z'
    &&& forall|i: int|
        0 <= i < name.len() ==> {
            let c = #[trigger] name[i];
            'a' <= c <= 'z' || text::ascii_digit(c) || c == '_'
        }
    &&& name != "public"@
    &&& name != "information_schema"@
    &&& !("pg_"@.is_prefix_of(name))
}

/// `lenso_postgres_kit::SchemaPlan::new`, asked about the name alone: it refuses a
/// name with `InvalidSchemaName` before it looks at the migrations.
#[verifier::external_body]
pub(crate) fn accepts_schema_name(schema: &str) -> (accepted: bool)
    ensures
        accepted == owned_schema_name(schema@),
{
    match SchemaPlan::new(schema, &[]) {
        Err(PlanError::InvalidSchemaName { .. }) => false,
        _ => true,
    }
}

/// How a JSON string writes one character.
pub open spec fn json_escape(c: char) -> Seq<char> {
    if c == '"' {
        seq!['\\', '"']
    } else if c == '\\' {
        seq!['\\', '\\']
    } else if c as u32 == 0x08 {
        seq!['\\', 'b']
    } else if c as u32 == 0x09 {
        seq!['\\', 't']
    } else if c as u32 == 0x0a {
        seq!['\\', 'n']
    } else if c as u32 == 0x0c {
        seq!['\\', 'f']
    } else if c as u32 == 0x0d {
        seq!['\\', 'r']
    } else if (c as u32) < 0x20 {
        seq!['\\', 'u', '0', '0', hex_digit(c as int / 16), hex_digit(c as int % 16)]
    } else {
        seq![c]
    }
}

/// The characters between the quotes of a JSON string.
pub open spec fn json_escaped(text: Seq<char>) -> Seq<char>
    decreases text.len(),
{
    if text.len() == 0 {
        Seq::empty()
    } else {
        json_escape(text[0]) + json_escaped(text.skip(1))
    }
}

/// A text as a JSON string.
pub open spec fn json_string(text: Seq<char>) -> Seq<char> {
    seq!['"'] + json_escaped(text) + seq!['"']
}

/// `serde_json::Value`'s `Display` on a string: the JSON string of the text.
#[verifier::external_body]
pub(crate) fn format_json_string(text: &str) -> (json: String)
    ensures
        json@ == json_string(text@),
{
    serde_json::Value::from(text).to_string()
}

/// A JSON text read and written again without spaces, if it is JSON.
pub uninterp spec fn compact_json(text: Seq<char>) -> Option<Seq<char>>;

/// `serde_json::from_str` into a `Value`, and its `Display`: the same JSON without
/// spaces, or nothing where the text is not JSON.
#[verifier::external_body]
pub(crate) fn compact(text: &str) -> (json: Option<String>)
    ensures
        text::optional_text(json) == compact_json(text@),
{
    serde_json::from_str::<serde_json::Value>(text).ok().map(|value| value.to_string())
}

} // verus!
