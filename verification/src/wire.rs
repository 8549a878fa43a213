//! Requests as JSON objects of texts, and their fingerprints.

use vstd::prelude::*;
use vstd::string::*;
use vstd::utf8::*;

use crate::model;
use crate::model::{EntryView, PayloadEntry};
use crate::outside;
use crate::outside::{digest, format_json_string};
use crate::text;

verus! {

/// The JSON of an optional text.
pub open spec fn json_value(value: Option<Seq<char>>) -> Seq<char> {
    match value {
        Some(text) => outside::json_string(text),
        None => "null"@,
    }
}

/// One member of a JSON object.
pub open spec fn json_member(entry: EntryView) -> Seq<char> {
    outside::json_string(entry.key) + seq![':'] + json_value(entry.value)
}

/// The members of a JSON object, with commas between them.
pub open spec fn json_members(entries: Seq<EntryView>) -> Seq<char>
    decreases entries.len(),
{
    if entries.len() == 0 {
        Seq::empty()
    } else if entries.len() == 1 {
        json_member(entries[0])
    } else {
        json_member(entries[0]) + seq![','] + json_members(entries.skip(1))
    }
}

/// A JSON object without spaces.
pub open spec fn json_object(entries: Seq<EntryView>) -> Seq<char> {
    seq!['{'] + json_members(entries) + seq!['}']
}

/// The fingerprint of a request: the SHA-256 digest of its JSON.
pub open spec fn fingerprint(entries: Seq<EntryView>) -> Seq<u8> {
    outside::sha256(encode_utf8(json_object(entries)))
}

fn append_member(out: &mut String, entry: &PayloadEntry)
    ensures
        final(out)@ == old(out)@ + json_member(entry@),
{
    out.append(format_json_string(entry.key.as_str()).as_str());
    out.append(":");
    match &entry.value {
        Some(value) => {
            out.append(format_json_string(value.as_str()).as_str());
        },
        None => {
            out.append("null");
        },
    }
    proof {
        reveal_strlit(":");
        assert(":"@ =~= seq![':']);
        assert(out@ =~= old(out)@ + json_member(entry@));
    }
}

fn append_members(out: &mut String, entries: &Vec<PayloadEntry>, from: usize)
    requires
        from <= entries@.len(),
    ensures
        final(out)@ == old(out)@ + json_members(model::entries_view(entries@.skip(from as int))),
    decreases entries@.len() - from,
{
    let ghost rest = model::entries_view(entries@.skip(from as int));
    if from == entries.len() {
        assert(out@ =~= old(out)@ + json_members(rest));
        return;
    }
    append_member(out, &entries[from]);
    assert(rest[0] == entries@[from as int]@);
    if from + 1 < entries.len() {
        out.append(",");
        append_members(out, entries, from + 1);
        proof {
            reveal_strlit(",");
            assert(","@ =~= seq![',']);
            assert(rest.skip(1) =~= model::entries_view(entries@.skip(from + 1)));
        }
    }
    assert(out@ =~= old(out)@ + json_members(rest));
}

/// The JSON object of a list of members.
pub fn object_text(entries: &Vec<PayloadEntry>) -> (out: String)
    ensures
        out@ == json_object(model::entries_view(entries@)),
{
    let mut out = "{".to_owned();
    append_members(&mut out, entries, 0);
    out.append("}");
    proof {
        reveal_strlit("{");
        reveal_strlit("}");
        assert("{"@ =~= seq!['{']);
        assert("}"@ =~= seq!['}']);
        assert(entries@.skip(0) =~= entries@);
    }
    out
}

/// The fingerprint of a request.
pub fn request_hash(entries: &Vec<PayloadEntry>) -> (hash: Vec<u8>)
    ensures
        hash@ == fingerprint(model::entries_view(entries@)),
        hash@.len() == 32,
{
    let out = object_text(entries);
    digest(out.as_str().as_bytes())
}

/// A member that holds a text.
pub fn text_entry(key: &str, value: &str) -> (result: PayloadEntry)
    ensures
        result@ == (EntryView { key: key@, value: Some(value@) }),
{
    PayloadEntry { key: key.to_owned(), value: Some(value.to_owned()) }
}

/// A member that may hold a text.
pub fn optional_entry(key: &str, value: &Option<String>) -> (result: PayloadEntry)
    ensures
        result@ == (EntryView { key: key@, value: text::optional_text(*value) }),
{
    PayloadEntry { key: key.to_owned(), value: value.clone() }
}

proof fn lemma_hex_digits_differ(left: int, right: int)
    requires
        0 <= left < 16,
        0 <= right < 16,
        outside::hex_digit(left) == outside::hex_digit(right),
    ensures
        left == right,
{
}

/// How a character is written tells it apart, whatever follows.
proof fn lemma_escape_is_prefix_free(
    left: char,
    left_rest: Seq<char>,
    right: char,
    right_rest: Seq<char>,
)
    requires
        outside::json_escape(left) + left_rest == outside::json_escape(right) + right_rest,
    ensures
        left == right,
        left_rest == right_rest,
{
    let a = outside::json_escape(left);
    let b = outside::json_escape(right);
    let whole = a + left_rest;
    assert(whole == b + right_rest);
    assert(whole[0] == a[0] && whole[0] == b[0]);
    if a.len() > 1 {
        assert(whole[1] == a[1]);
    }
    if b.len() > 1 {
        assert(whole[1] == b[1]);
    }
    if a.len() == 6 && b.len() == 6 {
        assert(whole[4] == a[4] && whole[4] == b[4] && whole[5] == a[5] && whole[5] == b[5]);
        lemma_hex_digits_differ(left as int / 16, right as int / 16);
        lemma_hex_digits_differ(left as int % 16, right as int % 16);
        assert(left as int == 16 * (left as int / 16) + left as int % 16);
        assert(right as int == 16 * (right as int / 16) + right as int % 16);
    }
    assert(left == right);
    assert(left_rest =~= whole.skip(a.len() as int));
    assert(right_rest =~= whole.skip(b.len() as int));
}

proof fn lemma_escaped_is_prefix_free(
    left: Seq<char>,
    left_rest: Seq<char>,
    right: Seq<char>,
    right_rest: Seq<char>,
)
    requires
        outside::json_escaped(left) + seq!['"'] + left_rest == outside::json_escaped(right) + seq![
            '"',
        ] + right_rest,
    ensures
        left == right,
        left_rest == right_rest,
    decreases left.len(),
{
    let whole = outside::json_escaped(left) + seq!['"'] + left_rest;
    let other = outside::json_escaped(right) + seq!['"'] + right_rest;
    if left.len() == 0 || right.len() == 0 {
        if left.len() > 0 {
            assert(whole[0] == outside::json_escape(left[0])[0]);
            assert(other[0] == '"');
        }
        if right.len() > 0 {
            assert(other[0] == outside::json_escape(right[0])[0]);
            assert(whole[0] == '"');
        }
        assert(left =~= right);
        assert(whole.skip(1) =~= left_rest);
        assert(other.skip(1) =~= right_rest);
    } else {
        let left_tail = outside::json_escaped(left.skip(1)) + seq!['"'] + left_rest;
        let right_tail = outside::json_escaped(right.skip(1)) + seq!['"'] + right_rest;
        assert(whole =~= outside::json_escape(left[0]) + left_tail);
        assert(other =~= outside::json_escape(right[0]) + right_tail);
        lemma_escape_is_prefix_free(left[0], left_tail, right[0], right_tail);
        lemma_escaped_is_prefix_free(left.skip(1), left_rest, right.skip(1), right_rest);
        assert(left =~= seq![left[0]] + left.skip(1));
        assert(right =~= seq![right[0]] + right.skip(1));
    }
}

/// A JSON value tells its text apart, whatever follows.
proof fn lemma_value_is_prefix_free(
    left: Option<Seq<char>>,
    left_rest: Seq<char>,
    right: Option<Seq<char>>,
    right_rest: Seq<char>,
)
    requires
        json_value(left) + left_rest == json_value(right) + right_rest,
    ensures
        left == right,
        left_rest == right_rest,
{
    reveal_strlit("null");
    let whole = json_value(left) + left_rest;
    let other = json_value(right) + right_rest;
    assert(whole[0] == json_value(left)[0]);
    assert(other[0] == json_value(right)[0]);
    match (left, right) {
        (Some(a), Some(b)) => {
            assert(whole.skip(1) =~= outside::json_escaped(a) + seq!['"'] + left_rest);
            assert(other.skip(1) =~= outside::json_escaped(b) + seq!['"'] + right_rest);
            lemma_escaped_is_prefix_free(a, left_rest, b, right_rest);
        },
        (None, None) => {
            assert(whole.skip(4) =~= left_rest);
            assert(other.skip(4) =~= right_rest);
        },
        (Some(a), None) => {
            assert(whole[0] == '"');
            assert(other[0] == 'n');
        },
        (None, Some(b)) => {
            assert(whole[0] == 'n');
            assert(other[0] == '"');
        },
    }
}

proof fn lemma_members_are_injective(left: Seq<EntryView>, right: Seq<EntryView>, rest: Seq<char>)
    requires
        left.len() == right.len(),
        json_members(left) + rest == json_members(right) + rest,
    ensures
        left == right,
    decreases left.len(),
{
    if left.len() == 0 {
        assert(left =~= right);
    } else {
        let left_tail = if left.len() == 1 {
            rest
        } else {
            seq![','] + json_members(left.skip(1)) + rest
        };
        let right_tail = if right.len() == 1 {
            rest
        } else {
            seq![','] + json_members(right.skip(1)) + rest
        };
        let whole = json_members(left) + rest;
        let other = json_members(right) + rest;
        let left_value = seq![':'] + json_value(left[0].value) + left_tail;
        let right_value = seq![':'] + json_value(right[0].value) + right_tail;
        assert(whole =~= json_value(Some(left[0].key)) + left_value);
        assert(other =~= json_value(Some(right[0].key)) + right_value);
        lemma_value_is_prefix_free(Some(left[0].key), left_value, Some(right[0].key), right_value);
        assert(left_value.skip(1) =~= json_value(left[0].value) + left_tail);
        assert(right_value.skip(1) =~= json_value(right[0].value) + right_tail);
        lemma_value_is_prefix_free(left[0].value, left_tail, right[0].value, right_tail);
        assert(left[0] == right[0]);
        if left.len() > 1 {
            assert(left_tail.skip(1) =~= json_members(left.skip(1)) + rest);
            assert(right_tail.skip(1) =~= json_members(right.skip(1)) + rest);
            lemma_members_are_injective(left.skip(1), right.skip(1), rest);
        } else {
            assert(left.skip(1) =~= right.skip(1));
        }
        assert(left =~= seq![left[0]] + left.skip(1));
        assert(right =~= seq![right[0]] + right.skip(1));
    }
}

/// Two requests with the same number of members have the same JSON only where they
/// are the same: no two payloads are mistaken for each other before they are hashed.
pub proof fn law_json_tells_requests_apart(left: Seq<EntryView>, right: Seq<EntryView>)
    requires
        left.len() == right.len(),
        json_object(left) == json_object(right),
    ensures
        left == right,
{
    assert(json_object(left).skip(1) =~= json_members(left) + seq!['}']);
    assert(json_object(right).skip(1) =~= json_members(right) + seq!['}']);
    lemma_members_are_injective(left, right, seq!['}']);
}

/// An object is written as JSON without spaces: its members in their order between
/// braces, with commas between them, each a string, a colon, and a string or null.
pub proof fn law_objects_are_written_as_json(
    key: Seq<char>,
    value: Seq<char>,
    entries: Seq<EntryView>,
)
    ensures
        json_object(Seq::empty()) == "{}"@,
        json_object(seq![EntryView { key, value: Some(value) }]) == "{"@ + outside::json_string(key)
            + ":"@ + outside::json_string(value) + "}"@,
        json_object(seq![EntryView { key, value: None }]) == "{"@ + outside::json_string(key)
            + ":null}"@,
        entries.len() > 1 ==> json_members(entries) == json_members(entries.take(1)) + ","@
            + json_members(entries.skip(1)),
{
    reveal_strlit("{}");
    reveal_strlit("{");
    reveal_strlit(":");
    reveal_strlit("}");
    reveal_strlit(",");
    reveal_strlit("null");
    reveal_strlit(":null}");
    let one = seq![EntryView { key, value: Some(value) }];
    let none = seq![EntryView { key, value: None }];
    assert(json_object(Seq::empty()) =~= "{}"@);
    assert(json_members(one) == json_member(one[0]));
    assert(json_members(none) == json_member(none[0]));
    assert(json_object(one) =~= "{"@ + outside::json_string(key) + ":"@ + outside::json_string(
        value,
    ) + "}"@);
    assert(json_object(none) =~= "{"@ + outside::json_string(key) + ":null}"@);
    if entries.len() > 1 {
        assert(entries.take(1)[0] == entries[0]);
        assert(json_members(entries.take(1)) == json_member(entries[0]));
        assert(","@ =~= seq![',']);
    }
}

} // verus!
