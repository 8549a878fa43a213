//! Keyset cursors: the place of the last record of a page, as a text.

use vstd::prelude::*;
use vstd::string::*;

use crate::errors;
use crate::errors::StorageError;
use crate::identifiers;
use crate::model::{CaseRecord, MessageRecord};
use crate::outside;
use crate::outside::{format_instant, format_uuid, parse_instant, parse_uuid};

verus! {

/// The place of a case in a list of cases.
#[derive(Clone, Copy, Debug, Eq, PartialEq)]
pub struct CaseCursor {
    pub updated_at: i128,
    pub case_id: u128,
}

/// The place of a message in a list of messages.
#[derive(Clone, Copy, Debug, Eq, PartialEq)]
pub struct MessageCursor {
    pub created_at: i128,
    pub message_id: u128,
}

/// The text of a place: an instant and an identifier with a bar between them.
pub open spec fn place_text(instant: int, id: u128) -> Seq<char> {
    outside::rfc3339_text(instant) + seq!['|'] + outside::uuid_text(id)
}

/// The place that a text names: what stands before the first bar is an instant,
/// and what stands behind it an identifier.
pub open spec fn place_named(text: Seq<char>) -> Option<(int, u128)> {
    match text.index_of_first('|') {
        Some(bar) => match (
            outside::rfc3339_instant(text.take(bar)),
            outside::uuid_of(text.skip(bar + 1)),
        ) {
            (Some(instant), Some(id)) => Some((instant, id)),
            _ => None,
        },
        None => None,
    }
}

/// What is said of an instant that no text can be given to.
pub open spec fn unwritten_instant_text() -> Seq<char> {
    "timestamp cannot be formatted: The year component cannot be formatted into the requested format."@
}

/// The RFC 3339 text of a stored instant.
pub fn format_time(instant: i128) -> (result: Result<String, StorageError>)
    ensures
        result is Ok <==> outside::written_instant(instant as int),
        result matches Ok(text) ==> {
            &&& text@ == outside::rfc3339_text(instant as int)
            &&& outside::rfc3339_instant(text@) == Some(instant as int)
            &&& !text@.contains('|')
        },
        result matches Err(error) ==> error@ == errors::StorageErrorView::InvalidStoredData(
            unwritten_instant_text(),
        ),
{
    match format_instant(instant) {
        Some(text) => {
            proof {
                if text@.contains('|') {
                    let i = choose|i: int| 0 <= i < text@.len() && text@[i] == '|';
                    assert(text@[i] == '|');
                }
            }
            Ok(text)
        },
        None => Err(
            StorageError::InvalidStoredData {
                detail:
                    "timestamp cannot be formatted: The year component cannot be formatted into the requested format.".to_owned(),
            },
        ),
    }
}

fn encode_place(instant: i128, id: u128) -> (result: Result<String, StorageError>)
    ensures
        result is Ok <==> outside::written_instant(instant as int),
        result matches Ok(text) ==> text@ == place_text(instant as int, id) && place_named(text@)
            == Some((instant as int, id)),
        result matches Err(error) ==> error@ == errors::StorageErrorView::InvalidStoredData(
            unwritten_instant_text(),
        ),
{
    match format_time(instant) {
        Ok(time) => {
            let ghost before = time@;
            let mut text = time;
            text.append("|");
            text.append(format_uuid(id).as_str());
            proof {
                reveal_strlit("|");
                assert("|"@ =~= seq!['|']);
                assert(text@ =~= place_text(instant as int, id));
                let bar = before.len() as int;
                assert(text@[bar] == '|');
                assert forall|i: int| 0 <= i < bar implies text@[i] != '|' by {
                    assert(text@[i] == before[i]);
                    if before[i] == '|' {
                        assert(before.contains('|'));
                    }
                }
                text@.index_of_first_ensures('|');
                assert(text@.contains('|'));
                assert(text@.index_of_first('|') == Some(bar));
                assert(text@.take(bar) =~= before);
                assert(text@.skip(bar + 1) =~= outside::uuid_text(id));
                identifiers::law_uuid_round_trip(id);
            }
            Ok(text)
        },
        Err(error) => Err(error),
    }
}

fn find_bar(value: &str) -> (result: Option<usize>)
    ensures
        match result {
            Some(bar) => value@.index_of_first('|') == Some(bar as int) && bar < value@.len(),
            None => value@.index_of_first('|') is None,
        },
{
    proof {
        value@.index_of_first_ensures('|');
    }
    let length: usize = value.unicode_len();
    let mut index: usize = 0;
    for c in iter: value.chars()
        invariant
            iter.seq() == value@,
            index == iter.index(),
            length == value@.len(),
            forall|i: int| 0 <= i < index ==> #[trigger] value@[i] != '|',
    {
        if c == '|' {
            proof {
                value@.index_of_first_ensures('|');
                assert(value@[index as int] == '|');
                assert(value@.contains('|'));
            }
            return Some(index);
        }
        index += 1;
    }
    None
}

fn decode_place(value: &str) -> (result: Option<(i128, u128)>)
    ensures
        match result {
            Some((instant, id)) => place_named(value@) == Some((instant as int, id)),
            None => place_named(value@) is None,
        },
{
    let bar: usize = match find_bar(value) {
        Some(bar) => bar,
        None => {
            return None;
        },
    };
    let length: usize = value.unicode_len();
    let time = value.substring_char(0, bar);
    let id = value.substring_char(bar + 1, length);
    assert(time@ =~= value@.take(bar as int));
    assert(id@ =~= value@.skip(bar + 1));
    match (parse_instant(time), parse_uuid(id)) {
        (Some(instant), Some(id)) => Some((instant, id)),
        _ => None,
    }
}

/// The cursor that stands at a case. Decoding it gives that place back.
pub fn encode_case_cursor(record: &CaseRecord) -> (result: Result<String, StorageError>)
    ensures
        result is Ok <==> outside::written_instant(record.updated_at as int),
        result matches Ok(text) ==> text@ == place_text(record.updated_at as int, record.case_id)
            && place_named(text@) == Some((record.updated_at as int, record.case_id)),
        result matches Err(error) ==> error@ == errors::StorageErrorView::InvalidStoredData(
            unwritten_instant_text(),
        ),
{
    encode_place(record.updated_at, record.case_id)
}

/// The place that a cursor of a list of cases names.
pub fn decode_case_cursor(value: &str) -> (result: Option<CaseCursor>)
    ensures
        match result {
            Some(cursor) => place_named(value@) == Some((cursor.updated_at as int, cursor.case_id)),
            None => place_named(value@) is None,
        },
{
    match decode_place(value) {
        Some((updated_at, case_id)) => Some(CaseCursor { updated_at, case_id }),
        None => None,
    }
}

/// The cursor that stands at a message. Decoding it gives that place back.
pub fn encode_message_cursor(record: &MessageRecord) -> (result: Result<String, StorageError>)
    ensures
        result is Ok <==> outside::written_instant(record.created_at as int),
        result matches Ok(text) ==> text@ == place_text(record.created_at as int, record.message_id)
            && place_named(text@) == Some((record.created_at as int, record.message_id)),
        result matches Err(error) ==> error@ == errors::StorageErrorView::InvalidStoredData(
            unwritten_instant_text(),
        ),
{
    encode_place(record.created_at, record.message_id)
}

/// The place that a cursor of a list of messages names.
pub fn decode_message_cursor(value: &str) -> (result: Option<MessageCursor>)
    ensures
        match result {
            Some(cursor) => place_named(value@) == Some(
                (cursor.created_at as int, cursor.message_id),
            ),
            None => place_named(value@) is None,
        },
{
    match decode_place(value) {
        Some((created_at, message_id)) => Some(MessageCursor { created_at, message_id }),
        None => None,
    }
}

/// The place from which a list of cases goes on. No cursor is the start of the
/// list; a malformed one is refused.
pub fn parse_optional_case_cursor(value: &Option<String>) -> (result: Result<
    Option<CaseCursor>,
    (),
>)
    ensures
        match value {
            None => result == Ok::<Option<CaseCursor>, ()>(None),
            Some(text) => match result {
                Ok(Some(cursor)) => place_named(text@) == Some(
                    (cursor.updated_at as int, cursor.case_id),
                ),
                Ok(None) => false,
                Err(()) => place_named(text@) is None,
            },
        },
{
    match value {
        Some(text) => match decode_case_cursor(text.as_str()) {
            Some(cursor) => Ok(Some(cursor)),
            None => Err(()),
        },
        None => Ok(None),
    }
}

/// The place from which a list of messages goes on. No cursor is the start of the
/// list; a malformed one is refused.
pub fn parse_optional_message_cursor(value: &Option<String>) -> (result: Result<
    Option<MessageCursor>,
    (),
>)
    ensures
        match value {
            None => result == Ok::<Option<MessageCursor>, ()>(None),
            Some(text) => match result {
                Ok(Some(cursor)) => place_named(text@) == Some(
                    (cursor.created_at as int, cursor.message_id),
                ),
                Ok(None) => false,
                Err(()) => place_named(text@) is None,
            },
        },
{
    match value {
        Some(text) => match decode_message_cursor(text.as_str()) {
            Some(cursor) => Ok(Some(cursor)),
            None => Err(()),
        },
        None => Ok(None),
    }
}

} // verus!
