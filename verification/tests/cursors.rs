use support_case::cursor::{
    decode_case_cursor, decode_message_cursor, encode_case_cursor, encode_message_cursor,
    format_time, parse_optional_case_cursor, parse_optional_message_cursor,
};
use support_case::errors::StorageError;
use support_case::model::{CaseRecord, MessageRecord};
use support_case::reads::{case_page, message_page};
use support_case::service::list_cases;
use time::OffsetDateTime;
use uuid::Uuid;

fn record(case_id: u128, updated_at: i128) -> CaseRecord {
    CaseRecord {
        case_id,
        identifier: "SUP-1".to_owned(),
        organization_id: "org_1".to_owned(),
        requester_subject: "usr_1".to_owned(),
        creator_subject: "usr_1".to_owned(),
        title: "x".to_owned(),
        description: String::new(),
        priority: "normal".to_owned(),
        state: "open".to_owned(),
        assignee_subject: None,
        revision: 1,
        created_at: updated_at,
        updated_at,
        resolved_at: None,
        closed_at: None,
    }
}

fn message(message_id: u128, created_at: i128) -> MessageRecord {
    MessageRecord {
        message_id,
        case_id: 7,
        visibility: "public".to_owned(),
        author_subject: "usr_1".to_owned(),
        body: "x".to_owned(),
        created_at,
        case_revision: 0,
    }
}

#[test]
fn cursors_are_round_trip_and_malformed_values_fail_closed() {
    let record = record(
        Uuid::new_v4().as_u128(),
        OffsetDateTime::now_utc().unix_timestamp_nanos(),
    );
    let encoded = encode_case_cursor(&record).unwrap();
    let decoded = decode_case_cursor(&encoded).unwrap();
    assert_eq!(decoded.case_id, record.case_id);
    assert_eq!(decoded.updated_at, record.updated_at);
    assert!(decode_case_cursor("not-a-cursor").is_none());
}

#[test]
fn cursors_name_an_instant_and_an_identifier() {
    let id = 0x936d_a01f_9abd_4d9d_80c7_02af_85c8_22a8;
    assert_eq!(
        encode_case_cursor(&record(id, 0)).unwrap(),
        "1970-01-01T00:00:00Z|936da01f-9abd-4d9d-80c7-02af85c822a8"
    );
    assert_eq!(
        encode_message_cursor(&message(id, 1_500_000_000)).unwrap(),
        "1970-01-01T00:00:01.5Z|936da01f-9abd-4d9d-80c7-02af85c822a8"
    );
    let decoded =
        decode_message_cursor("1970-01-01T00:00:01.5Z|936da01f-9abd-4d9d-80c7-02af85c822a8")
            .unwrap();
    assert_eq!(decoded.created_at, 1_500_000_000);
    assert_eq!(decoded.message_id, id);
}

#[test]
fn malformed_cursors_are_refused() {
    for text in [
        "",
        "|",
        "1970-01-01T00:00:00Z",
        "1970-01-01T00:00:00Z|",
        "|936da01f-9abd-4d9d-80c7-02af85c822a8",
        "1970-13-01T00:00:00Z|936da01f-9abd-4d9d-80c7-02af85c822a8",
        "1970-01-01T00:00:00Z|936da01f-9abd-4d9d-80c7-02af85c822a8|",
        "1970-01-01T00:00:00Z|nope",
    ] {
        assert!(decode_case_cursor(text).is_none(), "{text}");
        assert!(decode_message_cursor(text).is_none(), "{text}");
        assert_eq!(parse_optional_case_cursor(&Some(text.to_owned())), Err(()));
        assert_eq!(parse_optional_message_cursor(&Some(text.to_owned())), Err(()));
    }
    assert_eq!(parse_optional_case_cursor(&None), Ok(None));
    assert_eq!(parse_optional_message_cursor(&None), Ok(None));
}

#[test]
fn instants_outside_the_written_years_have_no_text() {
    let first = -62_167_219_200_000_000_000;
    let last = 253_402_300_799_999_999_999;
    assert_eq!(format_time(first).unwrap(), "0000-01-01T00:00:00Z");
    assert_eq!(format_time(last).unwrap(), "9999-12-31T23:59:59.999999999Z");
    for instant in [first - 1, last + 1, i128::MIN, i128::MAX] {
        assert_eq!(
            format_time(instant),
            Err(StorageError::InvalidStoredData {
                detail: "timestamp cannot be formatted: The year component cannot be formatted into the requested format."
                    .to_owned()
            })
        );
    }
}

#[test]
fn a_page_ends_with_a_cursor_only_where_there_is_more() {
    let records = vec![record(3, 30), record(2, 20), record(1, 10)];
    let (page, next) = case_page(records, 2).unwrap();
    assert_eq!(page.len(), 2);
    let cursor = decode_case_cursor(&next.unwrap()).unwrap();
    assert_eq!((cursor.updated_at, cursor.case_id), (20, 2));

    let (page, next) = case_page(vec![record(1, 10)], 2).unwrap();
    assert_eq!((page.len(), next), (1, None));

    let (page, next) = message_page(vec![message(1, 10), message(2, 20)], 2).unwrap();
    assert_eq!((page.len(), next), (2, None));
    let (page, next) = message_page(vec![message(1, 10), message(2, 20)], 1).unwrap();
    assert_eq!(page.len(), 1);
    assert_eq!(decode_message_cursor(&next.unwrap()).unwrap().message_id, 1);

    assert!(case_page(vec![record(2, i128::MAX), record(1, 10)], 1).is_err());
}

/// Following the cursors gives every record once.
#[test]
fn pages_make_up_the_list() {
    let mut stored: Vec<CaseRecord> = (0..23)
        .map(|i| record(u128::from(i % 5_u32) * 100 + u128::from(i), i128::from(i / 4) * 1_000))
        .collect();
    stored.sort_by(|a, b| (b.updated_at, b.case_id).cmp(&(a.updated_at, a.case_id)));
    let mut seen = Vec::new();
    let mut cursor = None;
    loop {
        let found: Vec<CaseRecord> = stored
            .iter()
            .filter(|case| match cursor {
                None => true,
                Some((at, id)) => (case.updated_at, case.case_id) < (at, id),
            })
            .take(6)
            .cloned()
            .collect();
        let (page, next) = case_page(found, 5).unwrap();
        seen.extend(page);
        match next {
            None => break,
            Some(text) => {
                let place = decode_case_cursor(&text).unwrap();
                cursor = Some((place.updated_at, place.case_id));
            }
        }
    }
    assert_eq!(seen, stored);
}

#[test]
fn pages_of_different_sizes_make_up_the_list() {
    let all: Vec<(i128, u128)> = (0..11).map(|n| (n / 3, 100 + n as u128)).collect();
    let mut seen: Vec<(i128, u128)> = Vec::new();
    let mut cursor: Option<String> = None;
    for limit in [1, 4, 2, 1, 50] {
        let place = parse_optional_message_cursor(&cursor)
            .unwrap()
            .map(|cursor| (cursor.created_at, cursor.message_id));
        let found: Vec<MessageRecord> = all
            .iter()
            .filter(|entry| place.map_or(true, |place| place < **entry))
            .take(limit as usize + 1)
            .map(|entry| message(entry.1, entry.0))
            .collect();
        let (page, next) = message_page(found, limit).unwrap();
        seen.extend(page.iter().map(|entry| (entry.created_at, entry.message_id)));
        cursor = next;
    }
    assert_eq!(cursor, None);
    assert_eq!(seen, all);
}

#[test]
fn listed_pages_hold_every_case_once() {
    let all: Vec<(i128, u128)> = (0..9).rev().map(|n| (n / 2, 100 + n as u128)).collect();
    let mut seen: Vec<String> = Vec::new();
    let mut cursor: Option<String> = None;
    for limit in [3, 1, 4, 200] {
        let place = parse_optional_case_cursor(&cursor)
            .unwrap()
            .map(|cursor| (cursor.updated_at, cursor.case_id));
        let found: Vec<CaseRecord> = all
            .iter()
            .filter(|entry| place.map_or(true, |place| **entry < place))
            .take(limit as usize + 1)
            .map(|entry| record(entry.1, entry.0))
            .collect();
        let answer = list_cases::<()>(limit, Ok(found)).unwrap();
        seen.extend(answer.cases.into_iter().map(|case| case.case_id));
        cursor = answer.next_cursor;
    }
    assert_eq!(cursor, None);
    let expected: Vec<String> =
        all.iter().map(|entry| Uuid::from_u128(entry.1).to_string()).collect();
    assert_eq!(seen, expected);
}
