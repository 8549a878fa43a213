//! Reading cases and messages: who sees what, and page by page.

use vstd::prelude::*;
use vstd::string::*;

use crate::cursor;
use crate::cursor::{encode_case_cursor, encode_message_cursor, CaseCursor, MessageCursor};
use crate::errors::{StorageError, StorageErrorView};
use crate::model::{CaseRecord, CaseView, MessageRecord, MessageView};
use crate::outside;
use crate::outside::parse_uuid;
use crate::rows;
use crate::rows::{decode_case, decode_message, is_row_related, CaseRow, MessageRow};
use crate::text;

verus! {

/// By what a case is looked up inside its organization.
#[derive(Debug, Eq, PartialEq)]
pub enum CaseKey {
    Id(u128),
    Identifier(String),
}

/// The view of a lookup key.
#[verifier::ext_equal]
pub enum CaseKeyView {
    Id(u128),
    Identifier(Seq<char>),
}

impl View for CaseKey {
    type V = CaseKeyView;

    open spec fn view(&self) -> CaseKeyView {
        match self {
            CaseKey::Id(id) => CaseKeyView::Id(*id),
            CaseKey::Identifier(identifier) => CaseKeyView::Identifier(identifier@),
        }
    }
}

/// What a reference to a case looks up: a UUID its case, anything else the case
/// with that identifier.
pub open spec fn key_of(case_ref: Seq<char>) -> CaseKeyView {
    match outside::uuid_of(case_ref) {
        Some(id) => CaseKeyView::Id(id),
        None => CaseKeyView::Identifier(case_ref),
    }
}

pub fn case_key(case_ref: &str) -> (key: CaseKey)
    ensures
        key@ == key_of(case_ref@),
{
    match parse_uuid(case_ref) {
        Some(id) => CaseKey::Id(id),
        None => CaseKey::Identifier(case_ref.to_owned()),
    }
}

/// One case to read, for one reader.
#[derive(Debug, Eq, PartialEq)]
pub struct CaseQuery {
    pub organization_id: String,
    pub key: CaseKey,
    pub actor: String,
    pub can_read_all: bool,
}

/// The view of a query for one case.
#[verifier::ext_equal]
pub struct CaseQueryView {
    pub organization_id: Seq<char>,
    pub key: CaseKeyView,
    pub actor: Seq<char>,
    pub can_read_all: bool,
}

impl View for CaseQuery {
    type V = CaseQueryView;

    open spec fn view(&self) -> CaseQueryView {
        CaseQueryView {
            organization_id: self.organization_id@,
            key: self.key@,
            actor: self.actor@,
            can_read_all: self.can_read_all,
        }
    }
}

/// Which cases to list, for one reader.
#[derive(Debug, Eq, PartialEq)]
pub struct CaseFilters {
    pub organization_id: String,
    pub state: Option<&'static str>,
    pub assignee_subject: Option<String>,
    pub requester_subject: Option<String>,
    pub cursor: Option<CaseCursor>,
    pub actor: String,
    pub can_read_all: bool,
    pub limit: i64,
}

/// The view of a list's filters.
#[verifier::ext_equal]
pub struct CaseFiltersView {
    pub organization_id: Seq<char>,
    pub state: Option<Seq<char>>,
    pub assignee_subject: Option<Seq<char>>,
    pub requester_subject: Option<Seq<char>>,
    pub cursor: Option<CaseCursor>,
    pub actor: Seq<char>,
    pub can_read_all: bool,
    pub limit: i64,
}

/// The text of an optional literal.
pub open spec fn optional_literal(value: Option<&'static str>) -> Option<Seq<char>> {
    match value {
        Some(text) => Some(text@),
        None => None,
    }
}

impl View for CaseFilters {
    type V = CaseFiltersView;

    open spec fn view(&self) -> CaseFiltersView {
        CaseFiltersView {
            organization_id: self.organization_id@,
            state: optional_literal(self.state),
            assignee_subject: text::optional_text(self.assignee_subject),
            requester_subject: text::optional_text(self.requester_subject),
            cursor: self.cursor,
            actor: self.actor@,
            can_read_all: self.can_read_all,
            limit: self.limit,
        }
    }
}

/// Which messages of a case to list, for one reader.
#[derive(Debug, Eq, PartialEq)]
pub struct MessageQuery {
    pub organization_id: String,
    pub case_id: u128,
    pub actor: String,
    pub can_read_all: bool,
    pub can_read_internal: bool,
    pub cursor: Option<MessageCursor>,
    pub limit: i64,
}

/// The view of a query for messages.
#[verifier::ext_equal]
pub struct MessageQueryView {
    pub organization_id: Seq<char>,
    pub case_id: u128,
    pub actor: Seq<char>,
    pub can_read_all: bool,
    pub can_read_internal: bool,
    pub cursor: Option<MessageCursor>,
    pub limit: i64,
}

impl View for MessageQuery {
    type V = MessageQueryView;

    open spec fn view(&self) -> MessageQueryView {
        MessageQueryView {
            organization_id: self.organization_id@,
            case_id: self.case_id,
            actor: self.actor@,
            can_read_all: self.can_read_all,
            can_read_internal: self.can_read_internal,
            cursor: self.cursor,
            limit: self.limit,
        }
    }
}

/// The view of an optional case.
pub open spec fn optional_case(case: Option<CaseRecord>) -> Option<CaseView> {
    match case {
        Some(record) => Some(record@),
        None => None,
    }
}

/// The view of the outcome of reading one case.
pub open spec fn read_view(outcome: Result<Option<CaseRecord>, StorageError>) -> Result<
    Option<CaseView>,
    StorageErrorView,
> {
    match outcome {
        Ok(case) => Ok(optional_case(case)),
        Err(error) => Err(error@),
    }
}

/// Whether a reader sees a row: one who may read everything, or a related subject.
pub open spec fn row_visible(row: CaseRow, actor: Seq<char>, can_read_all: bool) -> bool {
    can_read_all || rows::row_related(row, actor)
}

/// What a reader gets of the row that was found, if any. A row that the reader does
/// not see is as good as none.
pub open spec fn case_seen(row: Option<CaseRow>, actor: Seq<char>, can_read_all: bool) -> Result<
    Option<CaseView>,
    StorageErrorView,
> {
    match row {
        Some(row) => if row_visible(row, actor, can_read_all) {
            match rows::case_in(row) {
                Ok(case) => Ok(Some(case)),
                Err(error) => Err(error),
            }
        } else {
            Ok(None)
        },
        None => Ok(None),
    }
}

/// Reads the case that a query found. `found` is an error where the statement failed.
pub fn get_case(query: &CaseQuery, found: Result<Option<CaseRow>, ()>) -> (result: Result<
    Option<CaseRecord>,
    StorageError,
>)
    ensures
        read_view(result) == match found {
            Err(()) => Err(StorageErrorView::Database("get support case"@)),
            Ok(row) => case_seen(row, query@.actor, query.can_read_all),
        },
{
    match found {
        Err(()) => Err(StorageError::Database { operation: "get support case" }),
        Ok(None) => Ok(None),
        Ok(Some(row)) => if query.can_read_all || is_row_related(&row, query.actor.as_str()) {
            Ok(Some(decode_case(row)?))
        } else {
            Ok(None)
        },
    }
}

/// The view of the outcome of listing messages, if the reader sees the case.
pub open spec fn optional_messages_view(
    outcome: Result<Option<Vec<MessageRecord>>, StorageError>,
) -> Result<Option<Seq<MessageView>>, StorageErrorView> {
    match outcome {
        Ok(Some(messages)) => Ok(Some(message_views(messages@))),
        Ok(None) => Ok(None),
        Err(error) => Err(error@),
    }
}

/// The views of cases.
pub open spec fn case_views(cases: Seq<CaseRecord>) -> Seq<CaseView> {
    cases.map_values(|case: CaseRecord| case@)
}

/// The views of messages.
pub open spec fn message_views(messages: Seq<MessageRecord>) -> Seq<MessageView> {
    messages.map_values(|message: MessageRecord| message@)
}

/// The cases that rows hold, or the failure of the first bad row.
pub open spec fn cases_in(rows: Seq<CaseRow>) -> Result<Seq<CaseView>, StorageErrorView>
    decreases rows.len(),
{
    if rows.len() == 0 {
        Ok(Seq::empty())
    } else {
        match cases_in(rows.drop_last()) {
            Err(error) => Err(error),
            Ok(before) => match rows::case_in(rows.last()) {
                Err(error) => Err(error),
                Ok(case) => Ok(before.push(case)),
            },
        }
    }
}

/// The messages that rows hold, or the failure of the first bad row.
pub open spec fn messages_in(rows: Seq<MessageRow>) -> Result<Seq<MessageView>, StorageErrorView>
    decreases rows.len(),
{
    if rows.len() == 0 {
        Ok(Seq::empty())
    } else {
        match messages_in(rows.drop_last()) {
            Err(error) => Err(error),
            Ok(before) => match rows::message_in(rows.last()) {
                Err(error) => Err(error),
                Ok(message) => Ok(before.push(message)),
            },
        }
    }
}

/// A failure among the first rows is the failure of all rows.
proof fn lemma_case_failure_stays(rows: Seq<CaseRow>, count: int)
    requires
        0 <= count <= rows.len(),
        cases_in(rows.take(count)) is Err,
    ensures
        cases_in(rows) == cases_in(rows.take(count)),
    decreases rows.len(),
{
    if count == rows.len() {
        assert(rows.take(count) =~= rows);
    } else {
        assert(rows.drop_last().take(count) =~= rows.take(count));
        lemma_case_failure_stays(rows.drop_last(), count);
    }
}

/// A failure among the first rows is the failure of all rows.
proof fn lemma_message_failure_stays(rows: Seq<MessageRow>, count: int)
    requires
        0 <= count <= rows.len(),
        messages_in(rows.take(count)) is Err,
    ensures
        messages_in(rows) == messages_in(rows.take(count)),
    decreases rows.len(),
{
    if count == rows.len() {
        assert(rows.take(count) =~= rows);
    } else {
        assert(rows.drop_last().take(count) =~= rows.take(count));
        lemma_message_failure_stays(rows.drop_last(), count);
    }
}

/// The view of the outcome of reading cases.
pub open spec fn cases_view(outcome: Result<Vec<CaseRecord>, StorageError>) -> Result<
    Seq<CaseView>,
    StorageErrorView,
> {
    match outcome {
        Ok(cases) => Ok(case_views(cases@)),
        Err(error) => Err(error@),
    }
}

/// The view of the outcome of reading messages.
pub open spec fn messages_view(outcome: Result<Vec<MessageRecord>, StorageError>) -> Result<
    Seq<MessageView>,
    StorageErrorView,
> {
    match outcome {
        Ok(messages) => Ok(message_views(messages@)),
        Err(error) => Err(error@),
    }
}

/// Reads cases out of their rows.
pub fn decode_cases(rows: Vec<CaseRow>) -> (result: Result<Vec<CaseRecord>, StorageError>)
    ensures
        cases_view(result) == cases_in(rows@),
{
    let ghost all = rows@;
    let mut cases: Vec<CaseRecord> = Vec::new();
    assert(all.take(0) =~= Seq::empty());
    assert(case_views(cases@) =~= Seq::empty());
    for row in iter: rows
        invariant
            iter.seq() == all,
            cases@.len() == iter.index(),
            cases_in(all.take(iter.index() as int)) == Ok::<_, StorageErrorView>(case_views(cases@)),
    {
        let ghost done = cases@.len() as int;
        proof {
            assert(row == all[done]);
            assert(all.take(done + 1).drop_last() =~= all.take(done));
            assert(all.take(done + 1).last() == all[done]);
            if rows::case_in(row) is Err {
                lemma_case_failure_stays(all, done + 1);
            }
        }
        let case = decode_case(row)?;
        let ghost earlier = cases@;
        cases.push(case);
        assert(case_views(cases@) =~= case_views(earlier).push(case@));
    }
    assert(all.take(cases@.len() as int) =~= all);
    Ok(cases)
}

/// Reads messages out of their rows.
pub fn decode_messages(rows: Vec<MessageRow>) -> (result: Result<Vec<MessageRecord>, StorageError>)
    ensures
        messages_view(result) == messages_in(rows@),
{
    let ghost all = rows@;
    let mut messages: Vec<MessageRecord> = Vec::new();
    assert(all.take(0) =~= Seq::empty());
    assert(message_views(messages@) =~= Seq::empty());
    for row in iter: rows
        invariant
            iter.seq() == all,
            messages@.len() == iter.index(),
            messages_in(all.take(iter.index() as int)) == Ok::<_, StorageErrorView>(message_views(messages@)),
    {
        let ghost done = messages@.len() as int;
        proof {
            assert(row == all[done]);
            assert(all.take(done + 1).drop_last() =~= all.take(done));
            assert(all.take(done + 1).last() == all[done]);
            if rows::message_in(row) is Err {
                lemma_message_failure_stays(all, done + 1);
            }
        }
        let message = decode_message(row)?;
        let ghost earlier = messages@;
        messages.push(message);
        assert(message_views(messages@) =~= message_views(earlier).push(message@));
    }
    assert(all.take(messages@.len() as int) =~= all);
    Ok(messages)
}

/// Reads the cases that a list found. `found` is an error where the statement failed.
pub fn list_cases(found: Result<Vec<CaseRow>, ()>) -> (result: Result<
    Vec<CaseRecord>,
    StorageError,
>)
    ensures
        cases_view(result) == match found {
            Err(()) => Err(StorageErrorView::Database("list support cases"@)),
            Ok(rows) => cases_in(rows@),
        },
{
    match found {
        Err(()) => Err(StorageError::Database { operation: "list support cases" }),
        Ok(rows) => decode_cases(rows),
    }
}

/// Whether the reader of a list of messages sees their case.
pub fn message_case_visible(query: &MessageQuery, found: Result<Option<CaseRow>, ()>) -> (result:
    Result<bool, StorageError>)
    ensures
        match found {
            Err(()) => result matches Err(error) && error@ == StorageErrorView::Database(
                "authorize message list resource"@,
            ),
            Ok(None) => result == Ok::<bool, StorageError>(false),
            Ok(Some(row)) => result == Ok::<bool, StorageError>(
                row_visible(row, query@.actor, query.can_read_all),
            ),
        },
{
    match found {
        Err(()) => Err(StorageError::Database { operation: "authorize message list resource" }),
        Ok(None) => Ok(false),
        Ok(Some(row)) => Ok(query.can_read_all || is_row_related(&row, query.actor.as_str())),
    }
}

/// Reads the messages that a list found. `found` is an error where the statement
/// failed.
pub fn list_messages(found: Result<Vec<MessageRow>, ()>) -> (result: Result<
    Vec<MessageRecord>,
    StorageError,
>)
    ensures
        messages_view(result) == match found {
            Err(()) => Err(StorageErrorView::Database("list support case messages"@)),
            Ok(rows) => messages_in(rows@),
        },
{
    match found {
        Err(()) => Err(StorageError::Database { operation: "list support case messages" }),
        Ok(rows) => decode_messages(rows),
    }
}

/// The part of the records found that makes up a page: one record too many shows
/// that there is more, and is left out.
pub open spec fn page_of<R>(records: Seq<R>, limit: int) -> Seq<R> {
    if records.len() > limit {
        records.drop_last()
    } else {
        records
    }
}

/// Cuts the cases found down to a page, and gives the cursor of the next page where
/// there is more.
pub fn case_page(records: Vec<CaseRecord>, limit: i64) -> (result: Result<
    (Vec<CaseRecord>, Option<String>),
    StorageError,
>)
    requires
        limit >= 1,
    ensures
        match result {
            Ok((page, next)) => {
                &&& page@ == page_of(records@, limit as int)
                &&& next is Some <==> records@.len() > limit
                &&& next matches Some(text) ==> text@ == cursor::place_text(
                    page@.last().updated_at as int,
                    page@.last().case_id,
                ) && cursor::place_named(text@) == Some(
                    (page@.last().updated_at as int, page@.last().case_id),
                )
            },
            Err(error) => {
                &&& records@.len() > limit
                &&& error@ == StorageErrorView::InvalidStoredData(cursor::unwritten_instant_text())
            },
        },
        result is Err <==> records@.len() > limit && !outside::written_instant(
            page_of(records@, limit as int).last().updated_at as int,
        ),
{
    let mut page = records;
    if (page.len() as u128) <= limit as u128 {
        return Ok((page, None));
    }
    page.pop();
    assert(page@ =~= page_of(records@, limit as int));
    let last: usize = page.len() - 1;
    let next = encode_case_cursor(&page[last])?;
    Ok((page, Some(next)))
}

/// Cuts the messages found down to a page, and gives the cursor of the next page
/// where there is more.
pub fn message_page(records: Vec<MessageRecord>, limit: i64) -> (result: Result<
    (Vec<MessageRecord>, Option<String>),
    StorageError,
>)
    requires
        limit >= 1,
    ensures
        match result {
            Ok((page, next)) => {
                &&& page@ == page_of(records@, limit as int)
                &&& next is Some <==> records@.len() > limit
                &&& next matches Some(text) ==> text@ == cursor::place_text(
                    page@.last().created_at as int,
                    page@.last().message_id,
                ) && cursor::place_named(text@) == Some(
                    (page@.last().created_at as int, page@.last().message_id),
                )
            },
            Err(error) => {
                &&& records@.len() > limit
                &&& error@ == StorageErrorView::InvalidStoredData(cursor::unwritten_instant_text())
            },
        },
        result is Err <==> records@.len() > limit && !outside::written_instant(
            page_of(records@, limit as int).last().created_at as int,
        ),
{
    let mut page = records;
    if (page.len() as u128) <= limit as u128 {
        return Ok((page, None));
    }
    page.pop();
    assert(page@ =~= page_of(records@, limit as int));
    let last: usize = page.len() - 1;
    let next = encode_message_cursor(&page[last])?;
    Ok((page, Some(next)))
}

} // verus!
