//! Rows as the database hands them over, and the records they hold.
//!
//! A cell is `None` where its column could not be read.

use vstd::prelude::*;
use vstd::string::*;

use crate::errors::{StorageError, StorageErrorView};
use crate::model::{CaseRecord, CaseView, MessageRecord, MessageView};
use crate::text;
use crate::text::same_text;

verus! {

/// A row of the table of cases.
#[derive(Debug, Eq, PartialEq)]
pub struct CaseRow {
    pub case_id: Option<u128>,
    pub identifier: Option<String>,
    pub organization_id: Option<String>,
    pub requester_subject: Option<String>,
    pub creator_subject: Option<String>,
    pub title: Option<String>,
    pub description: Option<String>,
    pub priority: Option<String>,
    pub state: Option<String>,
    pub assignee_subject: Option<Option<String>>,
    pub revision: Option<i64>,
    pub created_at: Option<i128>,
    pub updated_at: Option<i128>,
    pub resolved_at: Option<Option<i128>>,
    pub closed_at: Option<Option<i128>>,
}

/// A row of the table of messages. The revision of its case is no column of that
/// table; a query may add it.
#[derive(Debug, Eq, PartialEq)]
pub struct MessageRow {
    pub message_id: Option<u128>,
    pub case_id: Option<u128>,
    pub visibility: Option<String>,
    pub author_subject: Option<String>,
    pub body: Option<String>,
    pub created_at: Option<i128>,
    pub case_revision: Option<i64>,
}

/// The column of a case that fails first, and how.
pub open spec fn case_row_failure(row: CaseRow) -> Option<StorageErrorView> {
    if row.revision is None {
        Some(StorageErrorView::Database("decode case revision"@))
    } else if row.revision->0 <= 0 {
        Some(StorageErrorView::InvalidStoredData("case revision is not positive"@))
    } else if row.case_id is None {
        Some(StorageErrorView::Database("decode case id"@))
    } else if row.identifier is None {
        Some(StorageErrorView::Database("decode case identifier"@))
    } else if row.organization_id is None {
        Some(StorageErrorView::Database("decode case organization"@))
    } else if row.requester_subject is None {
        Some(StorageErrorView::Database("decode case requester"@))
    } else if row.creator_subject is None {
        Some(StorageErrorView::Database("decode case creator"@))
    } else if row.title is None {
        Some(StorageErrorView::Database("decode case title"@))
    } else if row.description is None {
        Some(StorageErrorView::Database("decode case description"@))
    } else if row.priority is None {
        Some(StorageErrorView::Database("decode case priority"@))
    } else if row.state is None {
        Some(StorageErrorView::Database("decode case state"@))
    } else if row.assignee_subject is None {
        Some(StorageErrorView::Database("decode case assignee"@))
    } else if row.created_at is None {
        Some(StorageErrorView::Database("decode case created time"@))
    } else if row.updated_at is None {
        Some(StorageErrorView::Database("decode case updated time"@))
    } else if row.resolved_at is None {
        Some(StorageErrorView::Database("decode case resolved time"@))
    } else if row.closed_at is None {
        Some(StorageErrorView::Database("decode case closed time"@))
    } else {
        None
    }
}

/// What the cells of a case hold.
pub open spec fn case_row_content(row: CaseRow) -> CaseView {
    CaseView {
        case_id: row.case_id->0,
        identifier: (row.identifier->0)@,
        organization_id: (row.organization_id->0)@,
        requester_subject: (row.requester_subject->0)@,
        creator_subject: (row.creator_subject->0)@,
        title: (row.title->0)@,
        description: (row.description->0)@,
        priority: (row.priority->0)@,
        state: (row.state->0)@,
        assignee_subject: text::optional_text(row.assignee_subject->0),
        revision: row.revision->0,
        created_at: row.created_at->0,
        updated_at: row.updated_at->0,
        resolved_at: row.resolved_at->0,
        closed_at: row.closed_at->0,
    }
}

/// The case that a row holds, or the failure of its first bad column.
pub open spec fn case_in(row: CaseRow) -> Result<CaseView, StorageErrorView> {
    match case_row_failure(row) {
        Some(error) => Err(error),
        None => Ok(case_row_content(row)),
    }
}

/// The column of a message that fails first.
pub open spec fn message_row_failure(row: MessageRow) -> Option<StorageErrorView> {
    if row.message_id is None {
        Some(StorageErrorView::Database("decode message id"@))
    } else if row.case_id is None {
        Some(StorageErrorView::Database("decode message case"@))
    } else if row.visibility is None {
        Some(StorageErrorView::Database("decode message visibility"@))
    } else if row.author_subject is None {
        Some(StorageErrorView::Database("decode message author"@))
    } else if row.body is None {
        Some(StorageErrorView::Database("decode message body"@))
    } else if row.created_at is None {
        Some(StorageErrorView::Database("decode message created time"@))
    } else {
        None
    }
}

/// What the cells of a message hold. Without a revision it counts as zero.
pub open spec fn message_row_content(row: MessageRow) -> MessageView {
    MessageView {
        message_id: row.message_id->0,
        case_id: row.case_id->0,
        visibility: (row.visibility->0)@,
        author_subject: (row.author_subject->0)@,
        body: (row.body->0)@,
        created_at: row.created_at->0,
        case_revision: match row.case_revision {
            Some(revision) => revision,
            None => 0,
        },
    }
}

/// The message that a row holds, or the failure of its first bad column.
pub open spec fn message_in(row: MessageRow) -> Result<MessageView, StorageErrorView> {
    match message_row_failure(row) {
        Some(error) => Err(error),
        None => Ok(message_row_content(row)),
    }
}

/// The view of an outcome.
pub open spec fn viewed<T: View, E: View>(outcome: Result<T, E>) -> Result<T::V, E::V> {
    match outcome {
        Ok(value) => Ok(value@),
        Err(error) => Err(error@),
    }
}

/// The value of a cell, or the failure to read its column.
pub fn cell<T>(value: Option<T>, operation: &'static str) -> (result: Result<T, StorageError>)
    ensures
        match value {
            Some(inner) => result == Ok::<T, StorageError>(inner),
            None => result matches Err(error) && error@ == StorageErrorView::Database(operation@),
        },
{
    match value {
        Some(inner) => Ok(inner),
        None => Err(StorageError::Database { operation }),
    }
}

/// Reads a case out of its row.
pub fn decode_case(row: CaseRow) -> (result: Result<CaseRecord, StorageError>)
    ensures
        viewed(result) == case_in(row),
{
    let revision: i64 = cell(row.revision, "decode case revision")?;
    if revision <= 0 {
        return Err(
            StorageError::InvalidStoredData { detail: "case revision is not positive".to_owned() },
        );
    }
    let case_id: u128 = cell(row.case_id, "decode case id")?;
    let identifier = cell(row.identifier, "decode case identifier")?;
    let organization_id = cell(row.organization_id, "decode case organization")?;
    let requester_subject = cell(row.requester_subject, "decode case requester")?;
    let creator_subject = cell(row.creator_subject, "decode case creator")?;
    let title = cell(row.title, "decode case title")?;
    let description = cell(row.description, "decode case description")?;
    let priority = cell(row.priority, "decode case priority")?;
    let state = cell(row.state, "decode case state")?;
    let assignee_subject = cell(row.assignee_subject, "decode case assignee")?;
    let created_at: i128 = cell(row.created_at, "decode case created time")?;
    let updated_at: i128 = cell(row.updated_at, "decode case updated time")?;
    let resolved_at: Option<i128> = cell(row.resolved_at, "decode case resolved time")?;
    let closed_at: Option<i128> = cell(row.closed_at, "decode case closed time")?;
    Ok(
        CaseRecord {
            case_id,
            identifier,
            organization_id,
            requester_subject,
            creator_subject,
            title,
            description,
            priority,
            state,
            assignee_subject,
            revision,
            created_at,
            updated_at,
            resolved_at,
            closed_at,
        },
    )
}

/// Reads a message out of its row.
pub fn decode_message(row: MessageRow) -> (result: Result<MessageRecord, StorageError>)
    ensures
        viewed(result) == message_in(row),
{
    let message_id: u128 = cell(row.message_id, "decode message id")?;
    let case_id: u128 = cell(row.case_id, "decode message case")?;
    let visibility = cell(row.visibility, "decode message visibility")?;
    let author_subject = cell(row.author_subject, "decode message author")?;
    let body = cell(row.body, "decode message body")?;
    let created_at: i128 = cell(row.created_at, "decode message created time")?;
    let case_revision: i64 = match row.case_revision {
        Some(revision) => revision,
        None => 0,
    };
    Ok(
        MessageRecord {
            message_id,
            case_id,
            visibility,
            author_subject,
            body,
            created_at,
            case_revision,
        },
    )
}

/// Whether the subject columns of a row name a subject.
pub open spec fn row_related(row: CaseRow, subject: Seq<char>) -> bool {
    ||| text::optional_text(row.requester_subject) == Some(subject)
    ||| text::optional_text(row.creator_subject) == Some(subject)
    ||| row.assignee_subject matches Some(assignee) && text::optional_text(assignee) == Some(
        subject,
    )
}

fn names(cell: &Option<String>, subject: &str) -> (result: bool)
    ensures
        result == (text::optional_text(*cell) == Some(subject@)),
{
    match cell {
        Some(value) => same_text(value.as_str(), subject),
        None => false,
    }
}

pub fn is_row_related(row: &CaseRow, subject: &str) -> (result: bool)
    ensures
        result == row_related(*row, subject@),
{
    if names(&row.requester_subject, subject) || names(&row.creator_subject, subject) {
        return true;
    }
    match &row.assignee_subject {
        Some(assignee) => names(assignee, subject),
        None => false,
    }
}

} // verus!
