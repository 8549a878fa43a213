//! Privacy: the export of what concerns a subject, and requests for retention.

use vstd::prelude::*;
use vstd::string::*;

use crate::access::allowed_caller;
use crate::cursor;
use crate::cursor::format_time;
use crate::decimal;
use crate::decimal::format_integer;
use crate::errors::{storage_runtime, StorageError, StorageErrorView};
use crate::fault::{CallError, CallErrorView, Fault, FaultView};
use crate::intake;
use crate::model;
use crate::model::{CaseRecord, CaseView, EntryView, MessageRecord, MessageView, PayloadEntry};
use crate::outside;
use crate::outside::format_instant;
use crate::responses;
use crate::retention::{Retention, RetentionView};
use crate::retention_run::{RetentionAnswer, RetentionAnswerView};
use crate::rows;
use crate::rows::{cell, decode_case, decode_message, CaseRow, MessageRow};
use crate::service;
use crate::text;
use crate::text::{same_optional_text, same_text};
use crate::validate;
use crate::validate::{valid_opaque_id, valid_text, MAX_ID_BYTES, MAX_REASON_BYTES};
use crate::wire;
use crate::wire::{request_hash, text_entry};

verus! {

/// The only scope in which Support Case knows subjects.
pub const ORGANIZATION_SCOPE: &'static str = "organization";

/// The capability under which exports are collected.
pub const EXPORT_CAPABILITY: &'static str = "lenso.data-export-source@1";

/// The operation that collects an export.
pub const EXPORT_OPERATION: &'static str = "collect_export";

/// Collects the export of a subject.
#[derive(Debug, Eq, PartialEq)]
pub struct CollectExportRequest {
    pub export_id: String,
    pub scope_id: String,
    pub scope_kind: String,
    pub subject: String,
}

/// Why an export is refused.
#[derive(Clone, Copy, Debug, Eq, PartialEq)]
pub enum CollectExportError {
    Forbidden,
    InvalidRequest,
}

/// What an export is about.
#[derive(Debug, Eq, PartialEq)]
pub struct ExportQuery {
    pub organization_id: String,
    pub subject: String,
}

/// Whether the request obeys its rules.
pub open spec fn export_valid(request: CollectExportRequest) -> bool {
    &&& request.scope_kind@ == ORGANIZATION_SCOPE@
    &&& validate::opaque_id(request.export_id@, MAX_ID_BYTES as nat)
    &&& validate::opaque_id(request.scope_id@, MAX_ID_BYTES as nat)
    &&& validate::opaque_id(request.subject@, MAX_ID_BYTES as nat)
}

/// Admits the request for an export.
pub fn collect_export(allowed: &Vec<String>, caller: Option<&str>, request: CollectExportRequest) -> (result:
    Result<ExportQuery, CollectExportError>)
    ensures
        if !intake::caller_allowed(allowed@, caller) {
            result == Err::<ExportQuery, _>(CollectExportError::Forbidden)
        } else if !export_valid(request) {
            result == Err::<ExportQuery, _>(CollectExportError::InvalidRequest)
        } else {
            result matches Ok(query) && query.organization_id@ == request.scope_id@ && query.subject@
                == request.subject@
        },
{
    if allowed_caller(caller, allowed).is_none() {
        return Err(CollectExportError::Forbidden);
    }
    if !same_text(request.scope_kind.as_str(), ORGANIZATION_SCOPE) || !valid_opaque_id(
        request.export_id.as_str(),
        MAX_ID_BYTES,
    ) || !valid_opaque_id(request.scope_id.as_str(), MAX_ID_BYTES) || !valid_opaque_id(
        request.subject.as_str(),
        MAX_ID_BYTES,
    ) {
        return Err(CollectExportError::InvalidRequest);
    }
    Ok(ExportQuery { organization_id: request.scope_id, subject: request.subject })
}

/// A row of the table of activities. A cell is `None` where its column could not be
/// read.
#[derive(Debug, Eq, PartialEq)]
pub struct ActivityRow {
    pub activity_id: Option<u128>,
    pub case_id: Option<u128>,
    pub kind: Option<String>,
    pub actor_subject: Option<String>,
    pub case_revision: Option<i64>,
    pub payload: Option<Vec<PayloadEntry>>,
    pub created_at: Option<i128>,
}

/// An activity as it is exported.
#[derive(Debug, Eq, PartialEq)]
pub struct ExportedActivity {
    pub activity_id: u128,
    pub case_id: u128,
    pub kind: String,
    pub actor_subject: String,
    pub case_revision: String,
    pub payload: Vec<PayloadEntry>,
    pub created_at: String,
}

/// The view of an exported activity.
#[verifier::ext_equal]
pub struct ExportedActivityView {
    pub activity_id: u128,
    pub case_id: u128,
    pub kind: Seq<char>,
    pub actor_subject: Seq<char>,
    pub case_revision: Seq<char>,
    pub payload: Seq<EntryView>,
    pub created_at: Seq<char>,
}

impl View for ExportedActivity {
    type V = ExportedActivityView;

    open spec fn view(&self) -> ExportedActivityView {
        ExportedActivityView {
            activity_id: self.activity_id,
            case_id: self.case_id,
            kind: self.kind@,
            actor_subject: self.actor_subject@,
            case_revision: self.case_revision@,
            payload: model::entries_view(self.payload@),
            created_at: self.created_at@,
        }
    }
}

/// Everything that an export of a subject tells.
#[derive(Debug, Eq, PartialEq)]
pub struct ExportDocument {
    pub subject: String,
    pub organization_id: String,
    pub cases: Vec<CaseRecord>,
    pub authored_messages: Vec<MessageRecord>,
    pub actor_activity: Vec<ExportedActivity>,
}

/// The view of an export.
#[verifier::ext_equal]
pub struct ExportView {
    pub subject: Seq<char>,
    pub organization_id: Seq<char>,
    pub cases: Seq<CaseView>,
    pub authored_messages: Seq<MessageView>,
    pub actor_activity: Seq<ExportedActivityView>,
}

impl View for ExportDocument {
    type V = ExportView;

    open spec fn view(&self) -> ExportView {
        ExportView {
            subject: self.subject@,
            organization_id: self.organization_id@,
            cases: self.cases@.map_values(|record: CaseRecord| record@),
            authored_messages: self.authored_messages@.map_values(|record: MessageRecord| record@),
            actor_activity: self.actor_activity@.map_values(|record: ExportedActivity| record@),
        }
    }
}

/// What is exported of a case.
pub open spec fn exported_case(row: CaseRow) -> Result<CaseView, StorageErrorView> {
    match rows::case_in(row) {
        Err(error) => Err(error),
        Ok(case) => if responses::times_written(case) {
            Ok(case)
        } else {
            Err(StorageErrorView::Serialization)
        },
    }
}

/// What is exported of a message. It tells no revision.
pub open spec fn exported_message(row: MessageRow) -> Result<MessageView, StorageErrorView> {
    match rows::message_in(row) {
        Err(error) => Err(error),
        Ok(message) => if outside::written_instant(message.created_at as int) {
            Ok(MessageView { case_revision: 0, ..message })
        } else {
            Err(StorageErrorView::Serialization)
        },
    }
}

/// Whether a member of a payload may be told to a subject: an assignee only where
/// it is the subject.
pub open spec fn disclosed(entry: EntryView, subject: Seq<char>) -> bool {
    entry.key == "assignee_subject"@ ==> entry.value == Some(subject)
}

/// The column of an activity that fails first.
pub open spec fn activity_row_failure(row: ActivityRow) -> Option<StorageErrorView> {
    if row.payload is None {
        Some(StorageErrorView::Database("decode export activity payload"@))
    } else if row.activity_id is None {
        Some(StorageErrorView::Database("decode export activity id"@))
    } else if row.case_id is None {
        Some(StorageErrorView::Database("decode export activity case"@))
    } else if row.kind is None {
        Some(StorageErrorView::Database("decode export activity kind"@))
    } else if row.actor_subject is None {
        Some(StorageErrorView::Database("decode export activity actor"@))
    } else if row.case_revision is None {
        Some(StorageErrorView::Database("decode export activity revision"@))
    } else if row.created_at is None {
        Some(StorageErrorView::Database("decode export activity time"@))
    } else if !outside::written_instant(row.created_at->0 as int) {
        Some(StorageErrorView::InvalidStoredData(cursor::unwritten_instant_text()))
    } else {
        None
    }
}

/// What is exported of an activity.
pub open spec fn exported_activity(row: ActivityRow, subject: Seq<char>) -> Result<
    ExportedActivityView,
    StorageErrorView,
> {
    match activity_row_failure(row) {
        Some(error) => Err(error),
        None => Ok(
            ExportedActivityView {
                activity_id: row.activity_id->0,
                case_id: row.case_id->0,
                kind: (row.kind->0)@,
                actor_subject: (row.actor_subject->0)@,
                case_revision: decimal::integer_text(row.case_revision->0 as int),
                payload: model::entries_view((row.payload->0)@).filter(
                    |entry: EntryView| disclosed(entry, subject),
                ),
                created_at: outside::rfc3339_text(row.created_at->0 as int),
            },
        ),
    }
}

/// What is exported of cases, or the failure of the first bad row.
pub open spec fn exported_cases_in(rows: Seq<CaseRow>) -> Result<Seq<CaseView>, StorageErrorView>
    decreases rows.len(),
{
    if rows.len() == 0 {
        Ok(Seq::empty())
    } else {
        match exported_cases_in(rows.drop_last()) {
            Err(error) => Err(error),
            Ok(before) => match exported_case(rows.last()) {
                Err(error) => Err(error),
                Ok(record) => Ok(before.push(record)),
            },
        }
    }
}

proof fn lemma_exported_cases_failure_stays(rows: Seq<CaseRow>, count: int)
    requires
        0 <= count <= rows.len(),
        exported_cases_in(rows.take(count)) is Err,
    ensures
        exported_cases_in(rows) == exported_cases_in(rows.take(count)),
    decreases rows.len(),
{
    if count == rows.len() {
        assert(rows.take(count) =~= rows);
    } else {
        assert(rows.drop_last().take(count) =~= rows.take(count));
        lemma_exported_cases_failure_stays(rows.drop_last(), count);
    }
}

/// What is exported of messages, or the failure of the first bad row.
pub open spec fn exported_messages_in(rows: Seq<MessageRow>) -> Result<Seq<MessageView>, StorageErrorView>
    decreases rows.len(),
{
    if rows.len() == 0 {
        Ok(Seq::empty())
    } else {
        match exported_messages_in(rows.drop_last()) {
            Err(error) => Err(error),
            Ok(before) => match exported_message(rows.last()) {
                Err(error) => Err(error),
                Ok(record) => Ok(before.push(record)),
            },
        }
    }
}

proof fn lemma_exported_messages_failure_stays(rows: Seq<MessageRow>, count: int)
    requires
        0 <= count <= rows.len(),
        exported_messages_in(rows.take(count)) is Err,
    ensures
        exported_messages_in(rows) == exported_messages_in(rows.take(count)),
    decreases rows.len(),
{
    if count == rows.len() {
        assert(rows.take(count) =~= rows);
    } else {
        assert(rows.drop_last().take(count) =~= rows.take(count));
        lemma_exported_messages_failure_stays(rows.drop_last(), count);
    }
}

/// What is exported of activities, or the failure of the first bad row.
pub open spec fn exported_activities_in(rows: Seq<ActivityRow>, subject: Seq<char>) -> Result<Seq<ExportedActivityView>, StorageErrorView>
    decreases rows.len(),
{
    if rows.len() == 0 {
        Ok(Seq::empty())
    } else {
        match exported_activities_in(rows.drop_last(), subject) {
            Err(error) => Err(error),
            Ok(before) => match exported_activity(rows.last(), subject) {
                Err(error) => Err(error),
                Ok(record) => Ok(before.push(record)),
            },
        }
    }
}

proof fn lemma_exported_activities_failure_stays(rows: Seq<ActivityRow>, count: int, subject: Seq<char>)
    requires
        0 <= count <= rows.len(),
        exported_activities_in(rows.take(count), subject) is Err,
    ensures
        exported_activities_in(rows, subject) == exported_activities_in(rows.take(count), subject),
    decreases rows.len(),
{
    if count == rows.len() {
        assert(rows.take(count) =~= rows);
    } else {
        assert(rows.drop_last().take(count) =~= rows.take(count));
        lemma_exported_activities_failure_stays(rows.drop_last(), count, subject);
    }
}

fn export_case(row: CaseRow) -> (result: Result<CaseRecord, StorageError>)
    ensures
        rows::viewed(result) == exported_case(row),
{
    let record = decode_case(row)?;
    if is_written(record.created_at) && is_written(record.updated_at) && is_optional_written(
        record.resolved_at,
    ) && is_optional_written(record.closed_at) {
        Ok(record)
    } else {
        Err(StorageError::Serialization)
    }
}

fn is_written(instant: i128) -> (result: bool)
    ensures
        result == outside::written_instant(instant as int),
{
    format_instant(instant).is_some()
}

fn is_optional_written(instant: Option<i128>) -> (result: bool)
    ensures
        result == responses::optional_written(instant),
{
    match instant {
        Some(value) => is_written(value),
        None => true,
    }
}

fn export_message(row: MessageRow) -> (result: Result<MessageRecord, StorageError>)
    ensures
        rows::viewed(result) == exported_message(row),
{
    let mut record = decode_message(row)?;
    record.case_revision = 0;
    if is_written(record.created_at) {
        Ok(record)
    } else {
        Err(StorageError::Serialization)
    }
}

fn disclose(payload: Vec<PayloadEntry>, subject: &str) -> (result: Vec<PayloadEntry>)
    ensures
        model::entries_view(result@) == model::entries_view(payload@).filter(
            |entry: EntryView| disclosed(entry, subject@),
        ),
{
    let ghost all = payload@;
    let ghost shown = |entry: EntryView| disclosed(entry, subject@);
    let mut result: Vec<PayloadEntry> = Vec::new();
    proof {
        reveal_with_fuel(Seq::filter, 1);
        assert(model::entries_view(all.take(0)) =~= Seq::empty());
        assert(model::entries_view(result@) =~= model::entries_view(all.take(0)).filter(shown));
    }
    for entry in iter: payload
        invariant
            iter.seq() == all,
            shown == (|entry: EntryView| disclosed(entry, subject@)),
            model::entries_view(result@) == model::entries_view(
                all.take(iter.index() as int),
            ).filter(shown),
    {
        let ghost done = iter.index() as int;
        proof {
            let prefix = model::entries_view(all.take(done + 1));
            assert(prefix.drop_last() =~= model::entries_view(all.take(done)));
            assert(prefix.last() == entry@);
            reveal_with_fuel(Seq::filter, 1);
        }
        let ghost before = model::entries_view(result@);
        if !same_text(entry.key.as_str(), "assignee_subject") || same_optional_text(
            &entry.value,
            subject,
        ) {
            assert(shown(entry@));
            result.push(entry);
            assert(model::entries_view(result@) =~= before.push(entry@));
        } else {
            assert(!shown(entry@));
        }
    }
    assert(all.take(all.len() as int) =~= all);
    result
}

fn export_activity(row: ActivityRow, subject: &str) -> (result: Result<
    ExportedActivity,
    StorageError,
>)
    ensures
        rows::viewed(result) == exported_activity(row, subject@),
{
    let payload = cell(row.payload, "decode export activity payload")?;
    let activity_id: u128 = cell(row.activity_id, "decode export activity id")?;
    let case_id: u128 = cell(row.case_id, "decode export activity case")?;
    let kind = cell(row.kind, "decode export activity kind")?;
    let actor_subject = cell(row.actor_subject, "decode export activity actor")?;
    let case_revision: i64 = cell(row.case_revision, "decode export activity revision")?;
    let instant: i128 = cell(row.created_at, "decode export activity time")?;
    let created_at = format_time(instant)?;
    let payload = disclose(payload, subject);
    Ok(
        ExportedActivity {
            activity_id,
            case_id,
            kind,
            actor_subject,
            case_revision: format_integer(case_revision),
            payload,
            created_at,
        },
    )
}

fn read_exported_cases(rows: Vec<CaseRow>) -> (result: Result<Vec<CaseRecord>, StorageError>)
    ensures
        match result {
            Ok(read) => exported_cases_in(rows@) == Ok::<_, StorageErrorView>(
                read@.map_values(|record: CaseRecord| record@),
            ),
            Err(error) => exported_cases_in(rows@) == Err::<Seq<CaseView>, _>(error@),
        },
{
    let ghost all = rows@;
    let mut read: Vec<CaseRecord> = Vec::new();
    assert(all.take(0) =~= Seq::empty());
    assert(read@.map_values(|record: CaseRecord| record@) =~= Seq::empty());
    for row in iter: rows
        invariant
            iter.seq() == all,
            read@.len() == iter.index(),
            exported_cases_in(all.take(iter.index() as int)) == Ok::<_, StorageErrorView>(
                read@.map_values(|record: CaseRecord| record@),
            ),
    {
        let ghost done = read@.len() as int;
        proof {
            assert(row == all[done]);
            assert(all.take(done + 1).drop_last() =~= all.take(done));
            assert(all.take(done + 1).last() == all[done]);
            if exported_case(row) is Err {
                lemma_exported_cases_failure_stays(all, done + 1);
            }
        }
        let record = export_case(row)?;
        let ghost before = read@.map_values(|record: CaseRecord| record@);
        read.push(record);
        assert(read@.map_values(|record: CaseRecord| record@) =~= before.push(record@));
    }
    assert(all.take(read@.len() as int) =~= all);
    Ok(read)
}

fn read_exported_messages(rows: Vec<MessageRow>) -> (result: Result<Vec<MessageRecord>, StorageError>)
    ensures
        match result {
            Ok(read) => exported_messages_in(rows@) == Ok::<_, StorageErrorView>(
                read@.map_values(|record: MessageRecord| record@),
            ),
            Err(error) => exported_messages_in(rows@) == Err::<Seq<MessageView>, _>(error@),
        },
{
    let ghost all = rows@;
    let mut read: Vec<MessageRecord> = Vec::new();
    assert(all.take(0) =~= Seq::empty());
    assert(read@.map_values(|record: MessageRecord| record@) =~= Seq::empty());
    for row in iter: rows
        invariant
            iter.seq() == all,
            read@.len() == iter.index(),
            exported_messages_in(all.take(iter.index() as int)) == Ok::<_, StorageErrorView>(
                read@.map_values(|record: MessageRecord| record@),
            ),
    {
        let ghost done = read@.len() as int;
        proof {
            assert(row == all[done]);
            assert(all.take(done + 1).drop_last() =~= all.take(done));
            assert(all.take(done + 1).last() == all[done]);
            if exported_message(row) is Err {
                lemma_exported_messages_failure_stays(all, done + 1);
            }
        }
        let record = export_message(row)?;
        let ghost before = read@.map_values(|record: MessageRecord| record@);
        read.push(record);
        assert(read@.map_values(|record: MessageRecord| record@) =~= before.push(record@));
    }
    assert(all.take(read@.len() as int) =~= all);
    Ok(read)
}

fn read_exported_activities(rows: Vec<ActivityRow>, subject: &str) -> (result: Result<Vec<ExportedActivity>, StorageError>)
    ensures
        match result {
            Ok(read) => exported_activities_in(rows@, subject@) == Ok::<_, StorageErrorView>(
                read@.map_values(|record: ExportedActivity| record@),
            ),
            Err(error) => exported_activities_in(rows@, subject@) == Err::<Seq<ExportedActivityView>, _>(error@),
        },
{
    let ghost all = rows@;
    let mut read: Vec<ExportedActivity> = Vec::new();
    assert(all.take(0) =~= Seq::empty());
    assert(read@.map_values(|record: ExportedActivity| record@) =~= Seq::empty());
    for row in iter: rows
        invariant
            iter.seq() == all,
            read@.len() == iter.index(),
            exported_activities_in(all.take(iter.index() as int), subject@) == Ok::<_, StorageErrorView>(
                read@.map_values(|record: ExportedActivity| record@),
            ),
    {
        let ghost done = read@.len() as int;
        proof {
            assert(row == all[done]);
            assert(all.take(done + 1).drop_last() =~= all.take(done));
            assert(all.take(done + 1).last() == all[done]);
            if exported_activity(row, subject@) is Err {
                lemma_exported_activities_failure_stays(all, done + 1, subject@);
            }
        }
        let record = export_activity(row, subject)?;
        let ghost before = read@.map_values(|record: ExportedActivity| record@);
        read.push(record);
        assert(read@.map_values(|record: ExportedActivity| record@) =~= before.push(record@));
    }
    assert(all.take(read@.len() as int) =~= all);
    Ok(read)
}

/// The export that found rows make up, or the first failure. A part is an error
/// where its statement failed.
pub open spec fn export_of(
    organization_id: Seq<char>,
    subject: Seq<char>,
    cases: Result<Vec<CaseRow>, ()>,
    messages: Result<Vec<MessageRow>, ()>,
    activities: Result<Vec<ActivityRow>, ()>,
) -> Result<ExportView, StorageErrorView> {
    match (cases, messages, activities) {
        (Err(()), _, _) => Err(StorageErrorView::Database("export support cases"@)),
        (_, Err(()), _) => Err(StorageErrorView::Database("export support messages"@)),
        (_, _, Err(())) => Err(StorageErrorView::Database("export support activity"@)),
        (Ok(cases), Ok(messages), Ok(activities)) => match exported_cases_in(cases@) {
            Err(error) => Err(error),
            Ok(cases) => match exported_messages_in(messages@) {
                Err(error) => Err(error),
                Ok(authored_messages) => match exported_activities_in(activities@, subject) {
                    Err(error) => Err(error),
                    Ok(actor_activity) => Ok(
                        ExportView {
                            subject,
                            organization_id,
                            cases,
                            authored_messages,
                            actor_activity,
                        },
                    ),
                },
            },
        },
    }
}

/// Makes up the export of a subject from the rows found.
pub fn export_subject(
    query: ExportQuery,
    cases: Result<Vec<CaseRow>, ()>,
    messages: Result<Vec<MessageRow>, ()>,
    activities: Result<Vec<ActivityRow>, ()>,
) -> (result: Result<ExportDocument, StorageError>)
    ensures
        rows::viewed(result) == export_of(
            query.organization_id@,
            query.subject@,
            cases,
            messages,
            activities,
        ),
{
    let (cases, messages, activities) = match (cases, messages, activities) {
        (Err(()), _, _) => {
            return Err(StorageError::Database { operation: "export support cases" });
        },
        (_, Err(()), _) => {
            return Err(StorageError::Database { operation: "export support messages" });
        },
        (_, _, Err(())) => {
            return Err(StorageError::Database { operation: "export support activity" });
        },
        (Ok(cases), Ok(messages), Ok(activities)) => (cases, messages, activities),
    };
    let cases = read_exported_cases(cases)?;
    let authored_messages = read_exported_messages(messages)?;
    let actor_activity = read_exported_activities(activities, query.subject.as_str())?;
    Ok(
        ExportDocument {
            subject: query.subject,
            organization_id: query.organization_id,
            cases,
            authored_messages,
            actor_activity,
        },
    )
}

/// One item of an export.
#[derive(Debug, Eq, PartialEq)]
pub struct ExportItem {
    pub item_name: &'static str,
    pub media_type: &'static str,
    pub payload: String,
}

/// The item that an export consists of, unless it exceeds the limit: an export is
/// never cut short.
pub fn export_item<F>(payload: String, max_export_bytes: usize) -> (result: Result<
    ExportItem,
    CallError<CollectExportError, F>,
>)
    ensures
        if text::byte_length(payload@) > max_export_bytes {
            result matches Err(error) && error@ == CallErrorView::<
                CollectExportError,
                F,
            >::Runtime(FaultView::ResourceExhausted(EXPORT_CAPABILITY@, EXPORT_OPERATION@))
        } else {
            result matches Ok(item) && item.item_name@ == "support-cases.json"@ && item.media_type@
                == "application/json"@ && item.payload == payload
        },
{
    if payload.as_str().as_bytes().len() > max_export_bytes {
        return Err(
            CallError::Runtime(
                Fault::ResourceExhausted {
                    capability: EXPORT_CAPABILITY,
                    operation: EXPORT_OPERATION,
                },
            ),
        );
    }
    Ok(ExportItem { item_name: "support-cases.json", media_type: "application/json", payload })
}

/// How a subject is taken out of the records.
#[derive(Clone, Copy, Debug, Eq, PartialEq)]
pub enum RetentionMode {
    Anonymize,
    Delete,
}

/// The name of a mode.
pub open spec fn mode_name(mode: RetentionMode) -> Seq<char> {
    match mode {
        RetentionMode::Anonymize => "anonymize"@,
        RetentionMode::Delete => "delete"@,
    }
}

pub fn mode_text(mode: RetentionMode) -> (result: &'static str)
    ensures
        result@ == mode_name(mode),
{
    match mode {
        RetentionMode::Anonymize => "anonymize",
        RetentionMode::Delete => "delete",
    }
}

/// Takes a subject out of the records.
#[derive(Debug, Eq, PartialEq)]
pub struct ApplyRetentionRequest {
    pub action_id: String,
    pub mode: RetentionMode,
    pub reason: String,
    pub scope_id: String,
    pub scope_kind: String,
    pub subject: String,
}

/// Why a retention request is refused.
#[derive(Clone, Copy, Debug, Eq, PartialEq)]
pub enum ApplyRetentionError {
    Forbidden,
    InvalidRequest,
}

/// Whether the request obeys its rules.
pub open spec fn retention_valid(request: ApplyRetentionRequest) -> bool {
    &&& request.scope_kind@ == ORGANIZATION_SCOPE@
    &&& validate::opaque_id(request.action_id@, MAX_ID_BYTES as nat)
    &&& validate::opaque_id(request.scope_id@, MAX_ID_BYTES as nat)
    &&& validate::opaque_id(request.subject@, MAX_ID_BYTES as nat)
    &&& validate::plain_text(request.reason@, MAX_REASON_BYTES as nat, true)
}

/// The members of the request's JSON.
pub open spec fn retention_entries(request: ApplyRetentionRequest) -> Seq<EntryView> {
    seq![
        EntryView { key: "action_id"@, value: Some(request.action_id@) },
        EntryView { key: "mode"@, value: Some(mode_name(request.mode)) },
        EntryView { key: "reason"@, value: Some(request.reason@) },
        EntryView { key: "scope_id"@, value: Some(request.scope_id@) },
        EntryView { key: "scope_kind"@, value: Some(request.scope_kind@) },
        EntryView { key: "subject"@, value: Some(request.subject@) },
    ]
}

fn retention_hash(request: &ApplyRetentionRequest) -> (hash: Vec<u8>)
    ensures
        hash@ == wire::fingerprint(retention_entries(*request)),
{
    let mut entries: Vec<PayloadEntry> = Vec::new();
    entries.push(text_entry("action_id", request.action_id.as_str()));
    entries.push(text_entry("mode", mode_text(request.mode)));
    entries.push(text_entry("reason", request.reason.as_str()));
    entries.push(text_entry("scope_id", request.scope_id.as_str()));
    entries.push(text_entry("scope_kind", request.scope_kind.as_str()));
    entries.push(text_entry("subject", request.subject.as_str()));
    assert(model::entries_view(entries@) =~= retention_entries(*request));
    request_hash(&entries)
}

/// Admits the request: it becomes a retention action.
pub fn apply_retention(
    allowed: &Vec<String>,
    caller: Option<&str>,
    request: ApplyRetentionRequest,
) -> (result: Result<Retention, ApplyRetentionError>)
    ensures
        if !intake::caller_allowed(allowed@, caller) {
            result == Err::<Retention, _>(ApplyRetentionError::Forbidden)
        } else if !retention_valid(request) {
            result == Err::<Retention, _>(ApplyRetentionError::InvalidRequest)
        } else {
            result matches Ok(retention) && retention@ == (RetentionView {
                action_id: request.action_id@,
                request_hash: wire::fingerprint(retention_entries(request)),
                organization_id: request.scope_id@,
                subject: request.subject@,
                delete_content: request.mode is Delete,
            })
        },
{
    if allowed_caller(caller, allowed).is_none() {
        return Err(ApplyRetentionError::Forbidden);
    }
    if !same_text(request.scope_kind.as_str(), ORGANIZATION_SCOPE) || !valid_opaque_id(
        request.action_id.as_str(),
        MAX_ID_BYTES,
    ) || !valid_opaque_id(request.scope_id.as_str(), MAX_ID_BYTES) || !valid_opaque_id(
        request.subject.as_str(),
        MAX_ID_BYTES,
    ) || !valid_text(request.reason.as_str(), MAX_REASON_BYTES, true) {
        return Err(ApplyRetentionError::InvalidRequest);
    }
    let request_hash = retention_hash(&request);
    let delete_content = match request.mode {
        RetentionMode::Delete => true,
        RetentionMode::Anonymize => false,
    };
    Ok(
        Retention {
            action_id: request.action_id,
            request_hash,
            organization_id: request.scope_id,
            subject: request.subject,
            delete_content,
        },
    )
}

/// What the retention caller is answered: the receipt, or that the action's
/// identifier was used with another intent.
pub fn applied_retention<F>(outcome: Result<RetentionAnswer, StorageError>) -> (result: Result<
    String,
    CallError<ApplyRetentionError, F>,
>)
    ensures
        match rows::viewed(outcome) {
            Err(error) => result matches Err(fault) && fault@ == service::storage_fault::<
                ApplyRetentionError,
                F,
            >(error),
            Ok(RetentionAnswerView::Refused(_)) => result matches Err(error) && error@
                == CallErrorView::<ApplyRetentionError, F>::Domain(
                ApplyRetentionError::InvalidRequest,
            ),
            Ok(RetentionAnswerView::Applied(receipt)) => result matches Ok(given) && given@
                == receipt,
        },
{
    match outcome {
        Err(error) => Err(CallError::Runtime(storage_runtime(&error))),
        Ok(RetentionAnswer::Refused(_)) => Err(
            CallError::Domain(ApplyRetentionError::InvalidRequest),
        ),
        Ok(RetentionAnswer::Applied(receipt)) => Ok(receipt),
    }
}

} // verus!
