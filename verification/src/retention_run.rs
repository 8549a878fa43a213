//! How a retention action runs inside one database transaction.

use vstd::prelude::*;
use vstd::string::*;

use crate::errors::{StorageError, StorageErrorView};
use crate::model::{
    ActivityRecord, ActivityView, DomainFailure, PayloadEntry, RetentionReceipt,
    RetentionReceiptView,
};
use crate::outside;
use crate::outside::{format_simple_uuid, random_uuid};
use crate::retention;
use crate::retention::{
    retain_activity, retain_case, retain_message, retain_response, RetainedActivity,
    RetainedActivityView, RetainedCase, RetainedCaseView, RetainedMessage, RetainedMessageView,
    RetainedReceipt, RetainedReceiptView, Retention, RetentionView,
};
use crate::rows;
use crate::rows::cell;
use crate::text;
use crate::text::{copy_bytes, same_bytes};

verus! {

/// A row of the table of retention receipts.
#[derive(Debug, Eq, PartialEq)]
pub struct RetentionRow {
    pub request_hash: Option<Vec<u8>>,
    pub receipt: Option<String>,
}

/// A locked case that concerns the subject. Its identifier and revision are cells.
#[derive(Debug, Eq, PartialEq)]
pub struct ConcernedCase {
    pub case_id: Option<u128>,
    pub revision: Option<i64>,
    pub requester_subject: String,
    pub creator_subject: String,
    pub assignee_subject: Option<String>,
    pub title: String,
    pub description: String,
}

/// Everything stored in an organization that names the subject: the cases it is
/// related to or wrote in, the receipts and activities that name it, its messages.
#[derive(Debug, Eq, PartialEq)]
pub struct Findings {
    pub cases: Vec<ConcernedCase>,
    pub receipts: Vec<RetainedReceipt>,
    pub messages: Vec<RetainedMessage>,
    pub activities: Vec<RetainedActivity>,
    pub now: i128,
}

/// What a retention action writes.
#[derive(Debug, Eq, PartialEq)]
pub struct RetentionPlan {
    pub receipts: Vec<RetainedReceipt>,
    pub messages: Vec<RetainedMessage>,
    pub cases: Vec<RetainedCase>,
    pub activities: Vec<RetainedActivity>,
    pub history: Vec<ActivityRecord>,
    pub receipt: RetentionReceipt,
    pub now: i128,
}

/// The view of what a retention action writes.
#[verifier::ext_equal]
pub struct RetentionPlanView {
    pub receipts: Seq<RetainedReceiptView>,
    pub messages: Seq<RetainedMessageView>,
    pub cases: Seq<RetainedCaseView>,
    pub activities: Seq<RetainedActivityView>,
    pub history: Seq<ActivityView>,
    pub receipt: RetentionReceiptView,
    pub now: i128,
}

impl View for RetentionPlan {
    type V = RetentionPlanView;

    open spec fn view(&self) -> RetentionPlanView {
        RetentionPlanView {
            receipts: self.receipts@.map_values(|receipt: RetainedReceipt| receipt@),
            messages: self.messages@.map_values(|message: RetainedMessage| message@),
            cases: self.cases@.map_values(|case: RetainedCase| case@),
            activities: self.activities@.map_values(|activity: RetainedActivity| activity@),
            history: self.history@.map_values(|activity: ActivityRecord| activity@),
            receipt: self.receipt@,
            now: self.now,
        }
    }
}

/// What the cells of a concerned case hold.
pub open spec fn concerned_content(case: ConcernedCase) -> RetainedCaseView {
    RetainedCaseView {
        case_id: case.case_id->0,
        requester_subject: case.requester_subject@,
        creator_subject: case.creator_subject@,
        assignee_subject: text::optional_text(case.assignee_subject),
        title: case.title@,
        description: case.description@,
        revision: case.revision->0,
    }
}

/// The cell of a concerned case that could not be read.
pub open spec fn unreadable_cell(case: ConcernedCase) -> Option<StorageErrorView> {
    if case.case_id is None {
        Some(StorageErrorView::Database("decode retained case id"@))
    } else if case.revision is None {
        Some(StorageErrorView::Database("decode retained case revision"@))
    } else {
        None
    }
}

/// The first cell among the concerned cases that could not be read.
pub open spec fn first_unreadable(cases: Seq<ConcernedCase>) -> Option<StorageErrorView>
    decreases cases.len(),
{
    if cases.len() == 0 {
        None
    } else {
        match first_unreadable(cases.drop_last()) {
            Some(error) => Some(error),
            None => unreadable_cell(cases.last()),
        }
    }
}

/// Whether some case has no next revision.
pub open spec fn revision_exhausted(cases: Seq<ConcernedCase>) -> bool {
    exists|i: int| 0 <= i < cases.len() && #[trigger] cases[i].revision == Some(i64::MAX)
}

/// What a retention action writes: every record found, without the subject; an
/// entry in the history of every concerned case; and the receipt.
pub open spec fn retention_plan(
    retention: RetentionView,
    findings: Findings,
    anonymized: Seq<char>,
    drawn: Seq<u128>,
) -> RetentionPlanView {
    let subject = retention.subject;
    let delete = retention.delete_content;
    RetentionPlanView {
        receipts: findings.receipts@.map_values(
            |receipt: RetainedReceipt|
                RetainedReceiptView {
                    response: retention::sanitized_response(
                        receipt@.response,
                        subject,
                        anonymized,
                        delete,
                    ),
                    ..receipt@
                },
        ),
        messages: findings.messages@.map_values(
            |message: RetainedMessage|
                retention::unauthored(message@, subject, anonymized, delete),
        ),
        cases: findings.cases@.map_values(
            |case: ConcernedCase|
                retention::without_subject(concerned_content(case), subject, anonymized, delete),
        ),
        activities: findings.activities@.map_values(
            |activity: RetainedActivity|
                retention::unattributed(activity@, subject, anonymized, delete),
        ),
        history: Seq::new(
            findings.cases@.len(),
            |i: int|
                retention::retention_activity(
                    retention,
                    findings.cases@[i].case_id->0,
                    (findings.cases@[i].revision->0 + 1) as i64,
                    drawn[i],
                    findings.now,
                ),
        ),
        receipt: retention::retention_receipt(retention, anonymized),
        now: findings.now,
    }
}

/// What becomes of a retention action once everything is found.
pub open spec fn retention_decision(
    retention: RetentionView,
    findings: Findings,
    anonymized: Seq<char>,
    drawn: Seq<u128>,
) -> Result<RetentionPlanView, StorageErrorView> {
    if revision_exhausted(findings.cases@) {
        Err(StorageErrorView::Database("anonymize support cases"@))
    } else {
        match first_unreadable(findings.cases@) {
            Some(error) => Err(error),
            None => Ok(retention_plan(retention, findings, anonymized, drawn)),
        }
    }
}

fn retain_receipts(
    receipts: &Vec<RetainedReceipt>,
    retention: &Retention,
    anonymized: &String,
) -> (result: Vec<RetainedReceipt>)
    ensures
        result@.len() == receipts@.len(),
        forall|i: int|
            0 <= i < receipts@.len() ==> (#[trigger] result@[i])@ == (RetainedReceiptView {
                response: retention::sanitized_response(
                    receipts@[i]@.response,
                    retention.subject@,
                    anonymized@,
                    retention.delete_content,
                ),
                ..receipts@[i]@
            }),
{
    let mut result: Vec<RetainedReceipt> = Vec::new();
    let mut index: usize = 0;
    while index < receipts.len()
        invariant
            index <= receipts@.len(),
            result@.len() == index,
            forall|i: int|
                0 <= i < index ==> (#[trigger] result@[i])@ == (RetainedReceiptView {
                    response: retention::sanitized_response(
                        receipts@[i]@.response,
                        retention.subject@,
                        anonymized@,
                        retention.delete_content,
                    ),
                    ..receipts@[i]@
                }),
        decreases receipts@.len() - index,
    {
        let receipt = &receipts[index];
        result.push(
            RetainedReceipt {
                caller_instance: receipt.caller_instance.clone(),
                idempotency_key: receipt.idempotency_key.clone(),
                response: retain_response(
                    &receipt.response,
                    retention.subject.as_str(),
                    anonymized,
                    retention.delete_content,
                ),
            },
        );
        index += 1;
    }
    result
}

fn retain_messages(
    messages: &Vec<RetainedMessage>,
    retention: &Retention,
    anonymized: &String,
) -> (result: Vec<RetainedMessage>)
    ensures
        result@.len() == messages@.len(),
        forall|i: int|
            0 <= i < messages@.len() ==> (#[trigger] result@[i])@ == retention::unauthored(
                messages@[i]@,
                retention.subject@,
                anonymized@,
                retention.delete_content,
            ),
{
    let mut result: Vec<RetainedMessage> = Vec::new();
    let mut index: usize = 0;
    while index < messages.len()
        invariant
            index <= messages@.len(),
            result@.len() == index,
            forall|i: int|
                0 <= i < index ==> (#[trigger] result@[i])@ == retention::unauthored(
                    messages@[i]@,
                    retention.subject@,
                    anonymized@,
                    retention.delete_content,
                ),
        decreases messages@.len() - index,
    {
        result.push(
            retain_message(
                &messages[index],
                retention.subject.as_str(),
                anonymized,
                retention.delete_content,
            ),
        );
        index += 1;
    }
    result
}

fn retain_activities(
    activities: &Vec<RetainedActivity>,
    retention: &Retention,
    anonymized: &String,
) -> (result: Vec<RetainedActivity>)
    ensures
        result@.len() == activities@.len(),
        forall|i: int|
            0 <= i < activities@.len() ==> (#[trigger] result@[i])@ == retention::unattributed(
                activities@[i]@,
                retention.subject@,
                anonymized@,
                retention.delete_content,
            ),
{
    let mut result: Vec<RetainedActivity> = Vec::new();
    let mut index: usize = 0;
    while index < activities.len()
        invariant
            index <= activities@.len(),
            result@.len() == index,
            forall|i: int|
                0 <= i < index ==> (#[trigger] result@[i])@ == retention::unattributed(
                    activities@[i]@,
                    retention.subject@,
                    anonymized@,
                    retention.delete_content,
                ),
        decreases activities@.len() - index,
    {
        result.push(
            retain_activity(
                &activities[index],
                retention.subject.as_str(),
                anonymized,
                retention.delete_content,
            ),
        );
        index += 1;
    }
    result
}

fn any_revision_exhausted(cases: &Vec<ConcernedCase>) -> (result: bool)
    ensures
        result == revision_exhausted(cases@),
{
    let mut index: usize = 0;
    while index < cases.len()
        invariant
            index <= cases@.len(),
            forall|i: int| 0 <= i < index ==> #[trigger] cases@[i].revision != Some(i64::MAX),
        decreases cases@.len() - index,
    {
        if let Some(revision) = cases[index].revision {
            if revision == i64::MAX {
                assert(cases@[index as int].revision == Some(i64::MAX));
                return true;
            }
        }
        index += 1;
    }
    false
}

fn read_cases(cases: Vec<ConcernedCase>) -> (result: Result<Vec<RetainedCase>, StorageError>)
    ensures
        match first_unreadable(cases@) {
            Some(error) => result matches Err(found) && found@ == error,
            None => result matches Ok(read) && read@.len() == cases@.len() && forall|i: int|
                0 <= i < cases@.len() ==> (#[trigger] read@[i])@ == concerned_content(cases@[i])
                    && cases@[i].revision == Some(read@[i].revision) && cases@[i].case_id == Some(
                    read@[i].case_id,
                ),
        },
{
    let mut read: Vec<RetainedCase> = Vec::new();
    let mut index: usize = 0;
    while index < cases.len()
        invariant
            index <= cases@.len(),
            read@.len() == index,
            first_unreadable(cases@.take(index as int)) is None,
            forall|i: int|
                0 <= i < index ==> (#[trigger] read@[i])@ == concerned_content(cases@[i])
                    && cases@[i].revision == Some(read@[i].revision) && cases@[i].case_id == Some(
                    read@[i].case_id,
                ),
        decreases cases@.len() - index,
    {
        let case = &cases[index];
        proof {
            assert(cases@.take(index + 1).drop_last() =~= cases@.take(index as int));
            if unreadable_cell(*case) is Some {
                lemma_first_unreadable(cases@, index as int);
            }
        }
        let case_id: u128 = cell(case.case_id, "decode retained case id")?;
        let revision: i64 = cell(case.revision, "decode retained case revision")?;
        read.push(
            RetainedCase {
                case_id,
                requester_subject: case.requester_subject.clone(),
                creator_subject: case.creator_subject.clone(),
                assignee_subject: case.assignee_subject.clone(),
                title: case.title.clone(),
                description: case.description.clone(),
                revision,
            },
        );
        index += 1;
    }
    assert(cases@.take(index as int) =~= cases@);
    Ok(read)
}

/// The first case with an unreadable cell decides.
proof fn lemma_first_unreadable(cases: Seq<ConcernedCase>, index: int)
    requires
        0 <= index < cases.len(),
        first_unreadable(cases.take(index)) is None,
        unreadable_cell(cases[index]) is Some,
    ensures
        first_unreadable(cases) == unreadable_cell(cases[index]),
    decreases cases.len(),
{
    if index == cases.len() - 1 {
        assert(cases.drop_last() =~= cases.take(index));
    } else {
        let shorter = cases.drop_last();
        assert(shorter.take(index) =~= cases.take(index));
        lemma_first_unreadable(shorter, index);
    }
}

fn history_entry(
    retention: &Retention,
    case_id: u128,
    revision: i64,
    activity_id: u128,
    now: i128,
) -> (result: ActivityRecord)
    ensures
        result@ == retention::retention_activity(
            retention@,
            case_id,
            revision,
            activity_id,
            now,
        ),
{
    let mut actor = "retention:".to_owned();
    actor.append(retention.action_id.as_str());
    let mode = if retention.delete_content {
        "delete"
    } else {
        "anonymize"
    };
    let mut payload: Vec<PayloadEntry> = Vec::new();
    payload.push(PayloadEntry { key: "mode".to_owned(), value: Some(mode.to_owned()) });
    let result = ActivityRecord {
        activity_id,
        organization_id: retention.organization_id.clone(),
        case_id,
        kind: "privacy.retention_applied".to_owned(),
        actor_subject: actor,
        case_revision: revision,
        payload,
        created_at: now,
    };
    assert(result@.payload =~= retention::retention_activity(
        retention@,
        case_id,
        revision,
        activity_id,
        now,
    ).payload);
    result
}

/// Decides what a retention action writes, once everything is found.
pub fn decide_retention(
    retention: &Retention,
    findings: Findings,
    anonymized: &String,
    drawn: &Vec<u128>,
) -> (result: Result<RetentionPlan, StorageError>)
    requires
        drawn@.len() >= findings.cases@.len(),
    ensures
        rows::viewed(result) == retention_decision(retention@, findings, anonymized@, drawn@),
{
    let ghost found = findings;
    if any_revision_exhausted(&findings.cases) {
        return Err(StorageError::Database { operation: "anonymize support cases" });
    }
    let read = read_cases(findings.cases)?;
    let now: i128 = findings.now;
    let subject = retention.subject.as_str();
    let mut cases: Vec<RetainedCase> = Vec::new();
    let mut history: Vec<ActivityRecord> = Vec::new();
    let mut index: usize = 0;
    while index < read.len()
        invariant
            index <= read@.len(),
            read@.len() == found.cases@.len(),
            drawn@.len() >= read@.len(),
            cases@.len() == index,
            history@.len() == index,
            now == found.now,
            subject@ == retention.subject@,
            !revision_exhausted(found.cases@),
            forall|i: int|
                0 <= i < read@.len() ==> (#[trigger] read@[i])@ == concerned_content(found.cases@[i])
                    && found.cases@[i].revision == Some(read@[i].revision)
                    && found.cases@[i].case_id == Some(read@[i].case_id),
            forall|i: int|
                0 <= i < index ==> (#[trigger] cases@[i])@ == retention::without_subject(
                    concerned_content(found.cases@[i]),
                    retention.subject@,
                    anonymized@,
                    retention.delete_content,
                ),
            forall|i: int|
                0 <= i < index ==> (#[trigger] history@[i])@ == retention::retention_activity(
                    retention@,
                    found.cases@[i].case_id->0,
                    (found.cases@[i].revision->0 + 1) as i64,
                    drawn@[i],
                    found.now,
                ),
        decreases read@.len() - index,
    {
        let case = &read[index];
        assert(found.cases@[index as int].revision == Some(read@[index as int].revision));
        cases.push(retain_case(case, subject, anonymized, retention.delete_content));
        history.push(
            history_entry(retention, case.case_id, case.revision + 1, drawn[index], now),
        );
        index += 1;
    }
    let receipt = RetentionReceipt {
        action_id: retention.action_id.clone(),
        request_hash: copy_bytes(&retention.request_hash),
        receipt: receipt_of(retention),
        anonymized_subject: anonymized.clone(),
    };
    let plan = RetentionPlan {
        receipts: retain_receipts(&findings.receipts, retention, anonymized),
        messages: retain_messages(&findings.messages, retention, anonymized),
        cases,
        activities: retain_activities(&findings.activities, retention, anonymized),
        history,
        receipt,
        now,
    };
    proof {
        let expected = retention_plan(retention@, found, anonymized@, drawn@);
        assert(plan@.receipts =~= expected.receipts);
        assert(plan@.messages =~= expected.messages);
        assert(plan@.cases =~= expected.cases);
        assert(plan@.activities =~= expected.activities);
        assert(plan@.history =~= expected.history);
        assert(plan@.receipt =~= expected.receipt);
    }
    Ok(plan)
}

/// The receipt text of a retention action.
pub fn receipt_of(retention: &Retention) -> (text: String)
    ensures
        text@ == retention::receipt_text(retention.action_id@, retention.delete_content),
{
    let mut text = "support-case:".to_owned();
    text.append(retention.action_id.as_str());
    if retention.delete_content {
        text.append(":deleted");
    } else {
        text.append(":anonymized");
    }
    text
}

/// The name that replaces a subject, for a drawn identifier.
pub fn anonymous_subject(drawn: u128) -> (text: String)
    ensures
        text@ == retention::anonymous_name(drawn),
{
    let mut text = "anon_".to_owned();
    text.append(format_simple_uuid(drawn).as_str());
    text
}

/// How a retention action ended.
#[derive(Debug, Eq, PartialEq)]
pub enum RetentionAnswer {
    Applied(String),
    Refused(DomainFailure),
}

/// The view of how a retention action ended.
pub enum RetentionAnswerView {
    Applied(Seq<char>),
    Refused(DomainFailure),
}

impl View for RetentionAnswer {
    type V = RetentionAnswerView;

    open spec fn view(&self) -> RetentionAnswerView {
        match self {
            RetentionAnswer::Applied(receipt) => RetentionAnswerView::Applied(receipt@),
            RetentionAnswer::Refused(failure) => RetentionAnswerView::Refused(*failure),
        }
    }
}

/// One step of writing a plan. The steps are taken in this order; the two that redact
/// are taken only where content is deleted.
#[derive(Clone, Copy, Debug, Eq, PartialEq)]
pub enum RetentionStep {
    /// Writes the responses of the receipts.
    SanitizeReceipts,
    /// Writes the bodies of the messages.
    RedactMessages,
    /// Writes the titles and descriptions of the cases.
    RedactCases,
    /// Writes the subjects, the revisions and the time of the cases.
    AnonymizeCases,
    /// Writes the authors of the messages.
    AnonymizeAuthors,
    /// Writes the payloads of the activities.
    SanitizePayloads,
    /// Writes the actors of the activities.
    AnonymizeActors,
    /// Adds the entries to the history.
    EnterHistory,
    /// Stores the receipt of the action.
    StoreReceipt,
}

/// The statement of a step.
pub open spec fn step_label(step: RetentionStep) -> Seq<char> {
    match step {
        RetentionStep::SanitizeReceipts => "sanitize personal command receipts"@,
        RetentionStep::RedactMessages => "redact retained messages"@,
        RetentionStep::RedactCases => "redact retained cases"@,
        RetentionStep::AnonymizeCases => "anonymize support cases"@,
        RetentionStep::AnonymizeAuthors => "anonymize message authors"@,
        RetentionStep::SanitizePayloads => "sanitize support activity payload"@,
        RetentionStep::AnonymizeActors => "anonymize support activity"@,
        RetentionStep::EnterHistory => "insert support case activity"@,
        RetentionStep::StoreReceipt => "store retention receipt"@,
    }
}

fn step_text(step: RetentionStep) -> (text: &'static str)
    ensures
        text@ == step_label(step),
{
    match step {
        RetentionStep::SanitizeReceipts => "sanitize personal command receipts",
        RetentionStep::RedactMessages => "redact retained messages",
        RetentionStep::RedactCases => "redact retained cases",
        RetentionStep::AnonymizeCases => "anonymize support cases",
        RetentionStep::AnonymizeAuthors => "anonymize message authors",
        RetentionStep::SanitizePayloads => "sanitize support activity payload",
        RetentionStep::AnonymizeActors => "anonymize support activity",
        RetentionStep::EnterHistory => "insert support case activity",
        RetentionStep::StoreReceipt => "store retention receipt",
    }
}

/// The step that follows a step, if any.
pub open spec fn step_after(step: RetentionStep, delete_content: bool) -> Option<RetentionStep> {
    match step {
        RetentionStep::SanitizeReceipts => if delete_content {
            Some(RetentionStep::RedactMessages)
        } else {
            Some(RetentionStep::AnonymizeCases)
        },
        RetentionStep::RedactMessages => Some(RetentionStep::RedactCases),
        RetentionStep::RedactCases => Some(RetentionStep::AnonymizeCases),
        RetentionStep::AnonymizeCases => Some(RetentionStep::AnonymizeAuthors),
        RetentionStep::AnonymizeAuthors => Some(RetentionStep::SanitizePayloads),
        RetentionStep::SanitizePayloads => Some(RetentionStep::AnonymizeActors),
        RetentionStep::AnonymizeActors => Some(RetentionStep::EnterHistory),
        RetentionStep::EnterHistory => Some(RetentionStep::StoreReceipt),
        RetentionStep::StoreReceipt => None,
    }
}

fn next_step(step: RetentionStep, delete_content: bool) -> (next: Option<RetentionStep>)
    ensures
        next == step_after(step, delete_content),
{
    match step {
        RetentionStep::SanitizeReceipts => if delete_content {
            Some(RetentionStep::RedactMessages)
        } else {
            Some(RetentionStep::AnonymizeCases)
        },
        RetentionStep::RedactMessages => Some(RetentionStep::RedactCases),
        RetentionStep::RedactCases => Some(RetentionStep::AnonymizeCases),
        RetentionStep::AnonymizeCases => Some(RetentionStep::AnonymizeAuthors),
        RetentionStep::AnonymizeAuthors => Some(RetentionStep::SanitizePayloads),
        RetentionStep::SanitizePayloads => Some(RetentionStep::AnonymizeActors),
        RetentionStep::AnonymizeActors => Some(RetentionStep::EnterHistory),
        RetentionStep::EnterHistory => Some(RetentionStep::StoreReceipt),
        RetentionStep::StoreReceipt => None,
    }
}

/// Where a retention action stands: what is to be done next.
#[derive(Debug, Eq, PartialEq)]
pub enum RetentionStage {
    Begin,
    Lock,
    ReadReceipt,
    Gather,
    Apply { plan: RetentionPlan, step: RetentionStep },
    Commit { receipt: String, replay: bool },
    Finished(Result<RetentionAnswer, StorageError>),
}

/// The view of a retention stage.
pub enum RetentionStageView {
    Begin,
    Lock,
    ReadReceipt,
    Gather,
    Apply { plan: RetentionPlanView, step: RetentionStep },
    Commit { receipt: Seq<char>, replay: bool },
    Finished(Result<RetentionAnswerView, StorageErrorView>),
}

impl View for RetentionStage {
    type V = RetentionStageView;

    open spec fn view(&self) -> RetentionStageView {
        match self {
            RetentionStage::Begin => RetentionStageView::Begin,
            RetentionStage::Lock => RetentionStageView::Lock,
            RetentionStage::ReadReceipt => RetentionStageView::ReadReceipt,
            RetentionStage::Gather => RetentionStageView::Gather,
            RetentionStage::Apply { plan, step } => RetentionStageView::Apply {
                plan: plan@,
                step: *step,
            },
            RetentionStage::Commit { receipt, replay } => RetentionStageView::Commit {
                receipt: receipt@,
                replay: *replay,
            },
            RetentionStage::Finished(outcome) => RetentionStageView::Finished(
                rows::viewed(*outcome),
            ),
        }
    }
}

/// A part of the records that a retention action gathers.
#[derive(Clone, Copy, Debug, Eq, PartialEq)]
pub enum RetentionPart {
    Cases,
    Receipts,
    Messages,
    Activities,
}

/// What the host of a retention action reports.
#[derive(Debug, Eq, PartialEq)]
pub enum RetentionEvent {
    /// The step was done.
    Done,
    /// The database refused the step.
    Failed,
    /// The database refused to hand out a part of the records.
    FailedAt(RetentionPart),
    /// The receipt under the action's identifier, if there is one.
    Receipt(Option<RetentionRow>),
    /// Everything that names the subject.
    Gathered(Findings),
}

/// What the host of a retention action does next.
#[derive(Debug, Eq, PartialEq)]
pub enum RetentionAction<'a> {
    Begin,
    /// Takes the lock of a text.
    AcquireLock { key: &'a str },
    /// Reads the receipt under an action's identifier.
    ReadReceipt { action_id: &'a str },
    /// Locks and reads everything in an organization that names a subject.
    Gather { organization_id: &'a str, subject: &'a str },
    /// Takes one step of writing a plan.
    Apply { plan: &'a RetentionPlan, step: RetentionStep },
    Commit,
    Finish,
}

/// The statement by which a refused part of the records is known: the first one of the
/// action that these records are needed for.
pub open spec fn part_label(part: RetentionPart, delete_content: bool) -> Seq<char> {
    match part {
        RetentionPart::Cases => "lock retention cases"@,
        RetentionPart::Receipts => step_label(RetentionStep::SanitizeReceipts),
        RetentionPart::Messages => if delete_content {
            step_label(RetentionStep::RedactMessages)
        } else {
            step_label(RetentionStep::AnonymizeAuthors)
        },
        RetentionPart::Activities => step_label(RetentionStep::SanitizePayloads),
    }
}

fn part_text(part: RetentionPart, delete_content: bool) -> (text: &'static str)
    ensures
        text@ == part_label(part, delete_content),
{
    match part {
        RetentionPart::Cases => "lock retention cases",
        RetentionPart::Receipts => step_text(RetentionStep::SanitizeReceipts),
        RetentionPart::Messages => if delete_content {
            step_text(RetentionStep::RedactMessages)
        } else {
            step_text(RetentionStep::AnonymizeAuthors)
        },
        RetentionPart::Activities => step_text(RetentionStep::SanitizePayloads),
    }
}

/// The statement that a stage waits for.
pub open spec fn retention_label(stage: RetentionStageView) -> Seq<char> {
    match stage {
        RetentionStageView::Begin => "begin support retention"@,
        RetentionStageView::Lock => "acquire idempotency lock"@,
        RetentionStageView::ReadReceipt => "read retention receipt"@,
        RetentionStageView::Gather => "lock retention cases"@,
        RetentionStageView::Apply { step, .. } => step_label(step),
        RetentionStageView::Commit { replay, .. } => if replay {
            "commit retention replay"@
        } else {
            "commit support retention"@
        },
        RetentionStageView::Finished(_) => ""@,
    }
}

/// Where a retention action goes once its receipt is read: an action with the same
/// intent is answered as before, one with another intent is refused.
pub open spec fn after_retention_receipt(
    retention: RetentionView,
    row: Option<RetentionRow>,
) -> RetentionStageView {
    match row {
        None => RetentionStageView::Gather,
        Some(row) => if row.request_hash is None {
            RetentionStageView::Finished(
                Err(StorageErrorView::Database("decode retention request hash"@)),
            )
        } else if (row.request_hash->0)@ != retention.request_hash {
            RetentionStageView::Finished(
                Ok(RetentionAnswerView::Refused(DomainFailure::RetentionConflict)),
            )
        } else {
            match row.receipt {
                None => RetentionStageView::Finished(
                    Err(StorageErrorView::Database("decode retention receipt"@)),
                ),
                Some(receipt) => RetentionStageView::Commit { receipt: receipt@, replay: true },
            }
        },
    }
}

/// The stage that follows an event. An event that the stage does not wait for
/// changes nothing.
pub open spec fn next_retention_stage(
    retention: RetentionView,
    stage: RetentionStageView,
    event: RetentionEvent,
    anonymized: Seq<char>,
    drawn: Seq<u128>,
) -> RetentionStageView {
    match (stage, event) {
        (RetentionStageView::Finished(_), _) => stage,
        (_, RetentionEvent::Failed) => RetentionStageView::Finished(
            Err(StorageErrorView::Database(retention_label(stage))),
        ),
        (RetentionStageView::Begin, RetentionEvent::Done) => RetentionStageView::Lock,
        (RetentionStageView::Lock, RetentionEvent::Done) => RetentionStageView::ReadReceipt,
        (RetentionStageView::ReadReceipt, RetentionEvent::Receipt(row)) => after_retention_receipt(
            retention,
            row,
        ),
        (RetentionStageView::Gather, RetentionEvent::FailedAt(part)) =>
            RetentionStageView::Finished(
            Err(StorageErrorView::Database(part_label(part, retention.delete_content))),
        ),
        (RetentionStageView::Gather, RetentionEvent::Gathered(findings)) =>
            match retention_decision(retention, findings, anonymized, drawn) {
            Err(error) => RetentionStageView::Finished(Err(error)),
            Ok(plan) => RetentionStageView::Apply { plan, step: RetentionStep::SanitizeReceipts },
        },
        (RetentionStageView::Apply { plan, step }, RetentionEvent::Done) => match step_after(
            step,
            retention.delete_content,
        ) {
            Some(next) => RetentionStageView::Apply { plan, step: next },
            None => RetentionStageView::Commit { receipt: plan.receipt.receipt, replay: false },
        },
        (RetentionStageView::Commit { receipt, .. }, RetentionEvent::Done) =>
            RetentionStageView::Finished(Ok(RetentionAnswerView::Applied(receipt))),
        _ => stage,
    }
}

/// One retention action on its way through a transaction.
#[derive(Debug, Eq, PartialEq)]
pub struct RetentionRun {
    pub retention: Retention,
    pub stage: RetentionStage,
}

impl RetentionRun {
    /// An action that has not begun.
    pub fn start(retention: Retention) -> (run: RetentionRun)
        ensures
            run.retention == retention,
            run.stage@ == RetentionStageView::Begin,
    {
        RetentionRun { retention, stage: RetentionStage::Begin }
    }

    /// The statement that the run waits for, by which its failure is known.
    pub fn label(&self) -> (text: &'static str)
        ensures
            text@ == retention_label(self.stage@),
    {
        match &self.stage {
            RetentionStage::Begin => "begin support retention",
            RetentionStage::Lock => "acquire idempotency lock",
            RetentionStage::ReadReceipt => "read retention receipt",
            RetentionStage::Gather => "lock retention cases",
            RetentionStage::Apply { step, .. } => step_text(*step),
            RetentionStage::Commit { replay, .. } => if *replay {
                "commit retention replay"
            } else {
                "commit support retention"
            },
            RetentionStage::Finished(_) => "",
        }
    }

    /// What the host does next: everything is done under the action's own identifier,
    /// and gathered for its subject in its organization.
    pub fn action(&self) -> (action: RetentionAction<'_>)
        ensures
            match self.stage@ {
                RetentionStageView::Begin => action is Begin,
                RetentionStageView::Lock => action matches RetentionAction::AcquireLock { key }
                    && key@ == self.retention@.action_id,
                RetentionStageView::ReadReceipt => action matches RetentionAction::ReadReceipt {
                    action_id,
                } && action_id@ == self.retention@.action_id,
                RetentionStageView::Gather => action matches RetentionAction::Gather {
                    organization_id,
                    subject,
                } && organization_id@ == self.retention@.organization_id && subject@
                    == self.retention@.subject,
                RetentionStageView::Apply { plan: planned, step: due } => action matches
                    RetentionAction::Apply { plan, step } && plan@ == planned && step == due,
                RetentionStageView::Commit { .. } => action is Commit,
                RetentionStageView::Finished(_) => action is Finish,
            },
    {
        match &self.stage {
            RetentionStage::Begin => RetentionAction::Begin,
            RetentionStage::Lock => RetentionAction::AcquireLock {
                key: self.retention.action_id.as_str(),
            },
            RetentionStage::ReadReceipt => RetentionAction::ReadReceipt {
                action_id: self.retention.action_id.as_str(),
            },
            RetentionStage::Gather => RetentionAction::Gather {
                organization_id: self.retention.organization_id.as_str(),
                subject: self.retention.subject.as_str(),
            },
            RetentionStage::Apply { plan, step } => RetentionAction::Apply { plan, step: *step },
            RetentionStage::Commit { .. } => RetentionAction::Commit,
            RetentionStage::Finished(_) => RetentionAction::Finish,
        }
    }

    /// Goes on after an event, with names drawn at random where rows are planned.
    /// Which ones are drawn is left to chance.
    pub fn resume(self, event: RetentionEvent) -> (run: RetentionRun)
        ensures
            run.retention == self.retention,
            exists|id: u128, drawn: Seq<u128>|
                {
                    &&& run.stage@ == #[trigger] next_retention_stage(
                        self.retention@,
                        self.stage@,
                        event,
                        retention::anonymous_name(id),
                        drawn,
                    )
                    &&& outside::random_form(id)
                    &&& event matches RetentionEvent::Gathered(findings) ==> drawn.len()
                        == findings.cases@.len()
                    &&& forall|i: int|
                        0 <= i < drawn.len() ==> outside::random_form(#[trigger] drawn[i])
                },
    {
        let mut drawn: Vec<u128> = Vec::new();
        let count: usize = match &event {
            RetentionEvent::Gathered(findings) => findings.cases.len(),
            _ => 0,
        };
        while drawn.len() < count
            invariant
                drawn@.len() <= count,
                forall|i: int| 0 <= i < drawn@.len() ==> outside::random_form(#[trigger] drawn@[i]),
            decreases count - drawn@.len(),
        {
            drawn.push(random_uuid());
        }
        let id: u128 = random_uuid();
        let anonymized = anonymous_subject(id);
        self.resume_with(event, &anonymized, &drawn)
    }

    /// Goes on after an event, with given names.
    pub fn resume_with(self, event: RetentionEvent, anonymized: &String, drawn: &Vec<u128>) -> (run:
        RetentionRun)
        requires
            event matches RetentionEvent::Gathered(findings) ==> drawn@.len()
                >= findings.cases@.len(),
        ensures
            run.retention == self.retention,
            run.stage@ == next_retention_stage(
                self.retention@,
                self.stage@,
                event,
                anonymized@,
                drawn@,
            ),
    {
        let label = self.label();
        let retention = self.retention;
        let delete_content = retention.delete_content;
        let stage = match (self.stage, event) {
            (RetentionStage::Finished(outcome), _) => RetentionStage::Finished(outcome),
            (_, RetentionEvent::Failed) => RetentionStage::Finished(
                Err(StorageError::Database { operation: label }),
            ),
            (RetentionStage::Begin, RetentionEvent::Done) => RetentionStage::Lock,
            (RetentionStage::Lock, RetentionEvent::Done) => RetentionStage::ReadReceipt,
            (RetentionStage::ReadReceipt, RetentionEvent::Receipt(row)) => Self::receipt_read(
                &retention,
                row,
            ),
            (RetentionStage::Gather, RetentionEvent::FailedAt(part)) => RetentionStage::Finished(
                Err(StorageError::Database { operation: part_text(part, delete_content) }),
            ),
            (RetentionStage::Gather, RetentionEvent::Gathered(findings)) => match decide_retention(
                &retention,
                findings,
                anonymized,
                drawn,
            ) {
                Err(error) => RetentionStage::Finished(Err(error)),
                Ok(plan) => RetentionStage::Apply { plan, step: RetentionStep::SanitizeReceipts },
            },
            (RetentionStage::Apply { plan, step }, RetentionEvent::Done) => match next_step(
                step,
                delete_content,
            ) {
                Some(next) => RetentionStage::Apply { plan, step: next },
                None => RetentionStage::Commit { receipt: plan.receipt.receipt, replay: false },
            },
            (RetentionStage::Commit { receipt, .. }, RetentionEvent::Done) =>
                RetentionStage::Finished(Ok(RetentionAnswer::Applied(receipt))),
            (stage, _) => stage,
        };
        RetentionRun { retention, stage }
    }

    fn receipt_read(retention: &Retention, row: Option<RetentionRow>) -> (stage: RetentionStage)
        ensures
            stage@ == after_retention_receipt(retention@, row),
    {
        let row = match row {
            None => {
                return RetentionStage::Gather;
            },
            Some(row) => row,
        };
        match row.request_hash {
            None => RetentionStage::Finished(
                Err(StorageError::Database { operation: "decode retention request hash" }),
            ),
            Some(existing) => if !same_bytes(
                existing.as_slice(),
                retention.request_hash.as_slice(),
            ) {
                RetentionStage::Finished(
                    Ok(RetentionAnswer::Refused(DomainFailure::RetentionConflict)),
                )
            } else {
                match row.receipt {
                    None => RetentionStage::Finished(
                        Err(StorageError::Database { operation: "decode retention receipt" }),
                    ),
                    Some(receipt) => RetentionStage::Commit { receipt, replay: true },
                }
            },
        }
    }
}

} // verus!
