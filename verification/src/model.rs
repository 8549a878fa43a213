//! The records that Support Case stores, and their mathematical views.
//!
//! An identifier is the 128-bit value of a UUID. An instant is a number of
//! nanoseconds since the Unix epoch.

use vstd::prelude::*;
use vstd::string::*;

use crate::text;

verus! {

/// One support case.
#[derive(Debug, Eq, PartialEq)]
pub struct CaseRecord {
    pub case_id: u128,
    pub identifier: String,
    pub organization_id: String,
    pub requester_subject: String,
    pub creator_subject: String,
    pub title: String,
    pub description: String,
    pub priority: String,
    pub state: String,
    pub assignee_subject: Option<String>,
    pub revision: i64,
    pub created_at: i128,
    pub updated_at: i128,
    pub resolved_at: Option<i128>,
    pub closed_at: Option<i128>,
}

/// The view of a case.
#[verifier::ext_equal]
pub struct CaseView {
    pub case_id: u128,
    pub identifier: Seq<char>,
    pub organization_id: Seq<char>,
    pub requester_subject: Seq<char>,
    pub creator_subject: Seq<char>,
    pub title: Seq<char>,
    pub description: Seq<char>,
    pub priority: Seq<char>,
    pub state: Seq<char>,
    pub assignee_subject: Option<Seq<char>>,
    pub revision: i64,
    pub created_at: i128,
    pub updated_at: i128,
    pub resolved_at: Option<i128>,
    pub closed_at: Option<i128>,
}

impl View for CaseRecord {
    type V = CaseView;

    open spec fn view(&self) -> CaseView {
        CaseView {
            case_id: self.case_id,
            identifier: self.identifier@,
            organization_id: self.organization_id@,
            requester_subject: self.requester_subject@,
            creator_subject: self.creator_subject@,
            title: self.title@,
            description: self.description@,
            priority: self.priority@,
            state: self.state@,
            assignee_subject: text::optional_text(self.assignee_subject),
            revision: self.revision,
            created_at: self.created_at,
            updated_at: self.updated_at,
            resolved_at: self.resolved_at,
            closed_at: self.closed_at,
        }
    }
}

impl Clone for CaseRecord {
    fn clone(&self) -> (copy: Self)
        ensures
            copy == *self,
    {
        CaseRecord {
            case_id: self.case_id,
            identifier: self.identifier.clone(),
            organization_id: self.organization_id.clone(),
            requester_subject: self.requester_subject.clone(),
            creator_subject: self.creator_subject.clone(),
            title: self.title.clone(),
            description: self.description.clone(),
            priority: self.priority.clone(),
            state: self.state.clone(),
            assignee_subject: self.assignee_subject.clone(),
            revision: self.revision,
            created_at: self.created_at,
            updated_at: self.updated_at,
            resolved_at: self.resolved_at,
            closed_at: self.closed_at,
        }
    }
}

/// One message of a case: a public reply or an internal note.
#[derive(Debug, Eq, PartialEq)]
pub struct MessageRecord {
    pub message_id: u128,
    pub case_id: u128,
    pub visibility: String,
    pub author_subject: String,
    pub body: String,
    pub created_at: i128,
    pub case_revision: i64,
}

/// The view of a message.
#[verifier::ext_equal]
pub struct MessageView {
    pub message_id: u128,
    pub case_id: u128,
    pub visibility: Seq<char>,
    pub author_subject: Seq<char>,
    pub body: Seq<char>,
    pub created_at: i128,
    pub case_revision: i64,
}

impl View for MessageRecord {
    type V = MessageView;

    open spec fn view(&self) -> MessageView {
        MessageView {
            message_id: self.message_id,
            case_id: self.case_id,
            visibility: self.visibility@,
            author_subject: self.author_subject@,
            body: self.body@,
            created_at: self.created_at,
            case_revision: self.case_revision,
        }
    }
}

impl Clone for MessageRecord {
    fn clone(&self) -> (copy: Self)
        ensures
            copy == *self,
    {
        MessageRecord {
            message_id: self.message_id,
            case_id: self.case_id,
            visibility: self.visibility.clone(),
            author_subject: self.author_subject.clone(),
            body: self.body.clone(),
            created_at: self.created_at,
            case_revision: self.case_revision,
        }
    }
}

/// One member of an activity's payload: a text or nothing under a key.
#[derive(Debug, Eq, PartialEq)]
pub struct PayloadEntry {
    pub key: String,
    pub value: Option<String>,
}

/// The view of a payload's member.
#[verifier::ext_equal]
pub struct EntryView {
    pub key: Seq<char>,
    pub value: Option<Seq<char>>,
}

impl View for PayloadEntry {
    type V = EntryView;

    open spec fn view(&self) -> EntryView {
        EntryView { key: self.key@, value: text::optional_text(self.value) }
    }
}

/// The views of a payload's members.
pub open spec fn entries_view(entries: Seq<PayloadEntry>) -> Seq<EntryView> {
    entries.map_values(|entry: PayloadEntry| entry@)
}

/// One entry of a case's history.
#[derive(Debug, Eq, PartialEq)]
pub struct ActivityRecord {
    pub activity_id: u128,
    pub organization_id: String,
    pub case_id: u128,
    pub kind: String,
    pub actor_subject: String,
    pub case_revision: i64,
    pub payload: Vec<PayloadEntry>,
    pub created_at: i128,
}

/// The view of an activity.
#[verifier::ext_equal]
pub struct ActivityView {
    pub activity_id: u128,
    pub organization_id: Seq<char>,
    pub case_id: u128,
    pub kind: Seq<char>,
    pub actor_subject: Seq<char>,
    pub case_revision: i64,
    pub payload: Seq<EntryView>,
    pub created_at: i128,
}

impl View for ActivityRecord {
    type V = ActivityView;

    open spec fn view(&self) -> ActivityView {
        ActivityView {
            activity_id: self.activity_id,
            organization_id: self.organization_id@,
            case_id: self.case_id,
            kind: self.kind@,
            actor_subject: self.actor_subject@,
            case_revision: self.case_revision,
            payload: entries_view(self.payload@),
            created_at: self.created_at,
        }
    }
}

/// The answer that a command gave, kept for its replay.
#[derive(Debug, Eq, PartialEq)]
pub enum StoredResponse {
    Case(CaseRecord),
    Message(MessageRecord),
}

/// The view of a stored answer.
pub enum ResponseView {
    Case(CaseView),
    Message(MessageView),
}

impl View for StoredResponse {
    type V = ResponseView;

    open spec fn view(&self) -> ResponseView {
        match self {
            StoredResponse::Case(record) => ResponseView::Case(record@),
            StoredResponse::Message(record) => ResponseView::Message(record@),
        }
    }
}

impl Clone for StoredResponse {
    fn clone(&self) -> (copy: Self)
        ensures
            copy == *self,
    {
        match self {
            StoredResponse::Case(record) => StoredResponse::Case(record.clone()),
            StoredResponse::Message(record) => StoredResponse::Message(record.clone()),
        }
    }
}

/// The receipt of one command.
#[derive(Debug, Eq, PartialEq)]
pub struct CommandReceipt {
    pub caller_instance: String,
    pub idempotency_key: String,
    pub organization_id: String,
    pub case_id: u128,
    pub operation: String,
    pub request_hash: Vec<u8>,
    pub response: StoredResponse,
}

/// The view of a command's receipt.
#[verifier::ext_equal]
pub struct ReceiptView {
    pub caller_instance: Seq<char>,
    pub idempotency_key: Seq<char>,
    pub organization_id: Seq<char>,
    pub case_id: u128,
    pub operation: Seq<char>,
    pub request_hash: Seq<u8>,
    pub response: ResponseView,
}

impl View for CommandReceipt {
    type V = ReceiptView;

    open spec fn view(&self) -> ReceiptView {
        ReceiptView {
            caller_instance: self.caller_instance@,
            idempotency_key: self.idempotency_key@,
            organization_id: self.organization_id@,
            case_id: self.case_id,
            operation: self.operation@,
            request_hash: self.request_hash@,
            response: self.response@,
        }
    }
}

/// The receipt of one retention action.
#[derive(Debug, Eq, PartialEq)]
pub struct RetentionReceipt {
    pub action_id: String,
    pub request_hash: Vec<u8>,
    pub receipt: String,
    pub anonymized_subject: String,
}

/// The view of a retention action's receipt.
#[verifier::ext_equal]
pub struct RetentionReceiptView {
    pub action_id: Seq<char>,
    pub request_hash: Seq<u8>,
    pub receipt: Seq<char>,
    pub anonymized_subject: Seq<char>,
}

impl View for RetentionReceipt {
    type V = RetentionReceiptView;

    open spec fn view(&self) -> RetentionReceiptView {
        RetentionReceiptView {
            action_id: self.action_id@,
            request_hash: self.request_hash@,
            receipt: self.receipt@,
            anonymized_subject: self.anonymized_subject@,
        }
    }
}

/// Whether a subject requested a case, created it, or has it assigned.
pub open spec fn related(case: CaseView, subject: Seq<char>) -> bool {
    case.requester_subject == subject || case.creator_subject == subject || case.assignee_subject
        == Some(subject)
}

/// Why a command was refused.
#[derive(Clone, Copy, Debug, Eq, PartialEq)]
pub enum DomainFailure {
    Forbidden,
    CaseNotFound,
    RevisionConflict,
    IdempotencyConflict,
    InvalidTransition,
    RetentionConflict,
}

/// How urgent a case is.
#[derive(Clone, Copy, Debug, Eq, PartialEq)]
pub enum Priority {
    Low,
    Normal,
    High,
    Urgent,
}

/// The stored text of a priority.
pub open spec fn priority_name(priority: Priority) -> Seq<char> {
    match priority {
        Priority::Low => "low"@,
        Priority::Normal => "normal"@,
        Priority::High => "high"@,
        Priority::Urgent => "urgent"@,
    }
}

/// Where a case stands in its lifecycle.
#[derive(Clone, Copy, Debug, Eq, PartialEq)]
pub enum CaseState {
    Open,
    InProgress,
    WaitingCustomer,
    Resolved,
    Closed,
}

/// The stored text of a state.
pub open spec fn state_name(state: CaseState) -> Seq<char> {
    match state {
        CaseState::Open => "open"@,
        CaseState::InProgress => "in_progress"@,
        CaseState::WaitingCustomer => "waiting_customer"@,
        CaseState::Resolved => "resolved"@,
        CaseState::Closed => "closed"@,
    }
}

/// Who may see a message.
#[derive(Clone, Copy, Debug, Eq, PartialEq)]
pub enum Visibility {
    Public,
    Internal,
}

/// The stored text of a visibility.
pub open spec fn visibility_name(visibility: Visibility) -> Seq<char> {
    match visibility {
        Visibility::Public => "public"@,
        Visibility::Internal => "internal"@,
    }
}

pub fn priority_text(priority: Priority) -> (text: &'static str)
    ensures
        text@ == priority_name(priority),
{
    match priority {
        Priority::Low => "low",
        Priority::Normal => "normal",
        Priority::High => "high",
        Priority::Urgent => "urgent",
    }
}

pub fn state_text(state: CaseState) -> (text: &'static str)
    ensures
        text@ == state_name(state),
{
    match state {
        CaseState::Open => "open",
        CaseState::InProgress => "in_progress",
        CaseState::WaitingCustomer => "waiting_customer",
        CaseState::Resolved => "resolved",
        CaseState::Closed => "closed",
    }
}

pub fn visibility_text(visibility: Visibility) -> (text: &'static str)
    ensures
        text@ == visibility_name(visibility),
{
    match visibility {
        Visibility::Public => "public",
        Visibility::Internal => "internal",
    }
}

} // verus!
