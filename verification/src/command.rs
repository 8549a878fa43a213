//! Commands: the mutations of a case, and what each of them writes.

use vstd::prelude::*;
use vstd::string::*;

use crate::decimal;
use crate::decimal::append_number;
use crate::errors::{StorageError, StorageErrorView};
use crate::lifecycle;
use crate::lifecycle::{next_closed_at, next_resolved_at, valid_transition};
use crate::model;
use crate::model::{
    ActivityRecord, ActivityView, CaseRecord, CaseView, CommandReceipt, DomainFailure, EntryView,
    MessageRecord, MessageView, PayloadEntry, ReceiptView, ResponseView, StoredResponse,
};
use crate::outside;
use crate::outside::format_uuid;
use crate::rows;
use crate::rows::{cell, decode_case, CaseRow};
use crate::text;
use crate::text::{copy_bytes, same_bytes, same_optional_text, same_text};

verus! {

/// What a command does to a case.
#[derive(Debug, Eq, PartialEq)]
pub enum Change {
    Create { title: String, description: String, priority: String },
    Update {
        case_id: u128,
        expected_revision: i64,
        title: Option<String>,
        description: Option<String>,
        priority: Option<String>,
    },
    Assign { case_id: u128, expected_revision: i64, assignee_subject: Option<String> },
    Transition {
        case_id: u128,
        expected_revision: i64,
        target_state: String,
        reason: Option<String>,
    },
    AddMessage {
        case_id: u128,
        expected_revision: i64,
        can_comment_all: bool,
        visibility: String,
        body: String,
    },
}

/// The view of a change.
#[verifier::ext_equal]
pub enum ChangeView {
    Create { title: Seq<char>, description: Seq<char>, priority: Seq<char> },
    Update {
        case_id: u128,
        expected_revision: i64,
        title: Option<Seq<char>>,
        description: Option<Seq<char>>,
        priority: Option<Seq<char>>,
    },
    Assign { case_id: u128, expected_revision: i64, assignee_subject: Option<Seq<char>> },
    Transition {
        case_id: u128,
        expected_revision: i64,
        target_state: Seq<char>,
        reason: Option<Seq<char>>,
    },
    AddMessage {
        case_id: u128,
        expected_revision: i64,
        can_comment_all: bool,
        visibility: Seq<char>,
        body: Seq<char>,
    },
}

impl View for Change {
    type V = ChangeView;

    open spec fn view(&self) -> ChangeView {
        match self {
            Change::Create { title, description, priority } => ChangeView::Create {
                title: title@,
                description: description@,
                priority: priority@,
            },
            Change::Update { case_id, expected_revision, title, description, priority } =>
                ChangeView::Update {
                case_id: *case_id,
                expected_revision: *expected_revision,
                title: text::optional_text(*title),
                description: text::optional_text(*description),
                priority: text::optional_text(*priority),
            },
            Change::Assign { case_id, expected_revision, assignee_subject } => ChangeView::Assign {
                case_id: *case_id,
                expected_revision: *expected_revision,
                assignee_subject: text::optional_text(*assignee_subject),
            },
            Change::Transition { case_id, expected_revision, target_state, reason } =>
                ChangeView::Transition {
                case_id: *case_id,
                expected_revision: *expected_revision,
                target_state: target_state@,
                reason: text::optional_text(*reason),
            },
            Change::AddMessage { case_id, expected_revision, can_comment_all, visibility, body } =>
                ChangeView::AddMessage {
                case_id: *case_id,
                expected_revision: *expected_revision,
                can_comment_all: *can_comment_all,
                visibility: visibility@,
                body: body@,
            },
        }
    }
}

/// A command: a change, who asked for it, and the key under which it happens once.
#[derive(Debug, Eq, PartialEq)]
pub struct Command {
    pub caller: String,
    pub idempotency_key: String,
    pub request_hash: Vec<u8>,
    pub organization_id: String,
    pub actor: String,
    pub change: Change,
}

/// The view of a command.
#[verifier::ext_equal]
pub struct CommandView {
    pub caller: Seq<char>,
    pub idempotency_key: Seq<char>,
    pub request_hash: Seq<u8>,
    pub organization_id: Seq<char>,
    pub actor: Seq<char>,
    pub change: ChangeView,
}

impl View for Command {
    type V = CommandView;

    open spec fn view(&self) -> CommandView {
        CommandView {
            caller: self.caller@,
            idempotency_key: self.idempotency_key@,
            request_hash: self.request_hash@,
            organization_id: self.organization_id@,
            actor: self.actor@,
            change: self.change@,
        }
    }
}

/// The name of the operation that makes a change.
pub open spec fn operation_name(change: ChangeView) -> Seq<char> {
    match change {
        ChangeView::Create { .. } => "create_case"@,
        ChangeView::Update { .. } => "update_case"@,
        ChangeView::Assign { .. } => "assign_case"@,
        ChangeView::Transition { .. } => "transition_case"@,
        ChangeView::AddMessage { .. } => "add_message"@,
    }
}

pub fn operation_text(change: &Change) -> (text: &'static str)
    ensures
        text@ == operation_name(change@),
{
    match change {
        Change::Create { .. } => "create_case",
        Change::Update { .. } => "update_case",
        Change::Assign { .. } => "assign_case",
        Change::Transition { .. } => "transition_case",
        Change::AddMessage { .. } => "add_message",
    }
}

/// The text whose lock makes the commands of one caller under one key follow each
/// other.
pub open spec fn command_lock(command: CommandView) -> Seq<char> {
    command.caller + seq!['\0'] + command.idempotency_key
}

pub fn lock_text(command: &Command) -> (text: String)
    ensures
        text@ == command_lock(command@),
{
    let mut text = command.caller.clone();
    text.append("\0");
    text.append(command.idempotency_key.as_str());
    proof {
        reveal_strlit("\0");
        assert("\0"@ =~= seq!['\0']);
    }
    text
}

/// The stored response of a receipt, as far as it could be read.
#[derive(Debug, Eq, PartialEq)]
pub enum ResponseCell {
    /// The column could not be read.
    Unreadable,
    /// The column holds no response of the expected shape.
    Malformed,
    Read(StoredResponse),
}

/// A row of the table of receipts.
#[derive(Debug, Eq, PartialEq)]
pub struct ReceiptRow {
    pub operation: Option<String>,
    pub request_hash: Option<Vec<u8>>,
    pub response: ResponseCell,
}

/// What a receipt means for a command that comes under its key.
#[derive(Debug, Eq, PartialEq)]
pub enum Replay {
    /// The command is new.
    Proceed,
    /// The command has happened: this was its answer.
    Answer(StoredResponse),
    /// The key belongs to another command.
    Refuse(DomainFailure),
}

/// The view of a replay decision.
pub enum ReplayView {
    Proceed,
    Answer(ResponseView),
    Refuse(DomainFailure),
}

impl View for Replay {
    type V = ReplayView;

    open spec fn view(&self) -> ReplayView {
        match self {
            Replay::Proceed => ReplayView::Proceed,
            Replay::Answer(response) => ReplayView::Answer(response@),
            Replay::Refuse(failure) => ReplayView::Refuse(*failure),
        }
    }
}

/// Whether a response has the shape that a change answers with.
pub open spec fn answers(change: ChangeView, response: ResponseView) -> bool {
    (change is AddMessage) == (response is Message)
}

/// What a receipt means for a command: nothing stored, a new command; the same
/// operation and request, a replay; anything else, a conflict.
pub open spec fn replay_of(command: CommandView, receipt: Option<ReceiptRow>) -> Result<
    ReplayView,
    StorageErrorView,
> {
    match receipt {
        None => Ok(ReplayView::Proceed),
        Some(row) => if row.operation is None {
            Err(StorageErrorView::Database("decode command operation"@))
        } else if row.request_hash is None {
            Err(StorageErrorView::Database("decode command hash"@))
        } else if (row.operation->0)@ != operation_name(command.change) || (row.request_hash->0)@
            != command.request_hash {
            Ok(ReplayView::Refuse(DomainFailure::IdempotencyConflict))
        } else {
            match row.response {
                ResponseCell::Unreadable => Err(
                    StorageErrorView::Database("decode command response"@),
                ),
                ResponseCell::Malformed => Err(StorageErrorView::Serialization),
                ResponseCell::Read(response) => if answers(command.change, response@) {
                    Ok(ReplayView::Answer(response@))
                } else {
                    Err(StorageErrorView::Serialization)
                },
            }
        },
    }
}

/// Decides whether a command is new, a replay, or in conflict with its key.
pub fn command_replay(command: &Command, receipt: Option<ReceiptRow>) -> (result: Result<
    Replay,
    StorageError,
>)
    ensures
        rows::viewed(result) == replay_of(command@, receipt),
{
    let row = match receipt {
        None => {
            return Ok(Replay::Proceed);
        },
        Some(row) => row,
    };
    let operation = cell(row.operation, "decode command operation")?;
    let request_hash = cell(row.request_hash, "decode command hash")?;
    if !same_text(operation.as_str(), operation_text(&command.change)) || !same_bytes(
        request_hash.as_slice(),
        command.request_hash.as_slice(),
    ) {
        return Ok(Replay::Refuse(DomainFailure::IdempotencyConflict));
    }
    match row.response {
        ResponseCell::Unreadable => Err(
            StorageError::Database { operation: "decode command response" },
        ),
        ResponseCell::Malformed => Err(StorageError::Serialization),
        ResponseCell::Read(response) => {
            let message = match &response {
                StoredResponse::Message(_) => true,
                StoredResponse::Case(_) => false,
            };
            let expected = match &command.change {
                Change::AddMessage { .. } => true,
                _ => false,
            };
            if message == expected {
                Ok(Replay::Answer(response))
            } else {
                Err(StorageError::Serialization)
            }
        },
    }
}

/// Identifiers drawn for what a command writes: one for the new case or message,
/// one for the activity.
#[derive(Clone, Copy, Debug, Eq, PartialEq)]
pub struct Drawn {
    pub record_id: u128,
    pub activity_id: u128,
}

/// One row to write.
#[derive(Debug, Eq, PartialEq)]
pub enum Write {
    InsertCase(CaseRecord),
    UpdateCase(CaseRecord),
    InsertMessage(MessageRecord),
    InsertActivity(ActivityRecord),
    SaveReceipt(CommandReceipt),
}

/// The view of a row to write.
#[verifier::ext_equal]
pub enum WriteView {
    InsertCase(CaseView),
    UpdateCase(CaseView),
    InsertMessage(MessageView),
    InsertActivity(ActivityView),
    SaveReceipt(ReceiptView),
}

impl View for Write {
    type V = WriteView;

    open spec fn view(&self) -> WriteView {
        match self {
            Write::InsertCase(record) => WriteView::InsertCase(record@),
            Write::UpdateCase(record) => WriteView::UpdateCase(record@),
            Write::InsertMessage(record) => WriteView::InsertMessage(record@),
            Write::InsertActivity(record) => WriteView::InsertActivity(record@),
            Write::SaveReceipt(record) => WriteView::SaveReceipt(record@),
        }
    }
}

/// The views of the rows to write.
pub open spec fn writes_view(writes: Seq<Write>) -> Seq<WriteView> {
    writes.map_values(|write: Write| write@)
}

/// What a command writes, in order, and what it answers.
#[derive(Debug, Eq, PartialEq)]
pub struct Plan {
    pub writes: Vec<Write>,
    pub response: StoredResponse,
}

/// The view of a plan.
#[verifier::ext_equal]
pub struct PlanView {
    pub writes: Seq<WriteView>,
    pub response: ResponseView,
}

impl View for Plan {
    type V = PlanView;

    open spec fn view(&self) -> PlanView {
        PlanView { writes: writes_view(self.writes@), response: self.response@ }
    }
}

/// The identifier of the case with a number.
pub open spec fn numbered(number: int) -> Seq<char> {
    "SUP-"@ + decimal::decimal(number as nat)
}

/// The case that a creation makes.
pub open spec fn created_case(
    command: CommandView,
    number: int,
    case_id: u128,
    now: i128,
) -> CaseView {
    CaseView {
        case_id,
        identifier: numbered(number),
        organization_id: command.organization_id,
        requester_subject: command.actor,
        creator_subject: command.actor,
        title: command.change->Create_title,
        description: command.change->Create_description,
        priority: command.change->Create_priority,
        state: "open"@,
        assignee_subject: None,
        revision: 1,
        created_at: now,
        updated_at: now,
        resolved_at: None,
        closed_at: None,
    }
}

/// A given value, or the current one where none is given.
pub open spec fn given_or(given: Option<Seq<char>>, current: Seq<char>) -> Seq<char> {
    match given {
        Some(value) => value,
        None => current,
    }
}

/// The case that a change leaves behind. Its revision is one higher.
pub open spec fn changed_case(change: ChangeView, current: CaseView, now: i128) -> CaseView {
    let touched = CaseView { revision: (current.revision + 1) as i64, updated_at: now, ..current };
    match change {
        ChangeView::Create { .. } => touched,
        ChangeView::Update { title, description, priority, .. } => CaseView {
            title: given_or(title, current.title),
            description: given_or(description, current.description),
            priority: given_or(priority, current.priority),
            ..touched
        },
        ChangeView::Assign { assignee_subject, .. } => CaseView { assignee_subject, ..touched },
        ChangeView::Transition { target_state, .. } => CaseView {
            state: target_state,
            resolved_at: lifecycle::resolved_at_after(target_state, now, current.resolved_at),
            closed_at: lifecycle::closed_at_after(target_state, now, current.closed_at),
            ..touched
        },
        ChangeView::AddMessage { .. } => touched,
    }
}

/// The message that a command adds.
pub open spec fn added_message(
    command: CommandView,
    message_id: u128,
    case_id: u128,
    revision: i64,
    now: i128,
) -> MessageView {
    MessageView {
        message_id,
        case_id,
        visibility: command.change->AddMessage_visibility,
        author_subject: command.actor,
        body: command.change->AddMessage_body,
        created_at: now,
        case_revision: revision,
    }
}

/// The kind of the activity that a change leaves.
pub open spec fn activity_kind(change: ChangeView) -> Seq<char> {
    match change {
        ChangeView::Create { .. } => "case.created"@,
        ChangeView::Update { .. } => "case.updated"@,
        ChangeView::Assign { .. } => "case.assigned"@,
        ChangeView::Transition { .. } => "case.transitioned"@,
        ChangeView::AddMessage { .. } => "message.added"@,
    }
}

/// What the activity of a change tells, given the case's identifier and its state
/// before the change.
pub open spec fn activity_payload(
    change: ChangeView,
    identifier: Seq<char>,
    state_before: Seq<char>,
    record_id: u128,
) -> Seq<EntryView> {
    match change {
        ChangeView::Create { .. } => seq![
            EntryView { key: "identifier"@, value: Some(identifier) },
        ],
        ChangeView::Update { .. } => seq![],
        ChangeView::Assign { assignee_subject, .. } => seq![
            EntryView { key: "assignee_subject"@, value: assignee_subject },
        ],
        ChangeView::Transition { target_state, reason, .. } => seq![
            EntryView { key: "from"@, value: Some(state_before) },
            EntryView { key: "to"@, value: Some(target_state) },
            EntryView { key: "reason"@, value: reason },
        ],
        ChangeView::AddMessage { visibility, .. } => seq![
            EntryView { key: "message_id"@, value: Some(outside::uuid_text(record_id)) },
            EntryView { key: "visibility"@, value: Some(visibility) },
        ],
    }
}

/// The activity that a command leaves on a case.
pub open spec fn command_activity(
    command: CommandView,
    case: CaseView,
    state_before: Seq<char>,
    drawn: Drawn,
    now: i128,
) -> ActivityView {
    ActivityView {
        activity_id: drawn.activity_id,
        organization_id: command.organization_id,
        case_id: case.case_id,
        kind: activity_kind(command.change),
        actor_subject: command.actor,
        case_revision: case.revision,
        payload: activity_payload(command.change, case.identifier, state_before, drawn.record_id),
        created_at: now,
    }
}

/// The receipt that a command leaves.
pub open spec fn command_receipt(
    command: CommandView,
    case_id: u128,
    response: ResponseView,
) -> ReceiptView {
    ReceiptView {
        caller_instance: command.caller,
        idempotency_key: command.idempotency_key,
        organization_id: command.organization_id,
        case_id,
        operation: operation_name(command.change),
        request_hash: command.request_hash,
        response,
    }
}

/// The plan of a creation under an allocated number.
pub open spec fn creation_plan(
    command: CommandView,
    number: int,
    drawn: Drawn,
    now: i128,
) -> PlanView {
    let case = created_case(command, number, drawn.record_id, now);
    let response = ResponseView::Case(case);
    PlanView {
        writes: seq![
            WriteView::InsertCase(case),
            WriteView::InsertActivity(command_activity(command, case, "open"@, drawn, now)),
            WriteView::SaveReceipt(command_receipt(command, case.case_id, response)),
        ],
        response,
    }
}

/// The plan of a change to a case.
pub open spec fn change_plan(
    command: CommandView,
    current: CaseView,
    drawn: Drawn,
    now: i128,
) -> PlanView {
    let case = changed_case(command.change, current, now);
    let activity = WriteView::InsertActivity(
        command_activity(command, case, current.state, drawn, now),
    );
    if command.change is AddMessage {
        let message = added_message(command, drawn.record_id, case.case_id, case.revision, now);
        let response = ResponseView::Message(message);
        PlanView {
            writes: seq![
                WriteView::UpdateCase(case),
                WriteView::InsertMessage(message),
                activity,
                WriteView::SaveReceipt(command_receipt(command, case.case_id, response)),
            ],
            response,
        }
    } else {
        let response = ResponseView::Case(case);
        PlanView {
            writes: seq![
                WriteView::UpdateCase(case),
                activity,
                WriteView::SaveReceipt(command_receipt(command, case.case_id, response)),
            ],
            response,
        }
    }
}

/// The revision that a change expects its case to have.
pub open spec fn expected_revision(change: ChangeView) -> i64 {
    match change {
        ChangeView::Create { .. } => 0,
        ChangeView::Update { expected_revision, .. } => expected_revision,
        ChangeView::Assign { expected_revision, .. } => expected_revision,
        ChangeView::Transition { expected_revision, .. } => expected_revision,
        ChangeView::AddMessage { expected_revision, .. } => expected_revision,
    }
}

/// The case that a change is about.
pub open spec fn target_case(change: ChangeView) -> u128 {
    match change {
        ChangeView::Create { .. } => 0,
        ChangeView::Update { case_id, .. } => case_id,
        ChangeView::Assign { case_id, .. } => case_id,
        ChangeView::Transition { case_id, .. } => case_id,
        ChangeView::AddMessage { case_id, .. } => case_id,
    }
}

/// Why a change to a case is refused, if it is: a message of someone who is not
/// related to it, a stale revision, or a transition that the lifecycle forbids.
pub open spec fn refusal(command: CommandView, current: CaseView) -> Option<DomainFailure> {
    if command.change is AddMessage && !command.change->can_comment_all && !model::related(
        current,
        command.actor,
    ) {
        Some(DomainFailure::Forbidden)
    } else if current.revision != expected_revision(command.change) {
        Some(DomainFailure::RevisionConflict)
    } else if command.change is Transition && !lifecycle::allowed_transition(
        current.state,
        command.change->target_state,
    ) {
        Some(DomainFailure::InvalidTransition)
    } else {
        None
    }
}

/// The statement that changes a case.
pub open spec fn update_label(change: ChangeView) -> Seq<char> {
    match change {
        ChangeView::Create { .. } => "insert support case"@,
        ChangeView::Update { .. } => "update support case"@,
        ChangeView::Assign { .. } => "assign support case"@,
        ChangeView::Transition { .. } => "transition support case"@,
        ChangeView::AddMessage { .. } => "bump case revision for message"@,
    }
}

pub fn update_operation(change: &Change) -> (text: &'static str)
    ensures
        text@ == update_label(change@),
{
    match change {
        Change::Create { .. } => "insert support case",
        Change::Update { .. } => "update support case",
        Change::Assign { .. } => "assign support case",
        Change::Transition { .. } => "transition support case",
        Change::AddMessage { .. } => "bump case revision for message",
    }
}

/// What becomes of a command once its case is known.
#[derive(Debug, Eq, PartialEq)]
pub enum Decision {
    Write(Plan),
    Refuse(DomainFailure),
}

/// The view of a decision.
#[verifier::ext_equal]
pub enum DecisionView {
    Write(PlanView),
    Refuse(DomainFailure),
}

impl View for Decision {
    type V = DecisionView;

    open spec fn view(&self) -> DecisionView {
        match self {
            Decision::Write(plan) => DecisionView::Write(plan@),
            Decision::Refuse(failure) => DecisionView::Refuse(*failure),
        }
    }
}

/// What becomes of a creation, given the number that was allocated.
pub open spec fn creation_decision(
    command: CommandView,
    allocated: Option<i64>,
    drawn: Drawn,
    now: i128,
) -> Result<DecisionView, StorageErrorView> {
    match allocated {
        None => Err(StorageErrorView::Database("decode case identifier"@)),
        Some(number) => if number <= 0 {
            Err(StorageErrorView::InvalidStoredData("case sequence is not positive"@))
        } else {
            Ok(DecisionView::Write(creation_plan(command, number as int, drawn, now)))
        },
    }
}

/// What becomes of a change, given the locked row of its case.
pub open spec fn change_decision(
    command: CommandView,
    row: Option<CaseRow>,
    drawn: Drawn,
    now: i128,
) -> Result<DecisionView, StorageErrorView> {
    match row {
        None => Ok(DecisionView::Refuse(DomainFailure::CaseNotFound)),
        Some(row) => match rows::case_in(row) {
            Err(error) => Err(error),
            Ok(current) => match refusal(command, current) {
                Some(failure) => Ok(DecisionView::Refuse(failure)),
                None => if current.revision == i64::MAX {
                    Err(StorageErrorView::Database(update_label(command.change)))
                } else {
                    Ok(DecisionView::Write(change_plan(command, current, drawn, now)))
                },
            },
        },
    }
}

fn entry(key: &str, value: Option<String>) -> (result: PayloadEntry)
    ensures
        result@ == (EntryView { key: key@, value: text::optional_text(value) }),
{
    PayloadEntry { key: key.to_owned(), value }
}

fn payload_of(change: &Change, identifier: &String, state_before: &String, record_id: u128) -> (result:
    Vec<PayloadEntry>)
    ensures
        model::entries_view(result@) == activity_payload(
            change@,
            identifier@,
            state_before@,
            record_id,
        ),
{
    let mut entries: Vec<PayloadEntry> = Vec::new();
    match change {
        Change::Create { .. } => {
            entries.push(entry("identifier", Some(identifier.clone())));
        },
        Change::Update { .. } => {},
        Change::Assign { assignee_subject, .. } => {
            entries.push(entry("assignee_subject", assignee_subject.clone()));
        },
        Change::Transition { target_state, reason, .. } => {
            entries.push(entry("from", Some(state_before.clone())));
            entries.push(entry("to", Some(target_state.clone())));
            entries.push(entry("reason", reason.clone()));
        },
        Change::AddMessage { visibility, .. } => {
            entries.push(entry("message_id", Some(format_uuid(record_id))));
            entries.push(entry("visibility", Some(visibility.clone())));
        },
    }
    assert(model::entries_view(entries@) =~= activity_payload(
        change@,
        identifier@,
        state_before@,
        record_id,
    ));
    entries
}

fn kind_text(change: &Change) -> (text: &'static str)
    ensures
        text@ == activity_kind(change@),
{
    match change {
        Change::Create { .. } => "case.created",
        Change::Update { .. } => "case.updated",
        Change::Assign { .. } => "case.assigned",
        Change::Transition { .. } => "case.transitioned",
        Change::AddMessage { .. } => "message.added",
    }
}

fn activity_of(
    command: &Command,
    case: &CaseRecord,
    state_before: &String,
    drawn: Drawn,
    now: i128,
) -> (result: ActivityRecord)
    ensures
        result@ == command_activity(command@, case@, state_before@, drawn, now),
{
    ActivityRecord {
        activity_id: drawn.activity_id,
        organization_id: command.organization_id.clone(),
        case_id: case.case_id,
        kind: kind_text(&command.change).to_owned(),
        actor_subject: command.actor.clone(),
        case_revision: case.revision,
        payload: payload_of(&command.change, &case.identifier, state_before, drawn.record_id),
        created_at: now,
    }
}

fn receipt_of(command: &Command, case_id: u128, response: StoredResponse) -> (result: CommandReceipt)
    ensures
        result@ == command_receipt(command@, case_id, response@),
{
    CommandReceipt {
        caller_instance: command.caller.clone(),
        idempotency_key: command.idempotency_key.clone(),
        organization_id: command.organization_id.clone(),
        case_id,
        operation: operation_text(&command.change).to_owned(),
        request_hash: copy_bytes(&command.request_hash),
        response,
    }
}

fn number_text(number: i64) -> (text: String)
    requires
        number > 0,
    ensures
        text@ == numbered(number as int),
{
    let mut text = "SUP-".to_owned();
    append_number(&mut text, number as u64);
    text
}

/// Plans a creation under an allocated number.
pub fn plan_creation(command: &Command, number: i64, drawn: Drawn, now: i128) -> (plan: Plan)
    requires
        command.change is Create,
        number > 0,
    ensures
        plan@ == creation_plan(command@, number as int, drawn, now),
{
    let (title, description, priority) = match &command.change {
        Change::Create { title, description, priority } => (
            title.clone(),
            description.clone(),
            priority.clone(),
        ),
        _ => (String::new(), String::new(), String::new()),
    };
    let case = CaseRecord {
        case_id: drawn.record_id,
        identifier: number_text(number),
        organization_id: command.organization_id.clone(),
        requester_subject: command.actor.clone(),
        creator_subject: command.actor.clone(),
        title,
        description,
        priority,
        state: "open".to_owned(),
        assignee_subject: None,
        revision: 1,
        created_at: now,
        updated_at: now,
        resolved_at: None,
        closed_at: None,
    };
    assert(case@ =~= created_case(command@, number as int, drawn.record_id, now));
    let activity = activity_of(command, &case, &case.state, drawn, now);
    let receipt = receipt_of(command, case.case_id, StoredResponse::Case(case.clone()));
    let response = StoredResponse::Case(case.clone());
    let mut writes: Vec<Write> = Vec::new();
    writes.push(Write::InsertCase(case));
    writes.push(Write::InsertActivity(activity));
    writes.push(Write::SaveReceipt(receipt));
    assert(writes_view(writes@) =~= creation_plan(command@, number as int, drawn, now).writes);
    Plan { writes, response }
}

fn choose_text(given: &Option<String>, current: &String) -> (result: String)
    ensures
        result@ == given_or(text::optional_text(*given), current@),
{
    match given {
        Some(value) => value.clone(),
        None => current.clone(),
    }
}

fn change_case(change: &Change, current: &CaseRecord, now: i128) -> (result: CaseRecord)
    requires
        current.revision < i64::MAX,
    ensures
        result@ == changed_case(change@, current@, now),
{
    let mut case = current.clone();
    case.revision = current.revision + 1;
    case.updated_at = now;
    match change {
        Change::Create { .. } => {},
        Change::Update { title, description, priority, .. } => {
            case.title = choose_text(title, &current.title);
            case.description = choose_text(description, &current.description);
            case.priority = choose_text(priority, &current.priority);
        },
        Change::Assign { assignee_subject, .. } => {
            case.assignee_subject = assignee_subject.clone();
        },
        Change::Transition { target_state, .. } => {
            case.state = target_state.clone();
            case.resolved_at = next_resolved_at(target_state.as_str(), now, current.resolved_at);
            case.closed_at = next_closed_at(target_state.as_str(), now, current.closed_at);
        },
        Change::AddMessage { .. } => {},
    }
    assert(case@ =~= changed_case(change@, current@, now));
    case
}

/// Plans a change to a case.
pub fn plan_change(command: &Command, current: &CaseRecord, drawn: Drawn, now: i128) -> (plan: Plan)
    requires
        current.revision < i64::MAX,
    ensures
        plan@ == change_plan(command@, current@, drawn, now),
{
    let case = change_case(&command.change, current, now);
    let activity = activity_of(command, &case, &current.state, drawn, now);
    let case_id: u128 = case.case_id;
    let mut writes: Vec<Write> = Vec::new();
    match &command.change {
        Change::AddMessage { visibility, body, .. } => {
            let message = MessageRecord {
                message_id: drawn.record_id,
                case_id,
                visibility: visibility.clone(),
                author_subject: command.actor.clone(),
                body: body.clone(),
                created_at: now,
                case_revision: case.revision,
            };
            let receipt = receipt_of(command, case_id, StoredResponse::Message(message.clone()));
            let response = StoredResponse::Message(message.clone());
            writes.push(Write::UpdateCase(case));
            writes.push(Write::InsertMessage(message));
            writes.push(Write::InsertActivity(activity));
            writes.push(Write::SaveReceipt(receipt));
            assert(writes_view(writes@) =~= change_plan(command@, current@, drawn, now).writes);
            Plan { writes, response }
        },
        _ => {
            let receipt = receipt_of(command, case_id, StoredResponse::Case(case.clone()));
            let response = StoredResponse::Case(case.clone());
            writes.push(Write::UpdateCase(case));
            writes.push(Write::InsertActivity(activity));
            writes.push(Write::SaveReceipt(receipt));
            assert(writes_view(writes@) =~= change_plan(command@, current@, drawn, now).writes);
            Plan { writes, response }
        },
    }
}

/// Whether a subject requested a case, created it, or has it assigned.
pub fn is_related(case: &CaseRecord, subject: &str) -> (result: bool)
    ensures
        result == model::related(case@, subject@),
{
    same_text(case.requester_subject.as_str(), subject) || same_text(
        case.creator_subject.as_str(),
        subject,
    ) || same_optional_text(&case.assignee_subject, subject)
}

fn revision_of(change: &Change) -> (result: i64)
    ensures
        result == expected_revision(change@),
{
    match change {
        Change::Create { .. } => 0,
        Change::Update { expected_revision, .. } => *expected_revision,
        Change::Assign { expected_revision, .. } => *expected_revision,
        Change::Transition { expected_revision, .. } => *expected_revision,
        Change::AddMessage { expected_revision, .. } => *expected_revision,
    }
}

fn refusal_of(command: &Command, current: &CaseRecord) -> (result: Option<DomainFailure>)
    ensures
        result == refusal(command@, current@),
{
    if let Change::AddMessage { can_comment_all, .. } = &command.change {
        if !*can_comment_all && !is_related(current, command.actor.as_str()) {
            return Some(DomainFailure::Forbidden);
        }
    }
    if current.revision != revision_of(&command.change) {
        return Some(DomainFailure::RevisionConflict);
    }
    if let Change::Transition { target_state, .. } = &command.change {
        if !valid_transition(current.state.as_str(), target_state.as_str()) {
            return Some(DomainFailure::InvalidTransition);
        }
    }
    None
}

/// Decides a creation once its number is allocated.
pub fn decide_creation(command: &Command, allocated: Option<i64>, drawn: Drawn, now: i128) -> (result:
    Result<Decision, StorageError>)
    requires
        command.change is Create,
    ensures
        rows::viewed(result) == creation_decision(command@, allocated, drawn, now),
{
    let number: i64 = cell(allocated, "decode case identifier")?;
    if number <= 0 {
        return Err(
            StorageError::InvalidStoredData { detail: "case sequence is not positive".to_owned() },
        );
    }
    Ok(Decision::Write(plan_creation(command, number, drawn, now)))
}

/// Decides a change once the row of its case is locked.
pub fn decide_change(command: &Command, row: Option<CaseRow>, drawn: Drawn, now: i128) -> (result:
    Result<Decision, StorageError>)
    ensures
        rows::viewed(result) == change_decision(command@, row, drawn, now),
{
    let row = match row {
        Some(row) => row,
        None => {
            return Ok(Decision::Refuse(DomainFailure::CaseNotFound));
        },
    };
    let current = decode_case(row)?;
    match refusal_of(command, &current) {
        Some(failure) => Ok(Decision::Refuse(failure)),
        None => if current.revision == i64::MAX {
            Err(StorageError::Database { operation: update_operation(&command.change) })
        } else {
            Ok(Decision::Write(plan_change(command, &current, drawn, now)))
        },
    }
}

} // verus!
