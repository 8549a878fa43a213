//! What each command does to the stored records, told by its inputs and by what is
//! stored before and after.

use vstd::prelude::*;
use vstd::string::*;

use crate::command;
use crate::command::{ChangeView, CommandView, Drawn, WriteView};
use crate::database;
use crate::database::Database;
use crate::decimal;
use crate::errors::StorageErrorView;
use crate::lifecycle;
use crate::model::{CaseState, CaseView, DomainFailure, EntryView, ResponseView};
use crate::outside;
use crate::transaction::AnswerView;

verus! {

/// Whether a command is done for the first time.
pub open spec fn done(db: Database, command: CommandView, drawn: Drawn, now: i128) -> bool {
    &&& !db.receipts.contains_key((command.caller, command.idempotency_key))
    &&& database::execute(db, command, drawn, now).1 matches Ok(AnswerView::Done(_))
}

/// Whether nothing about a case but its revision and the time it was touched differs.
pub open spec fn only_touched(before: CaseView, after: CaseView, now: i128) -> bool {
    &&& after.case_id == before.case_id
    &&& after.identifier == before.identifier
    &&& after.organization_id == before.organization_id
    &&& after.requester_subject == before.requester_subject
    &&& after.creator_subject == before.creator_subject
    &&& after.created_at == before.created_at
    &&& after.revision == before.revision + 1
    &&& after.updated_at == now
}

/// Whether the texts and the priority of a case stay.
pub open spec fn same_content(before: CaseView, after: CaseView) -> bool {
    &&& after.title == before.title
    &&& after.description == before.description
    &&& after.priority == before.priority
}

/// Whether a case stays where it stands in its lifecycle.
pub open spec fn same_standing(before: CaseView, after: CaseView) -> bool {
    &&& after.state == before.state
    &&& after.resolved_at == before.resolved_at
    &&& after.closed_at == before.closed_at
}

/// An update that is done leaves every field that it gives as given and every other
/// field as it was. It is answered with the case as it is then stored.
pub proof fn law_updates_leave_what_is_given(
    db: Database,
    command: CommandView,
    drawn: Drawn,
    now: i128,
    case_id: u128,
    expected_revision: i64,
    title: Option<Seq<char>>,
    description: Option<Seq<char>>,
    priority: Option<Seq<char>>,
)
    requires
        database::consistent(db),
        done(db, command, drawn, now),
        command.change == (ChangeView::Update {
            case_id,
            expected_revision,
            title,
            description,
            priority,
        }),
    ensures
        ({
            let (end, answer) = database::execute(db, command, drawn, now);
            let before = db.cases[case_id];
            let after = end.cases[case_id];
            &&& db.cases.contains_key(case_id) && end.cases.contains_key(case_id)
            &&& before.organization_id == command.organization_id
            &&& before.revision == expected_revision
            &&& title matches Some(given) ==> after.title == given
            &&& title is None ==> after.title == before.title
            &&& description matches Some(given) ==> after.description == given
            &&& description is None ==> after.description == before.description
            &&& priority matches Some(given) ==> after.priority == given
            &&& priority is None ==> after.priority == before.priority
            &&& after.assignee_subject == before.assignee_subject
            &&& same_standing(before, after)
            &&& only_touched(before, after, now)
            &&& answer == Ok::<_, StorageErrorView>(AnswerView::Done(ResponseView::Case(after)))
            &&& end.messages == db.messages
        }),
{
    database::lemma_change_effect(db, command, drawn, now);
}

/// An assignment that is done leaves the assignee that it names, or none, and every
/// other field as it was. It is answered with the case as it is then stored.
pub proof fn law_assignments_leave_the_assignee(
    db: Database,
    command: CommandView,
    drawn: Drawn,
    now: i128,
    case_id: u128,
    expected_revision: i64,
    assignee_subject: Option<Seq<char>>,
)
    requires
        database::consistent(db),
        done(db, command, drawn, now),
        command.change == (ChangeView::Assign { case_id, expected_revision, assignee_subject }),
    ensures
        ({
            let (end, answer) = database::execute(db, command, drawn, now);
            let before = db.cases[case_id];
            let after = end.cases[case_id];
            &&& db.cases.contains_key(case_id) && end.cases.contains_key(case_id)
            &&& before.organization_id == command.organization_id
            &&& before.revision == expected_revision
            &&& after.assignee_subject == assignee_subject
            &&& same_content(before, after)
            &&& same_standing(before, after)
            &&& only_touched(before, after, now)
            &&& answer == Ok::<_, StorageErrorView>(AnswerView::Done(ResponseView::Case(after)))
            &&& end.messages == db.messages
        }),
{
    database::lemma_change_effect(db, command, drawn, now);
}

/// A transition that is done leaves the state asked for. Resolving and closing leave
/// the time at which they happened, reopening takes both times away, and nothing else
/// about the case differs. It is answered with the case as it is then stored.
pub proof fn law_transitions_leave_the_state(
    db: Database,
    command: CommandView,
    drawn: Drawn,
    now: i128,
    case_id: u128,
    expected_revision: i64,
    target_state: Seq<char>,
    reason: Option<Seq<char>>,
)
    requires
        database::consistent(db),
        done(db, command, drawn, now),
        command.change == (ChangeView::Transition {
            case_id,
            expected_revision,
            target_state,
            reason,
        }),
    ensures
        ({
            let (end, answer) = database::execute(db, command, drawn, now);
            let before = db.cases[case_id];
            let after = end.cases[case_id];
            &&& db.cases.contains_key(case_id) && end.cases.contains_key(case_id)
            &&& before.organization_id == command.organization_id
            &&& before.revision == expected_revision
            &&& after.state == target_state
            &&& target_state == "resolved"@ ==> after.resolved_at == Some(now) && after.closed_at
                == before.closed_at
            &&& target_state == "closed"@ ==> after.closed_at == Some(now) && after.resolved_at
                == before.resolved_at
            &&& target_state == "in_progress"@ ==> after.resolved_at is None && after.closed_at
                is None
            &&& target_state == "waiting_customer"@ ==> after.resolved_at == before.resolved_at
                && after.closed_at == before.closed_at
            &&& after.assignee_subject == before.assignee_subject
            &&& same_content(before, after)
            &&& only_touched(before, after, now)
            &&& answer == Ok::<_, StorageErrorView>(AnswerView::Done(ResponseView::Case(after)))
            &&& end.messages == db.messages
        }),
{
    database::lemma_change_effect(db, command, drawn, now);
    lifecycle::lemma_state_names_differ();
}

/// A message that is added is stored, and answered, with the visibility, body and
/// author of its command, in the case that the command names and at the revision that
/// it makes. Nothing about the case but its revision differs.
pub proof fn law_messages_are_stored_as_given(
    db: Database,
    command: CommandView,
    drawn: Drawn,
    now: i128,
    case_id: u128,
    expected_revision: i64,
    can_comment_all: bool,
    visibility: Seq<char>,
    body: Seq<char>,
)
    requires
        database::consistent(db),
        done(db, command, drawn, now),
        command.change == (ChangeView::AddMessage {
            case_id,
            expected_revision,
            can_comment_all,
            visibility,
            body,
        }),
    ensures
        ({
            let (end, answer) = database::execute(db, command, drawn, now);
            let before = db.cases[case_id];
            let after = end.cases[case_id];
            let message = end.messages[drawn.record_id];
            &&& db.cases.contains_key(case_id) && end.cases.contains_key(case_id)
            &&& end.messages.contains_key(drawn.record_id)
            &&& before.organization_id == command.organization_id
            &&& before.revision == expected_revision
            &&& message.visibility == visibility
            &&& message.body == body
            &&& message.author_subject == command.actor
            &&& message.case_id == case_id
            &&& message.message_id == drawn.record_id
            &&& message.created_at == now
            &&& message.case_revision == after.revision
            &&& after.assignee_subject == before.assignee_subject
            &&& same_content(before, after)
            &&& same_standing(before, after)
            &&& only_touched(before, after, now)
            &&& answer == Ok::<_, StorageErrorView>(
                AnswerView::Done(ResponseView::Message(message)),
            )
            &&& forall|id: u128| #[trigger]
                end.messages.contains_key(id) && id != drawn.record_id
                    ==> db.messages.contains_key(id) && end.messages[id] == db.messages[id]
        }),
{
    database::lemma_change_effect(db, command, drawn, now);
}

/// A new case is open and unassigned at revision one, with the texts and the priority
/// of its command. Its actor is requester and creator, and its identifier the next
/// number of the organization, which is then used up. It is answered as it is stored.
pub proof fn law_new_cases_are_open(
    db: Database,
    command: CommandView,
    drawn: Drawn,
    now: i128,
    title: Seq<char>,
    description: Seq<char>,
    priority: Seq<char>,
)
    requires
        database::consistent(db),
        !db.receipts.contains_key((command.caller, command.idempotency_key)),
        command.change == (ChangeView::Create { title, description, priority }),
    ensures
        done(db, command, drawn, now),
        ({
            let (end, answer) = database::execute(db, command, drawn, now);
            let case = end.cases[drawn.record_id];
            let number = if db.sequences.contains_key(command.organization_id) {
                db.sequences[command.organization_id]
            } else {
                1
            };
            &&& end.cases.contains_key(drawn.record_id)
            &&& case.case_id == drawn.record_id
            &&& case.identifier == "SUP-"@ + decimal::integer_text(number)
            &&& end.sequences.contains_key(command.organization_id)
            &&& end.sequences[command.organization_id] == number + 1
            &&& forall|other: Seq<char>| #[trigger]
                end.sequences.contains_key(other) && other != command.organization_id
                    ==> db.sequences.contains_key(other) && end.sequences[other]
                    == db.sequences[other]
            &&& case.organization_id == command.organization_id
            &&& case.requester_subject == command.actor
            &&& case.creator_subject == command.actor
            &&& case.title == title
            &&& case.description == description
            &&& case.priority == priority
            &&& case.state == "open"@
            &&& case.assignee_subject is None
            &&& case.revision == 1
            &&& case.created_at == now
            &&& case.updated_at == now
            &&& case.resolved_at is None
            &&& case.closed_at is None
            &&& answer == Ok::<_, StorageErrorView>(AnswerView::Done(ResponseView::Case(case)))
            &&& end.messages == db.messages
        }),
{
    assert(0 < database::next_number(db, command.organization_id));
    database::lemma_creation_effect(db, command, drawn, now);
}

/// Whether a change is about a case at a revision.
pub open spec fn aims_at(change: ChangeView, case: u128, revision: i64) -> bool {
    match change {
        ChangeView::Create { .. } => false,
        ChangeView::Update { case_id, expected_revision, .. } => case_id == case
            && expected_revision == revision,
        ChangeView::Assign { case_id, expected_revision, .. } => case_id == case
            && expected_revision == revision,
        ChangeView::Transition { case_id, expected_revision, .. } => case_id == case
            && expected_revision == revision,
        ChangeView::AddMessage { case_id, expected_revision, .. } => case_id == case
            && expected_revision == revision,
    }
}

/// Whether the promised lifecycle lets a state follow another.
pub open spec fn may_follow(current: CaseState, target: CaseState) -> bool {
    match target {
        CaseState::Open => false,
        CaseState::InProgress => !(current is InProgress),
        CaseState::WaitingCustomer => current is InProgress,
        CaseState::Resolved => current is InProgress || current is WaitingCustomer,
        CaseState::Closed => current is Resolved,
    }
}

/// Of two states the lifecycle allows the one to follow the other just where a case is
/// taken up from any other state, waits while in progress, is resolved while it is
/// worked on or waits, and is closed once resolved. No other text is a state.
pub proof fn law_lifecycle_is_as_promised(current: Seq<char>, target: Seq<char>)
    ensures
        lifecycle::allowed_transition(current, target) <==> match (
            lifecycle::state_named(current),
            lifecycle::state_named(target),
        ) {
            (Some(from), Some(to)) => may_follow(from, to),
            _ => false,
        },
        lifecycle::state_named("open"@) == Some(CaseState::Open),
        lifecycle::state_named("in_progress"@) == Some(CaseState::InProgress),
        lifecycle::state_named("waiting_customer"@) == Some(CaseState::WaitingCustomer),
        lifecycle::state_named("resolved"@) == Some(CaseState::Resolved),
        lifecycle::state_named("closed"@) == Some(CaseState::Closed),
{
    lifecycle::lemma_state_names_differ();
}

/// A change under a new key is refused for one of four reasons, told in this order,
/// and done otherwise: its organization has no such case; a message comes from someone
/// who neither may write everywhere nor is requester, creator or assignee; the case is
/// at another revision; the lifecycle forbids the transition. Only a case at the last
/// revision there is has no next one.
pub proof fn law_changes_are_done_unless_refused(
    db: Database,
    command: CommandView,
    drawn: Drawn,
    now: i128,
    case_id: u128,
    expected_revision: i64,
)
    requires
        database::consistent(db),
        !db.receipts.contains_key((command.caller, command.idempotency_key)),
        aims_at(command.change, case_id, expected_revision),
    ensures
        ({
            let (end, answer) = database::execute(db, command, drawn, now);
            let case = db.cases[case_id];
            let stranger = case.requester_subject != command.actor && case.creator_subject
                != command.actor && case.assignee_subject != Some(command.actor);
            if !db.cases.contains_key(case_id) || case.organization_id != command.organization_id {
                answer == Ok::<_, StorageErrorView>(
                    AnswerView::Refused(DomainFailure::CaseNotFound),
                ) && end == db
            } else if command.change is AddMessage && !command.change->can_comment_all && stranger {
                answer == Ok::<_, StorageErrorView>(
                    AnswerView::Refused(DomainFailure::Forbidden),
                ) && end == db
            } else if case.revision != expected_revision {
                answer == Ok::<_, StorageErrorView>(
                    AnswerView::Refused(DomainFailure::RevisionConflict),
                ) && end == db
            } else if command.change is Transition && !lifecycle::allowed_transition(
                case.state,
                command.change->target_state,
            ) {
                answer == Ok::<_, StorageErrorView>(
                    AnswerView::Refused(DomainFailure::InvalidTransition),
                ) && end == db
            } else if case.revision == i64::MAX {
                answer is Err && end == db
            } else {
                done(db, command, drawn, now)
            }
        }),
{
}

/// Every command that is done leaves its receipt: the operation under its name, the
/// fingerprint of the request, the case it is about, and the answer that was given.
pub proof fn law_receipts_keep_the_answer(
    db: Database,
    command: CommandView,
    drawn: Drawn,
    now: i128,
)
    requires
        database::consistent(db),
        done(db, command, drawn, now),
    ensures
        ({
            let (end, answer) = database::execute(db, command, drawn, now);
            let key = (command.caller, command.idempotency_key);
            let receipt = end.receipts[key];
            &&& end.receipts.contains_key(key)
            &&& receipt.caller_instance == command.caller
            &&& receipt.idempotency_key == command.idempotency_key
            &&& receipt.organization_id == command.organization_id
            &&& receipt.request_hash == command.request_hash
            &&& answer == Ok::<_, StorageErrorView>(AnswerView::Done(receipt.response))
            &&& receipt.operation == match command.change {
                ChangeView::Create { .. } => "create_case"@,
                ChangeView::Update { .. } => "update_case"@,
                ChangeView::Assign { .. } => "assign_case"@,
                ChangeView::Transition { .. } => "transition_case"@,
                ChangeView::AddMessage { .. } => "add_message"@,
            }
            &&& receipt.case_id == match command.change {
                ChangeView::Create { .. } => drawn.record_id,
                ChangeView::Update { case_id, .. } => case_id,
                ChangeView::Assign { case_id, .. } => case_id,
                ChangeView::Transition { case_id, .. } => case_id,
                ChangeView::AddMessage { case_id, .. } => case_id,
            }
        }),
{
    if command.change is Create {
        database::lemma_creation_effect(db, command, drawn, now);
    } else {
        database::lemma_change_effect(db, command, drawn, now);
    }
}

/// Every command that is done enters the history of its case: who did what, when, at
/// which revision. An assignment tells the assignee, a transition both states and the
/// reason, a message its identifier and visibility, a creation the identifier.
pub proof fn law_history_tells_what_happened(
    db: Database,
    command: CommandView,
    drawn: Drawn,
    now: i128,
)
    requires
        database::consistent(db),
        done(db, command, drawn, now),
    ensures
        ({
            let end = database::execute(db, command, drawn, now).0;
            let entry = end.activities[drawn.activity_id];
            let case = end.cases[entry.case_id];
            let told = |key: Seq<char>, value: Option<Seq<char>>|
                entry.payload.contains(EntryView { key, value });
            &&& end.activities.contains_key(drawn.activity_id)
            &&& entry.activity_id == drawn.activity_id
            &&& entry.organization_id == command.organization_id
            &&& entry.actor_subject == command.actor
            &&& entry.created_at == now
            &&& end.cases.contains_key(entry.case_id)
            &&& entry.case_revision == case.revision
            &&& match command.change {
                ChangeView::Create { .. } => {
                    &&& entry.kind == "case.created"@
                    &&& entry.case_id == drawn.record_id
                    &&& entry.payload.len() == 1
                    &&& told("identifier"@, Some(case.identifier))
                },
                ChangeView::Update { case_id, .. } => {
                    &&& entry.kind == "case.updated"@
                    &&& entry.case_id == case_id
                    &&& entry.payload.len() == 0
                },
                ChangeView::Assign { case_id, assignee_subject, .. } => {
                    &&& entry.kind == "case.assigned"@
                    &&& entry.case_id == case_id
                    &&& entry.payload.len() == 1
                    &&& told("assignee_subject"@, assignee_subject)
                },
                ChangeView::Transition { case_id, target_state, reason, .. } => {
                    &&& entry.kind == "case.transitioned"@
                    &&& entry.case_id == case_id
                    &&& entry.payload.len() == 3
                    &&& told("from"@, Some(db.cases[case_id].state))
                    &&& told("to"@, Some(target_state))
                    &&& told("reason"@, reason)
                },
                ChangeView::AddMessage { case_id, visibility, .. } => {
                    &&& entry.kind == "message.added"@
                    &&& entry.case_id == case_id
                    &&& entry.payload.len() == 2
                    &&& told("message_id"@, Some(outside::uuid_text(drawn.record_id)))
                    &&& told("visibility"@, Some(visibility))
                },
            }
            &&& forall|id: u128| #[trigger]
                end.activities.contains_key(id) && id != drawn.activity_id
                    ==> db.activities.contains_key(id) && end.activities[id] == db.activities[id]
        }),
{
    if command.change is Create {
        database::lemma_creation_effect(db, command, drawn, now);
    } else {
        database::lemma_change_effect(db, command, drawn, now);
    }
    let end = database::execute(db, command, drawn, now).0;
    let payload = end.activities[drawn.activity_id].payload;
    if payload.len() > 0 {
        assert(payload.contains(payload[0]));
    }
    if payload.len() > 1 {
        assert(payload.contains(payload[1]));
    }
    if payload.len() > 2 {
        assert(payload.contains(payload[2]));
    }
}

/// A plan writes each of its rows once: a creation the case, its entry in the history and
/// its receipt; a change the case, the message if it adds one, and the same two. What it
/// writes last is its receipt, with the answer that it gives.
pub proof fn law_plans_write_each_row_once(
    command: CommandView,
    current: CaseView,
    number: int,
    drawn: Drawn,
    now: i128,
)
    ensures
        ({
            let plan = command::creation_plan(command, number, drawn, now);
            &&& plan.writes.len() == 3
            &&& plan.writes[0] is InsertCase
            &&& plan.writes[1] is InsertActivity
            &&& plan.writes[2] matches WriteView::SaveReceipt(receipt) && receipt.response
                == plan.response
        }),
        ({
            let plan = command::change_plan(command, current, drawn, now);
            let more = if command.change is AddMessage {
                1int
            } else {
                0int
            };
            &&& plan.writes.len() == 3 + more
            &&& plan.writes[0] is UpdateCase
            &&& command.change is AddMessage ==> plan.writes[1] is InsertMessage
            &&& plan.writes[1 + more] is InsertActivity
            &&& plan.writes[2 + more] matches WriteView::SaveReceipt(receipt) && receipt.response
                == plan.response
        }),
{
}

} // verus!
