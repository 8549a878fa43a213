//! What holds of every run of a command, and how a run comes to what the command
//! means for the stored records.

use vstd::prelude::*;
use vstd::string::*;

use crate::command;
use crate::command::{ChangeView, CommandView, Drawn, PlanView, ReceiptRow, ResponseCell};
use crate::database;
use crate::database::Database;
use crate::errors::StorageErrorView;
use crate::model::{CaseView, DomainFailure, ReceiptView, ResponseView};
use crate::rows;
use crate::rows::CaseRow;
use crate::transaction;
use crate::transaction::{AnswerView, Event, StageView};

verus! {

/// Whether a row of the receipts holds a receipt.
pub open spec fn holds_receipt(row: ReceiptRow, receipt: ReceiptView) -> bool {
    &&& row.operation matches Some(operation)
    &&& operation@ == receipt.operation
    &&& row.request_hash matches Some(hash)
    &&& hash@ == receipt.request_hash
    &&& row.response matches ResponseCell::Read(response)
    &&& response@ == receipt.response
}

/// Whether every cell of a row could be read.
pub open spec fn readable(row: CaseRow) -> bool {
    &&& row.case_id is Some
    &&& row.identifier is Some
    &&& row.organization_id is Some
    &&& row.requester_subject is Some
    &&& row.creator_subject is Some
    &&& row.title is Some
    &&& row.description is Some
    &&& row.priority is Some
    &&& row.state is Some
    &&& row.assignee_subject is Some
    &&& row.revision is Some
    &&& row.created_at is Some
    &&& row.updated_at is Some
    &&& row.resolved_at is Some
    &&& row.closed_at is Some
}

/// Whether a row found is the case that was looked for.
pub open spec fn holds_case(row: Option<CaseRow>, case: Option<CaseView>) -> bool {
    match (row, case) {
        (None, None) => true,
        (Some(row), Some(case)) => readable(row) && rows::case_row_content(row) == case,
        _ => false,
    }
}

/// Whether the receipt reported for a command is the stored one.
pub open spec fn true_receipt(db: Database, command: CommandView, row: Option<ReceiptRow>) -> bool {
    match row {
        None => !db.receipts.contains_key(database::receipt_key(command)),
        Some(row) => db.receipts.contains_key(database::receipt_key(command)) && holds_receipt(
            row,
            db.receipts[database::receipt_key(command)],
        ),
    }
}

/// Whether what is reported of a command's case, or of its number, is what is stored.
pub open spec fn true_case(db: Database, command: CommandView, event: Event, now: i128) -> bool {
    if command.change is Create {
        event matches Event::Allocated { number: Some(number), now: time } && number
            == database::next_number(db, command.organization_id) && time == now
    } else {
        event matches Event::Locked { row, now: time } && holds_case(
            row,
            database::target(db, command),
        ) && time == now
    }
}

/// The database in which the rows of a plan are written.
pub open spec fn ready(db: Database, command: CommandView) -> Database {
    if command.change is Create {
        database::allocated(db, command.organization_id)
    } else {
        db
    }
}

/// What the stored receipt says decides a run as it decides the command: a run with
/// a receipt writes nothing and ends with the command's answer.
pub proof fn law_receipt_decides_the_run(
    db: Database,
    command: CommandView,
    row: Option<ReceiptRow>,
    drawn: Drawn,
    now: i128,
)
    requires
        true_receipt(db, command, row),
    ensures
        ({
            let stage = transaction::next_stage(
                command,
                StageView::ReadReceipt,
                Event::Receipt(row),
                drawn,
            );
            let (after, answer) = database::execute(db, command, drawn, now);
            if row is None {
                stage is ReadCase
            } else {
                &&& after == db
                &&& stage matches StageView::Commit { response, replay } ==> replay
                    && transaction::next_stage(command, stage, Event::Done, drawn)
                    == StageView::Finished(answer)
                &&& !(stage is Commit) ==> stage == StageView::Finished(answer)
            }
        }),
{
}

/// What is stored of its case decides a run as it decides the command: a run that
/// is refused ends with the command's answer, and one that is not has the rows to
/// write that make up the command's effect.
pub proof fn law_case_decides_the_run(
    db: Database,
    command: CommandView,
    event: Event,
    drawn: Drawn,
    now: i128,
)
    requires
        !db.receipts.contains_key(database::receipt_key(command)),
        true_case(db, command, event, now),
    ensures
        ({
            let stage = transaction::next_stage(command, StageView::ReadCase, event, drawn);
            let (after, answer) = database::execute(db, command, drawn, now);
            match stage {
                StageView::Write { plan, next } => {
                    &&& next == 0
                    &&& after == database::all_written(ready(db, command), plan.writes)
                    &&& answer == Ok::<_, StorageErrorView>(AnswerView::Done(plan.response))
                },
                _ => stage == StageView::Finished(answer) && after == db,
            }
        }),
{
}

/// A run after a number of steps that were done.
pub open spec fn after_done(command: CommandView, stage: StageView, drawn: Drawn, count: nat) -> StageView
    decreases count,
{
    if count == 0 {
        stage
    } else {
        transaction::next_stage(
            command,
            after_done(command, stage, drawn, (count - 1) as nat),
            Event::Done,
            drawn,
        )
    }
}

/// A plan is written row by row, in order, then committed, and then answered.
pub proof fn law_plan_is_written_and_committed(
    command: CommandView,
    plan: PlanView,
    drawn: Drawn,
    count: nat,
)
    requires
        plan.writes.len() > 0,
        count <= plan.writes.len() + 1,
    ensures
        after_done(command, StageView::Write { plan, next: 0 }, drawn, count) == if count
            < plan.writes.len() {
            StageView::Write { plan, next: count as int }
        } else if count == plan.writes.len() {
            StageView::Commit { response: plan.response, replay: false }
        } else {
            StageView::Finished(Ok(AnswerView::Done(plan.response)))
        },
    decreases count,
{
    if count > 0 {
        law_plan_is_written_and_committed(command, plan, drawn, (count - 1) as nat);
    }
}

/// A run through a sequence of events, each with the identifiers drawn for it.
pub open spec fn run(command: CommandView, events: Seq<(Event, Drawn)>) -> StageView
    decreases events.len(),
{
    if events.len() == 0 {
        StageView::Begin
    } else {
        transaction::next_stage(
            command,
            run(command, events.drop_last()),
            events.last().0,
            events.last().1,
        )
    }
}

/// Whether an event reports that the key of a command has no receipt.
pub open spec fn is_new(event: Event) -> bool {
    event matches Event::Receipt(None)
}

/// Whether an event reports the locked row of a case that a change is allowed on.
pub open spec fn locks_allowed_case(command: CommandView, event: Event) -> bool {
    &&& event matches Event::Locked { row: Some(row), .. }
    &&& rows::case_in(row) matches Ok(current)
    &&& current.revision == command::expected_revision(command.change)
    &&& command::refusal(command, current) is None
}

/// Whether a run has gone past the reading of its case, on the way to a change.
pub open spec fn changing(stage: StageView) -> bool {
    stage is Write || (stage matches StageView::Commit { replay, .. } && !replay)
}

proof fn lemma_run_order(command: CommandView, events: Seq<(Event, Drawn)>)
    requires
        !(command.change is Create),
    ensures
        run(command, events) is ReadCase ==> exists|i: int|
            0 <= i < events.len() && is_new(#[trigger] events[i].0),
        changing(run(command, events)) ==> exists|i: int, j: int|
            0 <= i < j < events.len() && is_new(#[trigger] events[i].0) && locks_allowed_case(
                command,
                #[trigger] events[j].0,
            ),
    decreases events.len(),
{
    if events.len() > 0 {
        let before = events.drop_last();
        let stage = run(command, before);
        let last = events.len() - 1;
        lemma_run_order(command, before);
        assert(events.last() == events[last]);
        if run(command, events) is ReadCase {
            if stage is ReadCase {
                let i = choose|i: int| 0 <= i < before.len() && is_new(#[trigger] before[i].0);
                assert(is_new(events[i].0));
            } else {
                assert(is_new(events[last].0));
            }
        }
        if changing(run(command, events)) {
            if changing(stage) {
                let (i, j) = choose|i: int, j: int|
                    0 <= i < j < before.len() && is_new(#[trigger] before[i].0)
                        && locks_allowed_case(command, #[trigger] before[j].0);
                assert(is_new(events[i].0) && locks_allowed_case(command, events[j].0));
            } else {
                let i = choose|i: int| 0 <= i < before.len() && is_new(#[trigger] before[i].0);
                assert(is_new(events[i].0));
                assert(locks_allowed_case(command, events[last].0));
            }
        }
    }
}

/// No change is written before the key was found to be new and, after that, the row
/// of the case was locked with the revision that the change expects.
pub proof fn law_lock_precedes_every_write(command: CommandView, events: Seq<(Event, Drawn)>)
    requires
        !(command.change is Create),
        changing(run(command, events)),
    ensures
        exists|i: int, j: int|
            0 <= i < j < events.len() && is_new(#[trigger] events[i].0) && locks_allowed_case(
                command,
                #[trigger] events[j].0,
            ),
{
    lemma_run_order(command, events);
}

/// A run that is over stays as it ended.
pub proof fn law_a_finished_run_stays(
    command: CommandView,
    stage: StageView,
    event: Event,
    drawn: Drawn,
)
    requires
        stage is Finished,
    ensures
        transaction::next_stage(command, stage, event, drawn) == stage,
{
}

/// A run takes its lock before it looks for its receipt, and looks for its case only
/// where there is none; what is committed is answered.
pub proof fn law_runs_go_their_way(
    command: CommandView,
    response: ResponseView,
    replay: bool,
    drawn: Drawn,
)
    ensures
        ({
            let next = |stage: StageView, event: Event|
                transaction::next_stage(command, stage, event, drawn);
            &&& next(StageView::Begin, Event::Done) == StageView::Lock
            &&& next(StageView::Lock, Event::Done) == StageView::ReadReceipt
            &&& next(StageView::ReadReceipt, Event::Receipt(None)) == StageView::ReadCase
            &&& next(StageView::Commit { response, replay }, Event::Done) == StageView::Finished(
                Ok(AnswerView::Done(response)),
            )
        }),
{
}

/// A receipt of the same operation with the same fingerprint is answered with what it
/// holds, if that is what the operation answers with; one of another operation or with
/// another fingerprint is a conflict; and one that cannot be read ends the run.
pub proof fn law_receipts_are_answered_or_refused(
    command: CommandView,
    row: ReceiptRow,
    drawn: Drawn,
)
    ensures
        ({
            let stage = transaction::next_stage(
                command,
                StageView::ReadReceipt,
                Event::Receipt(Some(row)),
                drawn,
            );
            let read = row.operation is Some && row.request_hash is Some;
            let same = read && (row.operation->0)@ == match command.change {
                ChangeView::Create { .. } => "create_case"@,
                ChangeView::Update { .. } => "update_case"@,
                ChangeView::Assign { .. } => "assign_case"@,
                ChangeView::Transition { .. } => "transition_case"@,
                ChangeView::AddMessage { .. } => "add_message"@,
            } && (row.request_hash->0)@ == command.request_hash;
            &&& row.operation is None ==> stage == StageView::Finished(
                Err(StorageErrorView::Database("decode command operation"@)),
            )
            &&& row.operation is Some && row.request_hash is None ==> stage == StageView::Finished(
                Err(StorageErrorView::Database("decode command hash"@)),
            )
            &&& read && !same ==> stage == StageView::Finished(
                Ok(AnswerView::Refused(DomainFailure::IdempotencyConflict)),
            )
            &&& same && row.response is Unreadable ==> stage == StageView::Finished(
                Err(StorageErrorView::Database("decode command response"@)),
            )
            &&& same && row.response is Malformed ==> stage == StageView::Finished(
                Err(StorageErrorView::Serialization),
            )
            &&& row.response matches ResponseCell::Read(response) ==> {
                let fits = match response@ {
                    ResponseView::Case(_) => !(command.change is AddMessage),
                    ResponseView::Message(_) => command.change is AddMessage,
                };
                &&& same && fits ==> stage == (StageView::Commit {
                    response: response@,
                    replay: true,
                })
                &&& same && !fits ==> stage == StageView::Finished(
                    Err(StorageErrorView::Serialization),
                )
            }
        }),
{
}

/// A case is opened under the number that was allocated; one that cannot be read or is
/// not positive ends the run, and so does a response that cannot be stored.
pub proof fn law_allocations_are_positive(
    command: CommandView,
    number: Option<i64>,
    plan: PlanView,
    at: int,
    drawn: Drawn,
    now: i128,
)
    requires
        command.change is Create,
    ensures
        ({
            let stage = transaction::next_stage(
                command,
                StageView::ReadCase,
                Event::Allocated { number, now },
                drawn,
            );
            &&& number is None ==> stage == StageView::Finished(
                Err(StorageErrorView::Database("decode case identifier"@)),
            )
            &&& number is Some && number->0 <= 0 ==> stage == StageView::Finished(
                Err(StorageErrorView::InvalidStoredData("case sequence is not positive"@)),
            )
            &&& number is Some && number->0 > 0 ==> stage is Write && stage->next == 0
        }),
        transaction::next_stage(
            command,
            StageView::Write { plan, next: at },
            Event::Unserialized,
            drawn,
        ) == StageView::Finished(Err(StorageErrorView::Serialization)),
{
}

/// A change to a case that there is not, or that is at another revision, is refused; a
/// case whose revision cannot be raised ends the run.
pub proof fn law_locked_cases_are_changed_or_not(
    command: CommandView,
    row: Option<CaseRow>,
    drawn: Drawn,
    now: i128,
)
    requires
        !(command.change is Create),
    ensures
        ({
            let stage = transaction::next_stage(
                command,
                StageView::ReadCase,
                Event::Locked { row, now },
                drawn,
            );
            let expected = match command.change {
                ChangeView::Create { .. } => 0i64,
                ChangeView::Update { expected_revision, .. } => expected_revision,
                ChangeView::Assign { expected_revision, .. } => expected_revision,
                ChangeView::Transition { expected_revision, .. } => expected_revision,
                ChangeView::AddMessage { expected_revision, .. } => expected_revision,
            };
            &&& row is None ==> stage == StageView::Finished(
                Ok(AnswerView::Refused(DomainFailure::CaseNotFound)),
            )
            &&& row matches Some(found) ==> match rows::case_in(found) {
                Err(error) => stage == StageView::Finished(Err(error)),
                Ok(case) => {
                    let forbidden = command.change matches ChangeView::AddMessage {
                        can_comment_all,
                        ..
                    } && !can_comment_all && case.requester_subject != command.actor
                        && case.creator_subject != command.actor && case.assignee_subject != Some(
                        command.actor,
                    );
                    &&& forbidden ==> stage == StageView::Finished(
                        Ok(AnswerView::Refused(DomainFailure::Forbidden)),
                    )
                    &&& !forbidden && case.revision != expected ==> stage == StageView::Finished(
                        Ok(AnswerView::Refused(DomainFailure::RevisionConflict)),
                    )
                    &&& !forbidden && case.revision == expected && case.revision < i64::MAX
                        && !(command.change is Transition) ==> stage is Write && stage->next == 0
                },
            }
        }),
{
}

/// Whether a stage of a run waits for an event.
pub open spec fn awaits(command: CommandView, stage: StageView, event: Event) -> bool {
    match stage {
        StageView::Begin => event is Done || event is Failed,
        StageView::Lock => event is Done || event is Failed,
        StageView::ReadReceipt => event is Receipt || event is Failed,
        StageView::ReadCase => event is Failed || if command.change is Create {
            event is Allocated
        } else {
            event is Locked
        },
        StageView::Write { .. } => event is Done || event is Failed || event is Unserialized,
        StageView::Commit { .. } => event is Done || event is Failed,
        StageView::Finished(_) => false,
    }
}

/// An event that a stage does not wait for changes nothing.
pub proof fn law_stray_events_leave_a_run(
    command: CommandView,
    stage: StageView,
    event: Event,
    drawn: Drawn,
)
    requires
        !awaits(command, stage, event),
    ensures
        transaction::next_stage(command, stage, event, drawn) == stage,
{
}

} // verus!
