//! How a command runs inside one database transaction.
//!
//! The run says what to do next; its host does it and reports the event. The lock
//! of the key comes first, then the receipt, then the number or the locked row of
//! the case, and only then anything is written.

use vstd::prelude::*;
use vstd::string::*;

use crate::command;
use crate::command::{
    command_replay, decide_change, decide_creation, lock_text, update_operation, Change, ChangeView,
    Command, CommandView, Decision, DecisionView, Drawn, Plan, PlanView, ReceiptRow, Replay,
    ReplayView, Write, WriteView,
};
use crate::errors::{StorageError, StorageErrorView};
use crate::model::{DomainFailure, ResponseView, StoredResponse};
use crate::outside;
use crate::outside::random_uuid;
use crate::rows;
use crate::rows::CaseRow;

verus! {

/// How a command ended.
#[derive(Debug, Eq, PartialEq)]
pub enum Answer {
    Done(StoredResponse),
    Refused(DomainFailure),
}

/// The view of an answer.
pub enum AnswerView {
    Done(ResponseView),
    Refused(DomainFailure),
}

impl View for Answer {
    type V = AnswerView;

    open spec fn view(&self) -> AnswerView {
        match self {
            Answer::Done(response) => AnswerView::Done(response@),
            Answer::Refused(failure) => AnswerView::Refused(*failure),
        }
    }
}

/// Where a run stands: what is to be done next.
#[derive(Debug, Eq, PartialEq)]
pub enum Stage {
    Begin,
    Lock,
    ReadReceipt,
    ReadCase,
    Write { plan: Plan, next: usize },
    Commit { response: StoredResponse, replay: bool },
    Finished(Result<Answer, StorageError>),
}

/// The view of a stage.
pub enum StageView {
    Begin,
    Lock,
    ReadReceipt,
    ReadCase,
    Write { plan: PlanView, next: int },
    Commit { response: ResponseView, replay: bool },
    Finished(Result<AnswerView, StorageErrorView>),
}

impl View for Stage {
    type V = StageView;

    open spec fn view(&self) -> StageView {
        match self {
            Stage::Begin => StageView::Begin,
            Stage::Lock => StageView::Lock,
            Stage::ReadReceipt => StageView::ReadReceipt,
            Stage::ReadCase => StageView::ReadCase,
            Stage::Write { plan, next } => StageView::Write { plan: plan@, next: *next as int },
            Stage::Commit { response, replay } => StageView::Commit {
                response: response@,
                replay: *replay,
            },
            Stage::Finished(outcome) => StageView::Finished(rows::viewed(*outcome)),
        }
    }
}

/// What the host reports.
#[derive(Debug, Eq, PartialEq)]
pub enum Event {
    /// The step was done.
    Done,
    /// The database refused the step.
    Failed,
    /// The row to write could not be put into its stored form.
    Unserialized,
    /// The receipt under the command's key, if there is one.
    Receipt(Option<ReceiptRow>),
    /// The number that was allocated, and the time of the transaction.
    Allocated { number: Option<i64>, now: i128 },
    /// The locked row of the case, if there is one, and the time of the transaction.
    Locked { row: Option<CaseRow>, now: i128 },
}

/// What the host does next.
#[derive(Debug, Eq, PartialEq)]
pub enum Action<'a> {
    Begin,
    AcquireLock { key: String },
    ReadReceipt { caller: &'a str, idempotency_key: &'a str },
    AllocateNumber { organization_id: &'a str },
    LockCase { organization_id: &'a str, case_id: u128 },
    Apply(&'a Write),
    Commit,
    Finish,
}

/// The statement that opens the transaction of a change.
pub open spec fn begin_label(change: ChangeView) -> Seq<char> {
    match change {
        ChangeView::Create { .. } => "begin case creation"@,
        ChangeView::Update { .. } => "begin case update"@,
        ChangeView::Assign { .. } => "begin case assignment"@,
        ChangeView::Transition { .. } => "begin case transition"@,
        ChangeView::AddMessage { .. } => "begin message creation"@,
    }
}

/// The statement that reads what a change is about.
pub open spec fn read_label(change: ChangeView) -> Seq<char> {
    if change is Create {
        "allocate case identifier"@
    } else {
        "lock support case"@
    }
}

/// The statement that writes a row.
pub open spec fn write_label(change: ChangeView, write: WriteView) -> Seq<char> {
    match write {
        WriteView::InsertCase(_) => "insert support case"@,
        WriteView::UpdateCase(_) => command::update_label(change),
        WriteView::InsertMessage(_) => "insert support case message"@,
        WriteView::InsertActivity(_) => "insert support case activity"@,
        WriteView::SaveReceipt(_) => "store command response"@,
    }
}

/// The statement that commits a change, or its replay.
pub open spec fn commit_label(change: ChangeView, replay: bool) -> Seq<char> {
    match (change, replay) {
        (ChangeView::Create { .. }, true) => "commit case creation replay"@,
        (ChangeView::Create { .. }, false) => "commit case creation"@,
        (ChangeView::Update { .. }, true) => "commit case update replay"@,
        (ChangeView::Update { .. }, false) => "commit case update"@,
        (ChangeView::Assign { .. }, true) => "commit case assignment replay"@,
        (ChangeView::Assign { .. }, false) => "commit case assignment"@,
        (ChangeView::Transition { .. }, true) => "commit case transition replay"@,
        (ChangeView::Transition { .. }, false) => "commit case transition"@,
        (ChangeView::AddMessage { .. }, true) => "commit message replay"@,
        (ChangeView::AddMessage { .. }, false) => "commit message creation"@,
    }
}

/// The statement that a stage waits for.
pub open spec fn stage_label(change: ChangeView, stage: StageView) -> Seq<char> {
    match stage {
        StageView::Begin => begin_label(change),
        StageView::Lock => "acquire idempotency lock"@,
        StageView::ReadReceipt => "read command replay"@,
        StageView::ReadCase => read_label(change),
        StageView::Write { plan, next } => write_label(change, plan.writes[next]),
        StageView::Commit { replay, .. } => commit_label(change, replay),
        StageView::Finished(_) => ""@,
    }
}

/// Where a run goes once the command is decided.
pub open spec fn after_decision(decision: Result<DecisionView, StorageErrorView>) -> StageView {
    match decision {
        Err(error) => StageView::Finished(Err(error)),
        Ok(DecisionView::Refuse(failure)) => StageView::Finished(Ok(AnswerView::Refused(failure))),
        Ok(DecisionView::Write(plan)) => StageView::Write { plan, next: 0 },
    }
}

/// Where a run goes once the receipt is read.
pub open spec fn after_receipt(replay: Result<ReplayView, StorageErrorView>) -> StageView {
    match replay {
        Err(error) => StageView::Finished(Err(error)),
        Ok(ReplayView::Proceed) => StageView::ReadCase,
        Ok(ReplayView::Answer(response)) => StageView::Commit { response, replay: true },
        Ok(ReplayView::Refuse(failure)) => StageView::Finished(Ok(AnswerView::Refused(failure))),
    }
}

/// The stage that follows an event. An event that the stage does not wait for
/// changes nothing.
pub open spec fn next_stage(
    command: CommandView,
    stage: StageView,
    event: Event,
    drawn: Drawn,
) -> StageView {
    match (stage, event) {
        (StageView::Finished(_), _) => stage,
        (_, Event::Failed) => StageView::Finished(
            Err(StorageErrorView::Database(stage_label(command.change, stage))),
        ),
        (StageView::Begin, Event::Done) => StageView::Lock,
        (StageView::Lock, Event::Done) => StageView::ReadReceipt,
        (StageView::ReadReceipt, Event::Receipt(row)) => after_receipt(
            command::replay_of(command, row),
        ),
        (StageView::ReadCase, Event::Allocated { number, now }) => if command.change is Create {
            after_decision(command::creation_decision(command, number, drawn, now))
        } else {
            stage
        },
        (StageView::ReadCase, Event::Locked { row, now }) => if command.change is Create {
            stage
        } else {
            after_decision(command::change_decision(command, row, drawn, now))
        },
        (StageView::Write { plan, next }, Event::Done) => if next + 1 < plan.writes.len() {
            StageView::Write { plan, next: next + 1 }
        } else {
            StageView::Commit { response: plan.response, replay: false }
        },
        (StageView::Write { .. }, Event::Unserialized) => StageView::Finished(
            Err(StorageErrorView::Serialization),
        ),
        (StageView::Commit { response, .. }, Event::Done) => StageView::Finished(
            Ok(AnswerView::Done(response)),
        ),
        _ => stage,
    }
}

/// One command on its way through a transaction.
#[derive(Debug, Eq, PartialEq)]
pub struct CommandRun {
    pub command: Command,
    pub stage: Stage,
}

/// Whether a run stands where a run can stand.
pub open spec fn stage_valid(stage: StageView) -> bool {
    stage matches StageView::Write { plan, next } ==> 0 <= next < plan.writes.len()
}

impl CommandRun {
    /// A run is valid when a stage that writes has a row left to write.
    pub open spec fn valid(self) -> bool {
        stage_valid(self.stage@)
    }

    /// A run that has not begun.
    pub fn start(command: Command) -> (run: CommandRun)
        ensures
            run.command == command,
            run.stage@ == StageView::Begin,
            run.valid(),
    {
        CommandRun { command, stage: Stage::Begin }
    }

    fn begin_text(&self) -> (text: &'static str)
        ensures
            text@ == begin_label(self.command.change@),
    {
        match &self.command.change {
            Change::Create { .. } => "begin case creation",
            Change::Update { .. } => "begin case update",
            Change::Assign { .. } => "begin case assignment",
            Change::Transition { .. } => "begin case transition",
            Change::AddMessage { .. } => "begin message creation",
        }
    }

    fn read_text(&self) -> (text: &'static str)
        ensures
            text@ == read_label(self.command.change@),
    {
        match &self.command.change {
            Change::Create { .. } => "allocate case identifier",
            _ => "lock support case",
        }
    }

    fn write_text(&self, write: &Write) -> (text: &'static str)
        ensures
            text@ == write_label(self.command.change@, write@),
    {
        match write {
            Write::InsertCase(_) => "insert support case",
            Write::UpdateCase(_) => update_operation(&self.command.change),
            Write::InsertMessage(_) => "insert support case message",
            Write::InsertActivity(_) => "insert support case activity",
            Write::SaveReceipt(_) => "store command response",
        }
    }

    fn commit_text(&self, replay: bool) -> (text: &'static str)
        ensures
            text@ == commit_label(self.command.change@, replay),
    {
        match (&self.command.change, replay) {
            (Change::Create { .. }, true) => "commit case creation replay",
            (Change::Create { .. }, false) => "commit case creation",
            (Change::Update { .. }, true) => "commit case update replay",
            (Change::Update { .. }, false) => "commit case update",
            (Change::Assign { .. }, true) => "commit case assignment replay",
            (Change::Assign { .. }, false) => "commit case assignment",
            (Change::Transition { .. }, true) => "commit case transition replay",
            (Change::Transition { .. }, false) => "commit case transition",
            (Change::AddMessage { .. }, true) => "commit message replay",
            (Change::AddMessage { .. }, false) => "commit message creation",
        }
    }

    /// The statement that the run waits for, by which its failure is known.
    pub fn label(&self) -> (text: &'static str)
        requires
            self.valid(),
        ensures
            text@ == stage_label(self.command.change@, self.stage@),
    {
        match &self.stage {
            Stage::Begin => self.begin_text(),
            Stage::Lock => "acquire idempotency lock",
            Stage::ReadReceipt => "read command replay",
            Stage::ReadCase => self.read_text(),
            Stage::Write { plan, next } => {
                assert(plan@.writes[*next as int] == plan.writes@[*next as int]@);
                self.write_text(&plan.writes[*next])
            },
            Stage::Commit { replay, .. } => self.commit_text(*replay),
            Stage::Finished(_) => "",
        }
    }

    /// What the host does next.
    pub fn action(&self) -> (action: Action<'_>)
        requires
            self.valid(),
        ensures
            match self.stage@ {
                StageView::Begin => action is Begin,
                StageView::Lock => action matches Action::AcquireLock { key } && key@
                    == command::command_lock(self.command@),
                StageView::ReadReceipt => action matches Action::ReadReceipt {
                    caller,
                    idempotency_key,
                } && caller@ == self.command@.caller && idempotency_key@
                    == self.command@.idempotency_key,
                StageView::ReadCase => if self.command.change is Create {
                    action matches Action::AllocateNumber { organization_id } && organization_id@
                        == self.command@.organization_id
                } else {
                    action matches Action::LockCase { organization_id, case_id }
                        && organization_id@ == self.command@.organization_id && case_id
                        == command::target_case(self.command@.change)
                },
                StageView::Write { plan, next } => action matches Action::Apply(write) && write@
                    == plan.writes[next],
                StageView::Commit { .. } => action is Commit,
                StageView::Finished(_) => action is Finish,
            },
    {
        match &self.stage {
            Stage::Begin => Action::Begin,
            Stage::Lock => Action::AcquireLock { key: lock_text(&self.command) },
            Stage::ReadReceipt => Action::ReadReceipt {
                caller: self.command.caller.as_str(),
                idempotency_key: self.command.idempotency_key.as_str(),
            },
            Stage::ReadCase => {
                let organization_id = self.command.organization_id.as_str();
                match &self.command.change {
                    Change::Create { .. } => Action::AllocateNumber { organization_id },
                    Change::Update { case_id, .. } => Action::LockCase {
                        organization_id,
                        case_id: *case_id,
                    },
                    Change::Assign { case_id, .. } => Action::LockCase {
                        organization_id,
                        case_id: *case_id,
                    },
                    Change::Transition { case_id, .. } => Action::LockCase {
                        organization_id,
                        case_id: *case_id,
                    },
                    Change::AddMessage { case_id, .. } => Action::LockCase {
                        organization_id,
                        case_id: *case_id,
                    },
                }
            },
            Stage::Write { plan, next } => {
                assert(plan@.writes[*next as int] == plan.writes@[*next as int]@);
                Action::Apply(&plan.writes[*next])
            },
            Stage::Commit { .. } => Action::Commit,
            Stage::Finished(_) => Action::Finish,
        }
    }

    /// Goes on after an event, with identifiers drawn at random where rows are
    /// planned. Which ones are drawn is left to chance.
    pub fn resume(self, event: Event) -> (run: CommandRun)
        requires
            self.valid(),
        ensures
            run.valid(),
            run.command == self.command,
            exists|drawn: Drawn|
                {
                    &&& run.stage@ == #[trigger] next_stage(
                        self.command@,
                        self.stage@,
                        event,
                        drawn,
                    )
                    &&& event is Allocated || event is Locked ==> outside::random_form(
                        drawn.record_id,
                    ) && outside::random_form(drawn.activity_id)
                },
    {
        let drawn = match &event {
            Event::Allocated { .. } | Event::Locked { .. } => Drawn {
                record_id: random_uuid(),
                activity_id: random_uuid(),
            },
            _ => Drawn { record_id: 0, activity_id: 0 },
        };
        self.resume_with(event, drawn)
    }

    /// Goes on after an event, with given identifiers.
    pub fn resume_with(self, event: Event, drawn: Drawn) -> (run: CommandRun)
        requires
            self.valid(),
        ensures
            run.valid(),
            run.command == self.command,
            run.stage@ == next_stage(self.command@, self.stage@, event, drawn),
    {
        let label = self.label();
        let command = self.command;
        let stage = match (self.stage, event) {
            (Stage::Finished(outcome), _) => Stage::Finished(outcome),
            (_, Event::Failed) => Stage::Finished(Err(StorageError::Database { operation: label })),
            (Stage::Begin, Event::Done) => Stage::Lock,
            (Stage::Lock, Event::Done) => Stage::ReadReceipt,
            (Stage::ReadReceipt, Event::Receipt(row)) => match command_replay(&command, row) {
                Err(error) => Stage::Finished(Err(error)),
                Ok(Replay::Proceed) => Stage::ReadCase,
                Ok(Replay::Answer(response)) => Stage::Commit { response, replay: true },
                Ok(Replay::Refuse(failure)) => Stage::Finished(Ok(Answer::Refused(failure))),
            },
            (Stage::ReadCase, Event::Allocated { number, now }) => match &command.change {
                Change::Create { .. } => Self::decided(
                    decide_creation(&command, number, drawn, now),
                ),
                _ => Stage::ReadCase,
            },
            (Stage::ReadCase, Event::Locked { row, now }) => match &command.change {
                Change::Create { .. } => Stage::ReadCase,
                _ => Self::decided(decide_change(&command, row, drawn, now)),
            },
            (Stage::Write { plan, next }, Event::Done) => if plan.writes.len() - next > 1 {
                Stage::Write { plan, next: next + 1 }
            } else {
                Stage::Commit { response: plan.response, replay: false }
            },
            (Stage::Write { .. }, Event::Unserialized) => Stage::Finished(
                Err(StorageError::Serialization),
            ),
            (Stage::Commit { response, .. }, Event::Done) => Stage::Finished(
                Ok(Answer::Done(response)),
            ),
            (stage, _) => stage,
        };
        CommandRun { command, stage }
    }

    fn decided(decision: Result<Decision, StorageError>) -> (stage: Stage)
        requires
            rows::viewed(decision) matches Ok(DecisionView::Write(plan)) ==> plan.writes.len() > 0,
        ensures
            stage@ == after_decision(rows::viewed(decision)),
            stage_valid(stage@),
    {
        match decision {
            Err(error) => Stage::Finished(Err(error)),
            Ok(Decision::Refuse(failure)) => Stage::Finished(Ok(Answer::Refused(failure))),
            Ok(Decision::Write(plan)) => Stage::Write { plan, next: 0 },
        }
    }
}

} // verus!
