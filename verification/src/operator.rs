//! Explicit schema administration for Support Case storage.

use vstd::prelude::*;
use vstd::string::*;

use crate::outside;
use crate::outside::accepts_schema_name;

verus! {

/// Explicit schema administration for Support Case storage.
#[derive(Clone, Copy, Debug, Default)]
pub struct SupportCaseOperator;

/// Failure from an explicit Support Case schema workflow.
#[derive(Debug, Eq, PartialEq)]
pub enum SupportCaseOperatorError {
    /// The schema is none that Support Case may own.
    Plan { schema: String },
    /// The workflow failed.
    Postgres { detail: String },
}

/// The view of a failed workflow.
pub enum OperatorErrorView {
    Plan(Seq<char>),
    Postgres(Seq<char>),
}

impl View for SupportCaseOperatorError {
    type V = OperatorErrorView;

    open spec fn view(&self) -> OperatorErrorView {
        match self {
            SupportCaseOperatorError::Plan { schema } => OperatorErrorView::Plan(schema@),
            SupportCaseOperatorError::Postgres { detail } => OperatorErrorView::Postgres(detail@),
        }
    }
}

/// What a failed workflow says.
pub open spec fn operator_text(error: OperatorErrorView) -> Seq<char> {
    match error {
        OperatorErrorView::Plan(schema) => "invalid owned schema name `"@ + schema + "`"@,
        OperatorErrorView::Postgres(detail) => detail,
    }
}

impl SupportCaseOperatorError {
    /// The message of the failure.
    pub fn text(&self) -> (result: String)
        ensures
            result@ == operator_text(self@),
    {
        match self {
            SupportCaseOperatorError::Plan { schema } => {
                let mut result = "invalid owned schema name `".to_owned();
                result.append(schema.as_str());
                result.append("`");
                result
            },
            SupportCaseOperatorError::Postgres { detail } => detail.clone(),
        }
    }
}

/// What a workflow is for.
#[derive(Clone, Copy, Debug, Eq, PartialEq)]
pub enum SchemaTask {
    /// To create the owned schema with the whole migration plan.
    Setup,
    /// To apply the pending migrations.
    Upgrade,
}

/// Where a workflow stands. It ends with what the database reports of the task.
#[derive(Debug, Eq, PartialEq)]
pub enum SchemaStage<O> {
    Connect { schema: String },
    Work,
    Ended(Result<O, SupportCaseOperatorError>),
}

/// The view of where a workflow stands.
pub enum SchemaStageView<O> {
    Connect(Seq<char>),
    Work,
    Ended(Result<O, OperatorErrorView>),
}

impl<O> View for SchemaStage<O> {
    type V = SchemaStageView<O>;

    open spec fn view(&self) -> SchemaStageView<O> {
        match self {
            SchemaStage::Connect { schema } => SchemaStageView::Connect(schema@),
            SchemaStage::Work => SchemaStageView::Work,
            SchemaStage::Ended(Ok(outcome)) => SchemaStageView::Ended(Ok(*outcome)),
            SchemaStage::Ended(Err(error)) => SchemaStageView::Ended(Err(error@)),
        }
    }
}

/// What the host of a workflow reports.
#[derive(Debug, Eq, PartialEq)]
pub enum SchemaEvent<O> {
    Connected,
    /// The task was done, with this outcome.
    Worked(O),
    /// The database refused, in these words.
    Failed(String),
}

/// What the host of a workflow does next.
#[derive(Debug, Eq, PartialEq)]
pub enum SchemaAction<'a> {
    /// Connects, with the plan of a schema.
    Connect { schema: &'a str },
    Setup,
    Upgrade,
    Finish,
}

/// Where a workflow on a schema starts: one that Support Case may not own is refused.
pub open spec fn first_schema_stage<O>(schema: Seq<char>) -> SchemaStageView<O> {
    if outside::owned_schema_name(schema) {
        SchemaStageView::Connect(schema)
    } else {
        SchemaStageView::Ended(Err(OperatorErrorView::Plan(schema)))
    }
}

/// The stage that follows an event. An event that the stage does not wait for changes
/// nothing.
pub open spec fn next_schema_stage<O>(
    stage: SchemaStageView<O>,
    event: SchemaEvent<O>,
) -> SchemaStageView<O> {
    match (stage, event) {
        (SchemaStageView::Ended(_), _) => stage,
        (_, SchemaEvent::Failed(detail)) => SchemaStageView::Ended(
            Err(OperatorErrorView::Postgres(detail@)),
        ),
        (SchemaStageView::Connect(_), SchemaEvent::Connected) => SchemaStageView::Work,
        (SchemaStageView::Work, SchemaEvent::Worked(outcome)) => SchemaStageView::Ended(
            Ok(outcome),
        ),
        _ => stage,
    }
}

/// Where a workflow on a schema stands after some events.
pub open spec fn schema_stage_after<O>(
    schema: Seq<char>,
    events: Seq<SchemaEvent<O>>,
) -> SchemaStageView<O>
    decreases events.len(),
{
    if events.len() == 0 {
        first_schema_stage(schema)
    } else {
        next_schema_stage(schema_stage_after(schema, events.drop_last()), events.last())
    }
}

/// One workflow on its way.
#[derive(Debug, Eq, PartialEq)]
pub struct SchemaWorkflow<O> {
    pub task: SchemaTask,
    pub stage: SchemaStage<O>,
}

impl SupportCaseOperator {
    /// Creates the owned schema and installs the authored migration plan.
    pub fn setup<O>(schema: &str) -> (workflow: SchemaWorkflow<O>)
        ensures
            workflow.task == SchemaTask::Setup,
            workflow.stage@ == first_schema_stage::<O>(schema@),
    {
        SchemaWorkflow { task: SchemaTask::Setup, stage: Self::first_stage(schema) }
    }

    /// Applies pending authored migrations to the owned schema.
    pub fn upgrade<O>(schema: &str) -> (workflow: SchemaWorkflow<O>)
        ensures
            workflow.task == SchemaTask::Upgrade,
            workflow.stage@ == first_schema_stage::<O>(schema@),
    {
        SchemaWorkflow { task: SchemaTask::Upgrade, stage: Self::first_stage(schema) }
    }

    fn first_stage<O>(schema: &str) -> (stage: SchemaStage<O>)
        ensures
            stage@ == first_schema_stage::<O>(schema@),
    {
        if accepts_schema_name(schema) {
            SchemaStage::Connect { schema: schema.to_owned() }
        } else {
            SchemaStage::Ended(Err(SupportCaseOperatorError::Plan { schema: schema.to_owned() }))
        }
    }
}

impl<O> SchemaWorkflow<O> {
    /// What the host does next.
    pub fn action(&self) -> (action: SchemaAction<'_>)
        ensures
            match self.stage@ {
                SchemaStageView::Connect(owned) => action matches SchemaAction::Connect { schema }
                    && schema@ == owned,
                SchemaStageView::Work => match self.task {
                    SchemaTask::Setup => action is Setup,
                    SchemaTask::Upgrade => action is Upgrade,
                },
                SchemaStageView::Ended(_) => action is Finish,
            },
    {
        match &self.stage {
            SchemaStage::Connect { schema } => SchemaAction::Connect { schema: schema.as_str() },
            SchemaStage::Work => match self.task {
                SchemaTask::Setup => SchemaAction::Setup,
                SchemaTask::Upgrade => SchemaAction::Upgrade,
            },
            SchemaStage::Ended(_) => SchemaAction::Finish,
        }
    }

    /// Goes on after an event.
    pub fn resume(self, event: SchemaEvent<O>) -> (workflow: SchemaWorkflow<O>)
        ensures
            workflow.task == self.task,
            workflow.stage@ == next_schema_stage(self.stage@, event),
    {
        let stage = match (self.stage, event) {
            (SchemaStage::Ended(outcome), _) => SchemaStage::Ended(outcome),
            (_, SchemaEvent::Failed(detail)) => SchemaStage::Ended(
                Err(SupportCaseOperatorError::Postgres { detail }),
            ),
            (SchemaStage::Connect { .. }, SchemaEvent::Connected) => SchemaStage::Work,
            (SchemaStage::Work, SchemaEvent::Worked(outcome)) => SchemaStage::Ended(Ok(outcome)),
            (stage, _) => stage,
        };
        SchemaWorkflow { task: self.task, stage }
    }
}

/// A workflow on a schema that Support Case may not own is refused, whatever is
/// reported to it: it never comes to ask for a connection.
pub proof fn law_refused_schemas_are_never_connected_to<O>(
    schema: Seq<char>,
    events: Seq<SchemaEvent<O>>,
)
    requires
        !outside::owned_schema_name(schema),
    ensures
        schema_stage_after(schema, events) == SchemaStageView::<O>::Ended(
            Err(OperatorErrorView::Plan(schema)),
        ),
    decreases events.len(),
{
    if events.len() > 0 {
        law_refused_schemas_are_never_connected_to(schema, events.drop_last());
    }
}

/// A workflow comes to its work only on an owned schema and once it is connected.
proof fn lemma_work_follows_the_connection<O>(schema: Seq<char>, events: Seq<SchemaEvent<O>>)
    requires
        schema_stage_after(schema, events) is Work,
    ensures
        outside::owned_schema_name(schema),
        exists|i: int| 0 <= i < events.len() && #[trigger] events[i] is Connected,
    decreases events.len(),
{
    let before = events.drop_last();
    if schema_stage_after(schema, before) is Work {
        lemma_work_follows_the_connection(schema, before);
        let i = choose|i: int| 0 <= i < before.len() && #[trigger] before[i] is Connected;
        assert(events[i] is Connected);
    } else {
        if schema_stage_after(schema, before) is Connect {
            lemma_connecting_takes_an_owned_schema(schema, before);
        }
        assert(events[events.len() - 1] is Connected);
    }
}

proof fn lemma_connecting_takes_an_owned_schema<O>(schema: Seq<char>, events: Seq<SchemaEvent<O>>)
    requires
        schema_stage_after(schema, events) is Connect,
    ensures
        outside::owned_schema_name(schema),
    decreases events.len(),
{
    if events.len() > 0 {
        lemma_connecting_takes_an_owned_schema(schema, events.drop_last());
    }
}

/// A workflow succeeds only on an owned schema, after it was connected and the task
/// was reported done, and with the outcome that was reported.
pub proof fn law_success_takes_a_connection_and_the_work<O>(
    schema: Seq<char>,
    events: Seq<SchemaEvent<O>>,
    outcome: O,
)
    requires
        schema_stage_after(schema, events) == SchemaStageView::Ended(
            Ok::<O, OperatorErrorView>(outcome),
        ),
    ensures
        outside::owned_schema_name(schema),
        exists|i: int, j: int|
            0 <= i < j < events.len() && #[trigger] events[i] is Connected && #[trigger] events[j]
                == SchemaEvent::Worked(outcome),
    decreases events.len(),
{
    let before = events.drop_last();
    let last = events.len() - 1;
    if schema_stage_after(schema, before) is Work {
        lemma_work_follows_the_connection(schema, before);
        let i = choose|i: int| 0 <= i < before.len() && #[trigger] before[i] is Connected;
        assert(events[i] is Connected && events[last] == SchemaEvent::Worked(outcome));
    } else {
        law_success_takes_a_connection_and_the_work(schema, before, outcome);
        let (i, j) = choose|i: int, j: int|
            0 <= i < j < before.len() && #[trigger] before[i] is Connected && #[trigger] before[j]
                == SchemaEvent::Worked(outcome);
        assert(events[i] is Connected && events[j] == SchemaEvent::Worked(outcome));
    }
}

/// A workflow connects to the schema that it is for, and works once it is connected; what
/// PostgreSQL refuses ends it with what it said.
pub proof fn law_workflows_go_their_way<O>(schema: Seq<char>, detail: String, outcome: O)
    ensures
        outside::owned_schema_name(schema) ==> first_schema_stage::<O>(schema)
            == SchemaStageView::<O>::Connect(schema),
        next_schema_stage::<O>(SchemaStageView::Connect(schema), SchemaEvent::Connected)
            == SchemaStageView::<O>::Work,
        next_schema_stage(SchemaStageView::<O>::Work, SchemaEvent::Worked(outcome))
            == SchemaStageView::<O>::Ended(Ok(outcome)),
        next_schema_stage::<O>(SchemaStageView::Connect(schema), SchemaEvent::Failed(detail))
            == SchemaStageView::<O>::Ended(Err(OperatorErrorView::Postgres(detail@))),
        next_schema_stage::<O>(SchemaStageView::Work, SchemaEvent::Failed(detail))
            == SchemaStageView::<O>::Ended(Err(OperatorErrorView::Postgres(detail@))),
{
}

/// A workflow that waits for its connection is not moved by work, one at work not by a
/// connection, and one that ended by nothing.
pub proof fn law_stray_events_leave_a_workflow<O>(
    schema: Seq<char>,
    end: Result<O, OperatorErrorView>,
    outcome: O,
    event: SchemaEvent<O>,
)
    ensures
        next_schema_stage(SchemaStageView::<O>::Connect(schema), SchemaEvent::Worked(outcome))
            == SchemaStageView::<O>::Connect(schema),
        next_schema_stage(SchemaStageView::<O>::Work, SchemaEvent::Connected)
            == SchemaStageView::<O>::Work,
        next_schema_stage(SchemaStageView::<O>::Ended(end), event) == SchemaStageView::<O>::Ended(
            end,
        ),
{
}

} // verus!
