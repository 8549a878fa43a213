//! The views that contracts speak of show the values that code works on, field by field.

use vstd::prelude::*;

use crate::access;
use crate::access::Check;
use crate::command::{Change, ChangeView, Command, Plan, Write, WriteView};
use crate::errors::{StorageError, StorageErrorView};
use crate::intake::ListRequesterMessagesResponse;
use crate::intents;
use crate::model::{
    ActivityRecord, CaseRecord, CommandReceipt, MessageRecord, PayloadEntry, ResponseView,
    RetentionReceipt, StoredResponse,
};
use crate::privacy::{ExportDocument, ExportedActivity};
use crate::reads;
use crate::reads::{CaseFilters, CaseQuery, MessageQuery};
use crate::responses::{
    CaseResponse, MessageItem, MessageResponse, RequesterCaseResponse, RequesterMessageItem,
    RequesterMessageResponse,
};
use crate::retention::{
    RetainedActivity, RetainedCase, RetainedMessage, RetainedReceipt, Retention,
};
use crate::retention_run::RetentionPlan;
use crate::rows;
use crate::service::{ListCasesResponse, ListMessagesResponse};
use crate::tools::ToolDefinition;

verus! {

/// Whether a sequence has the view of every value of another in its place.
pub open spec fn in_place<T: View>(values: Seq<T>, shown: Seq<T::V>) -> bool {
    &&& shown.len() == values.len()
    &&& forall|i: int| 0 <= i < values.len() ==> shown[i] == (#[trigger] values[i])@
}

/// The view of a case shows every field of it as it is.
pub proof fn law_cases_are_viewed_whole(value: CaseRecord)
    ensures
        value@.case_id == value.case_id,
        value@.identifier == value.identifier@,
        value@.organization_id == value.organization_id@,
        value@.requester_subject == value.requester_subject@,
        value@.creator_subject == value.creator_subject@,
        value@.title == value.title@,
        value@.description == value.description@,
        value@.priority == value.priority@,
        value@.state == value.state@,
        value@.assignee_subject == intents::text_of(value.assignee_subject),
        value@.revision == value.revision,
        value@.created_at == value.created_at,
        value@.updated_at == value.updated_at,
        value@.resolved_at == value.resolved_at,
        value@.closed_at == value.closed_at,
{
}

/// The view of a message shows every field of it as it is.
pub proof fn law_messages_are_viewed_whole(value: MessageRecord)
    ensures
        value@.message_id == value.message_id,
        value@.case_id == value.case_id,
        value@.visibility == value.visibility@,
        value@.author_subject == value.author_subject@,
        value@.body == value.body@,
        value@.created_at == value.created_at,
        value@.case_revision == value.case_revision,
{
}

/// The view of an activity shows every field of it as it is.
pub proof fn law_activities_are_viewed_whole(value: ActivityRecord)
    ensures
        value@.activity_id == value.activity_id,
        value@.organization_id == value.organization_id@,
        value@.case_id == value.case_id,
        value@.kind == value.kind@,
        value@.actor_subject == value.actor_subject@,
        value@.case_revision == value.case_revision,
        in_place(value.payload@, value@.payload),
        value@.created_at == value.created_at,
{
}

/// The view of a member of a payload shows every field of it as it is.
pub proof fn law_members_are_viewed_whole(value: PayloadEntry)
    ensures
        value@.key == value.key@,
        value@.value == intents::text_of(value.value),
{
}

/// The view of a command's receipt shows every field of it as it is.
pub proof fn law_receipts_are_viewed_whole(value: CommandReceipt)
    ensures
        value@.caller_instance == value.caller_instance@,
        value@.idempotency_key == value.idempotency_key@,
        value@.organization_id == value.organization_id@,
        value@.case_id == value.case_id,
        value@.operation == value.operation@,
        value@.request_hash == value.request_hash@,
        value@.response == value.response@,
{
}

/// The view of a retention action's receipt shows every field of it as it is.
pub proof fn law_retention_receipts_are_viewed_whole(value: RetentionReceipt)
    ensures
        value@.action_id == value.action_id@,
        value@.request_hash == value.request_hash@,
        value@.receipt == value.receipt@,
        value@.anonymized_subject == value.anonymized_subject@,
{
}

/// The view of a command shows every field of it as it is.
pub proof fn law_commands_are_viewed_whole(value: Command)
    ensures
        value@.caller == value.caller@,
        value@.idempotency_key == value.idempotency_key@,
        value@.request_hash == value.request_hash@,
        value@.organization_id == value.organization_id@,
        value@.actor == value.actor@,
        value@.change == value.change@,
{
}

/// The view of a plan shows every field of it as it is.
pub proof fn law_plans_are_viewed_whole(value: Plan)
    ensures
        in_place(value.writes@, value@.writes),
        value@.response == value.response@,
{
}

/// The view of a query for a case shows every field of it as it is.
pub proof fn law_case_queries_are_viewed_whole(value: CaseQuery)
    ensures
        value@.organization_id == value.organization_id@,
        value@.key == value.key@,
        value@.actor == value.actor@,
        value@.can_read_all == value.can_read_all,
{
}

/// The view of the filters of a list of cases shows every field of it as it is.
pub proof fn law_case_filters_are_viewed_whole(value: CaseFilters)
    ensures
        value@.organization_id == value.organization_id@,
        value.state is None ==> value@.state is None,
        value.state matches Some(given) ==> value@.state == Some(given@),
        value@.assignee_subject == intents::text_of(value.assignee_subject),
        value@.requester_subject == intents::text_of(value.requester_subject),
        value@.cursor == value.cursor,
        value@.actor == value.actor@,
        value@.can_read_all == value.can_read_all,
        value@.limit == value.limit,
{
}

/// The view of a query for messages shows every field of it as it is.
pub proof fn law_message_queries_are_viewed_whole(value: MessageQuery)
    ensures
        value@.organization_id == value.organization_id@,
        value@.case_id == value.case_id,
        value@.actor == value.actor@,
        value@.can_read_all == value.can_read_all,
        value@.can_read_internal == value.can_read_internal,
        value@.cursor == value.cursor,
        value@.limit == value.limit,
{
}

/// The view of a case that the back office sees shows every field of it as it is.
pub proof fn law_shown_cases_are_viewed_whole(value: CaseResponse)
    ensures
        value@.assignee_subject == intents::text_of(value.assignee_subject),
        value@.case_id == value.case_id@,
        value@.closed_at == intents::text_of(value.closed_at),
        value@.created_at == value.created_at@,
        value@.creator_subject == value.creator_subject@,
        value@.description == value.description@,
        value@.identifier == value.identifier@,
        value@.organization_id == value.organization_id@,
        value@.priority == value.priority,
        value@.requester_subject == value.requester_subject@,
        value@.resolved_at == intents::text_of(value.resolved_at),
        value@.revision == value.revision@,
        value@.state == value.state,
        value@.title == value.title@,
        value@.updated_at == value.updated_at@,
{
}

/// The view of a case that its requester sees shows every field of it as it is.
pub proof fn law_requester_cases_are_viewed_whole(value: RequesterCaseResponse)
    ensures
        value@.case_id == value.case_id@,
        value@.created_at == value.created_at@,
        value@.description == value.description@,
        value@.identifier == value.identifier@,
        value@.organization_id == value.organization_id@,
        value@.priority == value.priority,
        value@.requester_subject == value.requester_subject@,
        value@.revision == value.revision@,
        value@.state == value.state,
        value@.title == value.title@,
        value@.updated_at == value.updated_at@,
{
}

/// The view of a message that the back office sees shows every field of it as it is.
pub proof fn law_shown_messages_are_viewed_whole(value: MessageResponse)
    ensures
        value@.author_subject == value.author_subject@,
        value@.body == value.body@,
        value@.case_id == value.case_id@,
        value@.case_revision == value.case_revision@,
        value@.created_at == value.created_at@,
        value@.message_id == value.message_id@,
        value@.visibility == value.visibility,
{
}

/// The view of a listed message that the back office sees shows every field of it as it
/// is.
pub proof fn law_shown_items_are_viewed_whole(value: MessageItem)
    ensures
        value@.author_subject == value.author_subject@,
        value@.body == value.body@,
        value@.case_id == value.case_id@,
        value@.created_at == value.created_at@,
        value@.message_id == value.message_id@,
        value@.visibility == value.visibility,
{
}

/// The view of a message that its requester sees shows every field of it as it is.
pub proof fn law_requester_messages_are_viewed_whole(value: RequesterMessageResponse)
    ensures
        value@.author_subject == value.author_subject@,
        value@.body == value.body@,
        value@.case_id == value.case_id@,
        value@.case_revision == value.case_revision@,
        value@.created_at == value.created_at@,
        value@.message_id == value.message_id@,
{
}

/// The view of a listed message that its requester sees shows every field of it as it
/// is.
pub proof fn law_requester_items_are_viewed_whole(value: RequesterMessageItem)
    ensures
        value@.author_subject == value.author_subject@,
        value@.body == value.body@,
        value@.case_id == value.case_id@,
        value@.created_at == value.created_at@,
        value@.message_id == value.message_id@,
{
}

/// The view of a page of cases shows every field of it as it is.
pub proof fn law_case_pages_are_viewed_whole(value: ListCasesResponse)
    ensures
        in_place(value.cases@, value@.items),
        value@.next_cursor == intents::text_of(value.next_cursor),
{
}

/// The view of a page of messages shows every field of it as it is.
pub proof fn law_message_pages_are_viewed_whole(value: ListMessagesResponse)
    ensures
        in_place(value.messages@, value@.items),
        value@.next_cursor == intents::text_of(value.next_cursor),
{
}

/// The view of a page of a requester's messages shows every field of it as it is.
pub proof fn law_requester_pages_are_viewed_whole(value: ListRequesterMessagesResponse)
    ensures
        in_place(value.messages@, value@.items),
        value@.next_cursor == intents::text_of(value.next_cursor),
{
}

/// The view of a retention action shows every field of it as it is.
pub proof fn law_retentions_are_viewed_whole(value: Retention)
    ensures
        value@.action_id == value.action_id@,
        value@.request_hash == value.request_hash@,
        value@.organization_id == value.organization_id@,
        value@.subject == value.subject@,
        value@.delete_content == value.delete_content,
{
}

/// The view of the retained part of a case shows every field of it as it is.
pub proof fn law_retained_cases_are_viewed_whole(value: RetainedCase)
    ensures
        value@.case_id == value.case_id,
        value@.requester_subject == value.requester_subject@,
        value@.creator_subject == value.creator_subject@,
        value@.assignee_subject == intents::text_of(value.assignee_subject),
        value@.title == value.title@,
        value@.description == value.description@,
        value@.revision == value.revision,
{
}

/// The view of the retained part of a message shows every field of it as it is.
pub proof fn law_retained_messages_are_viewed_whole(value: RetainedMessage)
    ensures
        value@.message_id == value.message_id,
        value@.author_subject == value.author_subject@,
        value@.body == value.body@,
{
}

/// The view of the retained part of an activity shows every field of it as it is.
pub proof fn law_retained_activities_are_viewed_whole(value: RetainedActivity)
    ensures
        value@.activity_id == value.activity_id,
        value@.actor_subject == value.actor_subject@,
        in_place(value.payload@, value@.payload),
{
}

/// The view of the retained part of a receipt shows every field of it as it is.
pub proof fn law_retained_receipts_are_viewed_whole(value: RetainedReceipt)
    ensures
        value@.caller_instance == value.caller_instance@,
        value@.idempotency_key == value.idempotency_key@,
        value@.response == value.response@,
{
}

/// The view of a retention action's plan shows every field of it as it is.
pub proof fn law_retention_plans_are_viewed_whole(value: RetentionPlan)
    ensures
        in_place(value.receipts@, value@.receipts),
        in_place(value.messages@, value@.messages),
        in_place(value.cases@, value@.cases),
        in_place(value.activities@, value@.activities),
        in_place(value.history@, value@.history),
        value@.receipt == value.receipt@,
        value@.now == value.now,
{
}

/// The view of an exported activity shows every field of it as it is.
pub proof fn law_exported_activities_are_viewed_whole(value: ExportedActivity)
    ensures
        value@.activity_id == value.activity_id,
        value@.case_id == value.case_id,
        value@.kind == value.kind@,
        value@.actor_subject == value.actor_subject@,
        value@.case_revision == value.case_revision@,
        in_place(value.payload@, value@.payload),
        value@.created_at == value.created_at@,
{
}

/// The view of an export shows every field of it as it is.
pub proof fn law_exports_are_viewed_whole(value: ExportDocument)
    ensures
        value@.subject == value.subject@,
        value@.organization_id == value.organization_id@,
        in_place(value.cases@, value@.cases),
        in_place(value.authored_messages@, value@.authored_messages),
        in_place(value.actor_activity@, value@.actor_activity),
{
}

/// The view of a tool shows every field of it as it is.
pub proof fn law_tools_are_viewed_whole(value: ToolDefinition)
    ensures
        value@.name == value.name@,
        value@.description == value.description@,
        value@.input_schema_json == value.input_schema_json@,
        value@.execution == value.execution,
{
}

/// The view of a question shows every field of it as it is.
pub proof fn law_questions_are_viewed_whole(value: Check)
    ensures
        value@.subject == value.subject@,
        value@.demand == value.demand,
        value@.denial == value.denial,
{
}

/// The view of a stored response is that of the case or the message that it holds.
pub proof fn law_responses_are_viewed_whole(case: CaseRecord, message: MessageRecord)
    ensures
        StoredResponse::Case(case)@ == ResponseView::Case(case@),
        StoredResponse::Message(message)@ == ResponseView::Message(message@),
{
}

/// The view of a row to write is that of the record to write.
pub proof fn law_writes_are_viewed_whole(
    case: CaseRecord,
    message: MessageRecord,
    activity: ActivityRecord,
    receipt: CommandReceipt,
)
    ensures
        Write::InsertCase(case)@ == WriteView::InsertCase(case@),
        Write::UpdateCase(case)@ == WriteView::UpdateCase(case@),
        Write::InsertMessage(message)@ == WriteView::InsertMessage(message@),
        Write::InsertActivity(activity)@ == WriteView::InsertActivity(activity@),
        Write::SaveReceipt(receipt)@ == WriteView::SaveReceipt(receipt@),
{
}

/// The view of a change shows what it changes, in which case and at which revision.
pub proof fn law_changes_are_viewed_whole(change: Change)
    ensures
        match change {
            Change::Create { title, description, priority } => change@ == (ChangeView::Create {
                title: title@,
                description: description@,
                priority: priority@,
            }),
            Change::Update { case_id, expected_revision, title, description, priority } => change@
                == (ChangeView::Update {
                case_id,
                expected_revision,
                title: intents::text_of(title),
                description: intents::text_of(description),
                priority: intents::text_of(priority),
            }),
            Change::Assign { case_id, expected_revision, assignee_subject } => change@ == (
            ChangeView::Assign {
                case_id,
                expected_revision,
                assignee_subject: intents::text_of(assignee_subject),
            }),
            Change::Transition { case_id, expected_revision, target_state, reason } => change@ == (
            ChangeView::Transition {
                case_id,
                expected_revision,
                target_state: target_state@,
                reason: intents::text_of(reason),
            }),
            Change::AddMessage { case_id, expected_revision, can_comment_all, visibility, body } =>
                change@ == (ChangeView::AddMessage {
                case_id,
                expected_revision,
                can_comment_all,
                visibility: visibility@,
                body: body@,
            }),
        },
{
}

/// The view of an outcome is that of what came out or of what failed.
pub proof fn law_outcomes_are_viewed_whole<T: View, E: View>(value: T, error: E)
    ensures
        rows::viewed(Ok::<T, E>(value)) == Ok::<T::V, E::V>(value@),
        rows::viewed(Err::<T, E>(error)) == Err::<T::V, E::V>(error@),
{
}

/// The view of what was read is that of the record, where there is one, and that of a
/// list has the view of every record in its place.
pub proof fn law_reads_are_viewed_whole(
    case: CaseRecord,
    cases: Vec<CaseRecord>,
    messages: Vec<MessageRecord>,
    error: StorageError,
)
    ensures
        reads::read_view(Ok(Some(case))) == Ok::<_, StorageErrorView>(Some(case@)),
        reads::read_view(Ok(None)) matches Ok(None),
        reads::read_view(Err(error)) matches Err(failed) && failed == error@,
        reads::cases_view(Ok(cases)) matches Ok(shown) && in_place(cases@, shown),
        reads::cases_view(Err(error)) matches Err(failed) && failed == error@,
        reads::messages_view(Ok(messages)) matches Ok(shown) && in_place(messages@, shown),
        reads::messages_view(Err(error)) matches Err(failed) && failed == error@,
        reads::optional_messages_view(Ok(Some(messages))) matches Ok(Some(shown)) && in_place(
            messages@,
            shown,
        ),
        reads::optional_messages_view(Ok(None)) matches Ok(None),
        reads::optional_messages_view(Err(error)) matches Err(failed) && failed == error@,
{
}

/// The view of a list of questions has the view of every question in its place.
pub proof fn law_question_lists_are_viewed_whole(checks: Seq<Check>)
    ensures
        in_place(checks, access::check_views(checks)),
{
}

} // verus!
