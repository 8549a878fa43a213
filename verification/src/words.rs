//! The words by which the library is known outside: what is stored, asked, shown and
//! said.

use vstd::prelude::*;
use vstd::string::*;

use crate::access;
use crate::access::{Demand, Permission};
use crate::command;
use crate::command::{ChangeView, CommandView, Drawn, WriteView};
use crate::config;
use crate::config::SupportCaseConfigError;
use crate::cursor;
use crate::errors;
use crate::errors::StorageErrorView;
use crate::fault::{CallErrorView, FaultView};
use crate::lifecycle;
use crate::model;
use crate::model::{CaseState, Priority, Visibility};
use crate::operator;
use crate::operator::OperatorErrorView;
use crate::privacy;
use crate::privacy::RetentionMode;
use crate::responses;
use crate::responses::WireErrorView;
use crate::service;
use crate::tools;
use crate::tools::Tool;
use crate::transaction;
use crate::transaction::{Event, StageView};

verus! {

/// Access Control knows the seven permissions under these names.
pub proof fn law_permissions_have_their_names()
    ensures
        access::permission_name(Permission::Create) == "support.cases.create"@,
        access::permission_name(Permission::Read) == "support.cases.read"@,
        access::permission_name(Permission::Write) == "support.cases.write"@,
        access::permission_name(Permission::Assign) == "support.cases.assign"@,
        access::permission_name(Permission::Transition) == "support.cases.transition"@,
        access::permission_name(Permission::Comment) == "support.cases.comment"@,
        access::permission_name(Permission::InternalNote) == "support.cases.internal-note"@,
{
}

/// Priorities, states, visibilities and modes are stored and shown under these names.
pub proof fn law_values_have_their_names()
    ensures
        model::priority_name(Priority::Low) == "low"@,
        model::priority_name(Priority::Normal) == "normal"@,
        model::priority_name(Priority::High) == "high"@,
        model::priority_name(Priority::Urgent) == "urgent"@,
        model::state_name(CaseState::Open) == "open"@,
        model::state_name(CaseState::InProgress) == "in_progress"@,
        model::state_name(CaseState::WaitingCustomer) == "waiting_customer"@,
        model::state_name(CaseState::Resolved) == "resolved"@,
        model::state_name(CaseState::Closed) == "closed"@,
        model::visibility_name(Visibility::Public) == "public"@,
        model::visibility_name(Visibility::Internal) == "internal"@,
        privacy::mode_name(RetentionMode::Anonymize) == "anonymize"@,
        privacy::mode_name(RetentionMode::Delete) == "delete"@,
{
}

/// A name that is none of these names nothing.
pub proof fn law_other_names_name_nothing(name: Seq<char>)
    ensures
        lifecycle::priority_named(name) is Some <==> name == "low"@ || name == "normal"@ || name
            == "high"@ || name == "urgent"@,
        lifecycle::state_named(name) is Some <==> name == "open"@ || name == "in_progress"@ || name
            == "waiting_customer"@ || name == "resolved"@ || name == "closed"@,
        lifecycle::visibility_named(name) is Some <==> name == "public"@ || name == "internal"@,
        lifecycle::priority_named(name) matches Some(priority) ==> model::priority_name(priority)
            == name,
        lifecycle::state_named(name) matches Some(state) ==> model::state_name(state) == name,
        lifecycle::visibility_named(name) matches Some(visibility) ==> model::visibility_name(
            visibility,
        ) == name,
{
}

/// A failure of the storage says which statement failed or what is wrong with the data.
pub proof fn law_storage_failures_say_what_failed(text: Seq<char>)
    ensures
        errors::storage_text(StorageErrorView::Database(text)) == "PostgreSQL operation `"@ + text
            + "` failed"@,
        errors::storage_text(StorageErrorView::InvalidStoredData(text))
            == "stored Support Case data is invalid: "@ + text,
        errors::storage_text(StorageErrorView::Serialization)
            == "Support Case command response serialization failed"@,
        cursor::unwritten_instant_text()
            == "timestamp cannot be formatted: The year component cannot be formatted into the requested format."@,
{
}

/// What cannot be put on the wire is said with its name and with what is expected.
pub proof fn law_wire_failures_say_what_failed<E, F>(name: Seq<char>, error: WireErrorView)
    ensures
        responses::wire_text(WireErrorView::UnwrittenTime)
            == "The year component cannot be formatted into the requested format."@,
        responses::wire_text(WireErrorView::UnknownPriority(name)) == "unknown variant `"@ + name
            + "`, expected one of `low`, `normal`, `high`, `urgent`"@,
        responses::wire_text(WireErrorView::UnknownState(name)) == "unknown variant `"@ + name
            + "`, expected one of `open`, `in_progress`, `waiting_customer`, `resolved`, `closed`"@,
        responses::wire_text(WireErrorView::UnknownVisibility(name)) == "unknown variant `"@ + name
            + "`, expected `public` or `internal`"@,
        service::wire_fault::<E, F>(error) == CallErrorView::<E, F>::Runtime(
            FaultView::Internal(
                "Support Case wire serialization failed: "@ + responses::wire_text(error),
            ),
        ),
{
}

/// A failure of the storage fails the plugin, with what the failure says.
pub proof fn law_storage_failures_fail_the_plugin<E, F>(error: StorageErrorView)
    ensures
        service::storage_fault::<E, F>(error) == CallErrorView::<E, F>::Runtime(
            FaultView::PluginFailure(errors::storage_text(error)),
        ),
{
}

/// A dependency that rejects a question is named.
pub proof fn law_rejections_name_the_dependency(permission: Permission)
    ensures
        access::rejection_text(Demand::Membership)
            == "Organization Membership rejected a Support Case authorization query"@,
        access::rejection_text(Demand::Permission(permission))
            == "Access Control rejected a Support Case authorization query"@,
{
}

/// A refused configuration is told which of its parts is wrong.
pub proof fn law_config_errors_say_what_is_wrong()
    ensures
        config::error_text(SupportCaseConfigError::InvalidSchema)
            == "invalid owned PostgreSQL schema"@,
        config::error_text(SupportCaseConfigError::InvalidSecretReference)
            == "invalid database URL secret reference"@,
        config::error_text(SupportCaseConfigError::InvalidAuthIssuer) == "invalid Auth issuer"@,
        config::error_text(SupportCaseConfigError::InvalidAuthPublicKey)
            == "invalid Auth assertion public key"@,
        config::error_text(SupportCaseConfigError::InvalidBusinessCallers)
            == "business_callers must contain unique exact Instance keys"@,
        config::error_text(SupportCaseConfigError::InvalidIntakeCallers)
            == "intake_callers must contain unique exact Instance keys"@,
        config::error_text(SupportCaseConfigError::InvalidResourceCallers)
            == "resource_callers must contain unique exact Instance keys"@,
        config::error_text(SupportCaseConfigError::InvalidExportCallers)
            == "export_callers must contain unique exact Instance keys"@,
        config::error_text(SupportCaseConfigError::InvalidRetentionCallers)
            == "retention_callers must contain unique exact Instance keys"@,
        config::error_text(SupportCaseConfigError::InvalidExportLimit)
            == "max_export_bytes must be between 1 and 8388608"@,
{
}

/// A failed workflow of the operator says which schema is refused, or what PostgreSQL
/// said.
pub proof fn law_operator_errors_say_what_failed(text: Seq<char>)
    ensures
        operator::operator_text(OperatorErrorView::Plan(text)) == "invalid owned schema name `"@
            + text + "`"@,
        operator::operator_text(OperatorErrorView::Postgres(text)) == text,
{
}

/// A command is stored under the name of its operation, and is locked by its caller and
/// its key: two commands share a lock only if they share both, unless a caller's name or
/// a key holds the sign between them.
pub proof fn law_commands_are_known_by_operation_and_key(first: CommandView, second: CommandView)
    requires
        !first.caller.contains('\0'),
        !second.caller.contains('\0'),
    ensures
        command::operation_name(first.change) == match first.change {
            ChangeView::Create { .. } => "create_case"@,
            ChangeView::Update { .. } => "update_case"@,
            ChangeView::Assign { .. } => "assign_case"@,
            ChangeView::Transition { .. } => "transition_case"@,
            ChangeView::AddMessage { .. } => "add_message"@,
        },
        command::command_lock(first) == command::command_lock(second) <==> first.caller
            == second.caller && first.idempotency_key == second.idempotency_key,
{
    let left = command::command_lock(first);
    let right = command::command_lock(second);
    let split = first.caller.len() as int;
    if left == right {
        assert(left[split] == '\0');
        if second.caller.len() < split {
            let at = second.caller.len() as int;
            assert(right[at] == '\0');
            assert(left[at] == first.caller[at]);
            assert(first.caller.contains('\0'));
        } else if second.caller.len() > split {
            assert(right[split] == second.caller[split]);
            assert(second.caller.contains('\0'));
        }
        assert(left.take(split) =~= first.caller);
        assert(right.take(split) =~= second.caller);
        assert(left.skip(split + 1) =~= first.idempotency_key);
        assert(right.skip(split + 1) =~= second.idempotency_key);
    }
}

/// A statement of a command that the database refuses ends it, and the error names the
/// statement.
pub proof fn law_refused_statements_are_named(
    command: CommandView,
    stage: StageView,
    drawn: Drawn,
)
    requires
        !(stage is Finished),
    ensures
        transaction::next_stage(command, stage, Event::Failed, drawn) matches StageView::Finished(
            Err(StorageErrorView::Database(label)),
        ) && match stage {
            StageView::Begin => label == match command.change {
                ChangeView::Create { .. } => "begin case creation"@,
                ChangeView::Update { .. } => "begin case update"@,
                ChangeView::Assign { .. } => "begin case assignment"@,
                ChangeView::Transition { .. } => "begin case transition"@,
                ChangeView::AddMessage { .. } => "begin message creation"@,
            },
            StageView::Lock => label == "acquire idempotency lock"@,
            StageView::ReadReceipt => label == "read command replay"@,
            StageView::ReadCase => label == if command.change is Create {
                "allocate case identifier"@
            } else {
                "lock support case"@
            },
            StageView::Write { plan, next } => label == match plan.writes[next] {
                WriteView::InsertCase(_) => "insert support case"@,
                WriteView::UpdateCase(_) => match command.change {
                    ChangeView::Create { .. } => "insert support case"@,
                    ChangeView::Update { .. } => "update support case"@,
                    ChangeView::Assign { .. } => "assign support case"@,
                    ChangeView::Transition { .. } => "transition support case"@,
                    ChangeView::AddMessage { .. } => "bump case revision for message"@,
                },
                WriteView::InsertMessage(_) => "insert support case message"@,
                WriteView::InsertActivity(_) => "insert support case activity"@,
                WriteView::SaveReceipt(_) => "store command response"@,
            },
            StageView::Commit { replay, .. } => label == match command.change {
                ChangeView::Create { .. } => if replay {
                    "commit case creation replay"@
                } else {
                    "commit case creation"@
                },
                ChangeView::Update { .. } => if replay {
                    "commit case update replay"@
                } else {
                    "commit case update"@
                },
                ChangeView::Assign { .. } => if replay {
                    "commit case assignment replay"@
                } else {
                    "commit case assignment"@
                },
                ChangeView::Transition { .. } => if replay {
                    "commit case transition replay"@
                } else {
                    "commit case transition"@
                },
                ChangeView::AddMessage { .. } => if replay {
                    "commit message replay"@
                } else {
                    "commit message creation"@
                },
            },
            StageView::Finished(_) => true,
        },
{
}

/// The catalog offers eight tools under these names, in this order; the first three
/// only read, and may run side by side.
pub proof fn law_tools_have_their_names(schema: Seq<char>)
    ensures
        tools::tools().len() == 8,
        tools::definition(tools::tools()[0], schema).name == "support_case_get_case"@,
        tools::definition(tools::tools()[1], schema).name == "support_case_list_cases"@,
        tools::definition(tools::tools()[2], schema).name == "support_case_list_messages"@,
        tools::definition(tools::tools()[3], schema).name == "support_case_create_case"@,
        tools::definition(tools::tools()[4], schema).name == "support_case_update_case"@,
        tools::definition(tools::tools()[5], schema).name == "support_case_assign_case"@,
        tools::definition(tools::tools()[6], schema).name == "support_case_transition_case"@,
        tools::definition(tools::tools()[7], schema).name == "support_case_add_message"@,
        forall|i: int|
            0 <= i < 8 ==> (tools::definition(
                #[trigger] tools::tools()[i],
                schema,
            ).execution is ParallelSafe <==> i < 3) && tools::definition(
                tools::tools()[i],
                schema,
            ).input_schema_json == schema,
{
}

/// A tool is found under its own name and under no other.
pub proof fn law_tools_are_named_once(name: Seq<char>, tool: Tool)
    ensures
        tools::tool_named(name) == Some(tool) <==> name == tools::tool_name(tool),
{
    tools::law_tools_are_found(tool);
}

/// An agent is told of every tool what it does and which arguments it takes.
pub proof fn law_tools_are_described()
    ensures
        tools::tool_description(Tool::GetCase)
            == "Get one visible Support Case by stable UUID or organization-local identifier, including its current revision."@,
        tools::tool_description(Tool::ListCases)
            == "List visible Support Cases with bounded cursor pagination and optional state, requester, or assignee filters."@,
        tools::tool_description(Tool::ListMessages)
            == "List messages visible to the current actor for one Support Case with bounded cursor pagination."@,
        tools::tool_description(Tool::CreateCase)
            == "Create one Support Case. Reuse the same idempotency_key when retrying the same intent."@,
        tools::tool_description(Tool::UpdateCase)
            == "Update editable Support Case fields using the revision returned by get_case. Reuse the same idempotency_key for retries."@,
        tools::tool_description(Tool::AssignCase)
            == "Assign or unassign one Support Case using its current revision. Reuse the same idempotency_key for retries."@,
        tools::tool_description(Tool::TransitionCase)
            == "Transition one Support Case through its allowed lifecycle using its current revision. Reuse the same idempotency_key for retries."@,
        tools::tool_description(Tool::AddMessage)
            == "Add one public reply or internal note to a Support Case using its current revision. Internal notes require separate authority."@,
        tools::tool_schema(Tool::GetCase) == tools::GET_CASE_SCHEMA@,
        tools::tool_schema(Tool::ListCases) == tools::LIST_CASES_SCHEMA@,
        tools::tool_schema(Tool::ListMessages) == tools::LIST_MESSAGES_SCHEMA@,
        tools::tool_schema(Tool::CreateCase) == tools::CREATE_CASE_SCHEMA@,
        tools::tool_schema(Tool::UpdateCase) == tools::UPDATE_CASE_SCHEMA@,
        tools::tool_schema(Tool::AssignCase) == tools::ASSIGN_CASE_SCHEMA@,
        tools::tool_schema(Tool::TransitionCase) == tools::TRANSITION_CASE_SCHEMA@,
        tools::tool_schema(Tool::AddMessage) == tools::ADD_MESSAGE_SCHEMA@,
{
}

/// What an agent is shown of a tool is its name, its description and the schema of its
/// arguments.
pub proof fn law_definitions_show_the_tool(tool: Tool, schema: Seq<char>)
    ensures
        tools::definition(tool, schema).name == tools::tool_name(tool),
        tools::definition(tool, schema).description == tools::tool_description(tool),
        tools::definition(tool, schema).input_schema_json == schema,
{
}

} // verus!
