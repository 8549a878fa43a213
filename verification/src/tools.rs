//! Support Case as tools of an agent: the catalog, and what a tool answers.

use vstd::prelude::*;
use vstd::string::*;

use crate::failures::{
    AddMessageError, AssignCaseError, CreateCaseError, GetCaseError, ListCasesError,
    ListMessagesError, TransitionCaseError, UpdateCaseError,
};
use crate::fault::{CallError, Fault, FaultView};
use crate::model;
use crate::model::{EntryView, PayloadEntry};
use crate::outside;
use crate::outside::compact;
use crate::text::same_text;
use crate::wire;
use crate::wire::{object_text, text_entry};

verus! {

pub const CREATE_CASE_TOOL: &'static str = "support_case_create_case";
pub const GET_CASE_TOOL: &'static str = "support_case_get_case";
pub const LIST_CASES_TOOL: &'static str = "support_case_list_cases";
pub const UPDATE_CASE_TOOL: &'static str = "support_case_update_case";
pub const ASSIGN_CASE_TOOL: &'static str = "support_case_assign_case";
pub const TRANSITION_CASE_TOOL: &'static str = "support_case_transition_case";
pub const ADD_MESSAGE_TOOL: &'static str = "support_case_add_message";
pub const LIST_MESSAGES_TOOL: &'static str = "support_case_list_messages";

/// The JSON schema of the arguments of `support_case_get_case`.
pub const GET_CASE_SCHEMA: &'static str =
    "{\"$schema\":\"https://json-schema.org/draft/2020-12/schema\",\"type\":\"object\",\"additionalProperties\":false,\"required\":[\"organization_id\",\"case_ref\"],\"properties\":{\"organization_id\":{\"type\":\"string\"},\"case_ref\":{\"type\":\"string\"}}}";

/// The JSON schema of the arguments of `support_case_list_cases`.
pub const LIST_CASES_SCHEMA: &'static str =
    "{\"$schema\":\"https://json-schema.org/draft/2020-12/schema\",\"type\":\"object\",\"additionalProperties\":false,\"required\":[\"organization_id\",\"state\",\"assignee_subject\",\"requester_subject\",\"cursor\",\"limit\"],\"properties\":{\"organization_id\":{\"type\":\"string\"},\"state\":{\"type\":[\"string\",\"null\"],\"enum\":[\"open\",\"in_progress\",\"waiting_customer\",\"resolved\",\"closed\",null]},\"assignee_subject\":{\"type\":[\"string\",\"null\"]},\"requester_subject\":{\"type\":[\"string\",\"null\"]},\"cursor\":{\"type\":[\"string\",\"null\"]},\"limit\":{\"type\":\"integer\",\"minimum\":1,\"maximum\":200}}}";

/// The JSON schema of the arguments of `support_case_list_messages`.
pub const LIST_MESSAGES_SCHEMA: &'static str =
    "{\"$schema\":\"https://json-schema.org/draft/2020-12/schema\",\"type\":\"object\",\"additionalProperties\":false,\"required\":[\"organization_id\",\"case_id\",\"cursor\",\"limit\"],\"properties\":{\"organization_id\":{\"type\":\"string\"},\"case_id\":{\"type\":\"string\"},\"cursor\":{\"type\":[\"string\",\"null\"]},\"limit\":{\"type\":\"integer\",\"minimum\":1,\"maximum\":200}}}";

/// The JSON schema of the arguments of `support_case_create_case`.
pub const CREATE_CASE_SCHEMA: &'static str =
    "{\"$schema\":\"https://json-schema.org/draft/2020-12/schema\",\"type\":\"object\",\"additionalProperties\":false,\"required\":[\"organization_id\",\"title\",\"description\",\"priority\",\"idempotency_key\"],\"properties\":{\"organization_id\":{\"type\":\"string\"},\"title\":{\"type\":\"string\"},\"description\":{\"type\":\"string\"},\"priority\":{\"type\":\"string\",\"enum\":[\"low\",\"normal\",\"high\",\"urgent\"]},\"idempotency_key\":{\"type\":\"string\"}}}";

/// The JSON schema of the arguments of `support_case_update_case`.
pub const UPDATE_CASE_SCHEMA: &'static str =
    "{\"$schema\":\"https://json-schema.org/draft/2020-12/schema\",\"type\":\"object\",\"additionalProperties\":false,\"required\":[\"organization_id\",\"case_id\",\"expected_revision\",\"title\",\"description\",\"priority\",\"idempotency_key\"],\"properties\":{\"organization_id\":{\"type\":\"string\"},\"case_id\":{\"type\":\"string\"},\"expected_revision\":{\"type\":\"string\",\"pattern\":\"^[1-9][0-9]*$\"},\"title\":{\"type\":[\"string\",\"null\"]},\"description\":{\"type\":[\"string\",\"null\"]},\"priority\":{\"type\":[\"string\",\"null\"],\"enum\":[\"low\",\"normal\",\"high\",\"urgent\",null]},\"idempotency_key\":{\"type\":\"string\"}}}";

/// The JSON schema of the arguments of `support_case_assign_case`.
pub const ASSIGN_CASE_SCHEMA: &'static str =
    "{\"$schema\":\"https://json-schema.org/draft/2020-12/schema\",\"type\":\"object\",\"additionalProperties\":false,\"required\":[\"organization_id\",\"case_id\",\"expected_revision\",\"assignee_subject\",\"idempotency_key\"],\"properties\":{\"organization_id\":{\"type\":\"string\"},\"case_id\":{\"type\":\"string\"},\"expected_revision\":{\"type\":\"string\",\"pattern\":\"^[1-9][0-9]*$\"},\"assignee_subject\":{\"type\":[\"string\",\"null\"]},\"idempotency_key\":{\"type\":\"string\"}}}";

/// The JSON schema of the arguments of `support_case_transition_case`.
pub const TRANSITION_CASE_SCHEMA: &'static str =
    "{\"$schema\":\"https://json-schema.org/draft/2020-12/schema\",\"type\":\"object\",\"additionalProperties\":false,\"required\":[\"organization_id\",\"case_id\",\"expected_revision\",\"state\",\"reason\",\"idempotency_key\"],\"properties\":{\"organization_id\":{\"type\":\"string\"},\"case_id\":{\"type\":\"string\"},\"expected_revision\":{\"type\":\"string\",\"pattern\":\"^[1-9][0-9]*$\"},\"state\":{\"type\":\"string\",\"enum\":[\"open\",\"in_progress\",\"waiting_customer\",\"resolved\",\"closed\"]},\"reason\":{\"type\":[\"string\",\"null\"]},\"idempotency_key\":{\"type\":\"string\"}}}";

/// The JSON schema of the arguments of `support_case_add_message`.
pub const ADD_MESSAGE_SCHEMA: &'static str =
    "{\"$schema\":\"https://json-schema.org/draft/2020-12/schema\",\"type\":\"object\",\"additionalProperties\":false,\"required\":[\"organization_id\",\"case_id\",\"expected_revision\",\"visibility\",\"body\",\"idempotency_key\"],\"properties\":{\"organization_id\":{\"type\":\"string\"},\"case_id\":{\"type\":\"string\"},\"expected_revision\":{\"type\":\"string\",\"pattern\":\"^[1-9][0-9]*$\"},\"visibility\":{\"type\":\"string\",\"enum\":[\"public\",\"internal\"]},\"body\":{\"type\":\"string\"},\"idempotency_key\":{\"type\":\"string\"}}}";

/// One tool of the catalog.
#[derive(Clone, Copy, Debug, Eq, PartialEq)]
pub enum Tool {
    GetCase,
    ListCases,
    ListMessages,
    CreateCase,
    UpdateCase,
    AssignCase,
    TransitionCase,
    AddMessage,
}

/// Whether a tool may run beside others.
#[derive(Clone, Copy, Debug, Eq, PartialEq)]
pub enum ToolExecutionClass {
    ParallelSafe,
    Exclusive,
}

/// A tool as the catalog describes it.
#[derive(Debug, Eq, PartialEq)]
pub struct ToolDefinition {
    pub name: String,
    pub description: String,
    pub input_schema_json: String,
    pub execution: ToolExecutionClass,
}

/// The view of a tool's description.
#[verifier::ext_equal]
pub struct ToolDefinitionView {
    pub name: Seq<char>,
    pub description: Seq<char>,
    pub input_schema_json: Seq<char>,
    pub execution: ToolExecutionClass,
}

impl View for ToolDefinition {
    type V = ToolDefinitionView;

    open spec fn view(&self) -> ToolDefinitionView {
        ToolDefinitionView {
            name: self.name@,
            description: self.description@,
            input_schema_json: self.input_schema_json@,
            execution: self.execution,
        }
    }
}

/// The name of a tool.
pub open spec fn tool_name(tool: Tool) -> Seq<char> {
    match tool {
        Tool::GetCase => GET_CASE_TOOL@,
        Tool::ListCases => LIST_CASES_TOOL@,
        Tool::ListMessages => LIST_MESSAGES_TOOL@,
        Tool::CreateCase => CREATE_CASE_TOOL@,
        Tool::UpdateCase => UPDATE_CASE_TOOL@,
        Tool::AssignCase => ASSIGN_CASE_TOOL@,
        Tool::TransitionCase => TRANSITION_CASE_TOOL@,
        Tool::AddMessage => ADD_MESSAGE_TOOL@,
    }
}

pub fn tool_text(tool: Tool) -> (result: &'static str)
    ensures
        result@ == tool_name(tool),
{
    match tool {
        Tool::GetCase => GET_CASE_TOOL,
        Tool::ListCases => LIST_CASES_TOOL,
        Tool::ListMessages => LIST_MESSAGES_TOOL,
        Tool::CreateCase => CREATE_CASE_TOOL,
        Tool::UpdateCase => UPDATE_CASE_TOOL,
        Tool::AssignCase => ASSIGN_CASE_TOOL,
        Tool::TransitionCase => TRANSITION_CASE_TOOL,
        Tool::AddMessage => ADD_MESSAGE_TOOL,
    }
}

/// What a tool says of itself.
pub open spec fn tool_description(tool: Tool) -> Seq<char> {
    match tool {
        Tool::GetCase => "Get one visible Support Case by stable UUID or organization-local identifier, including its current revision."@,
        Tool::ListCases => "List visible Support Cases with bounded cursor pagination and optional state, requester, or assignee filters."@,
        Tool::ListMessages => "List messages visible to the current actor for one Support Case with bounded cursor pagination."@,
        Tool::CreateCase => "Create one Support Case. Reuse the same idempotency_key when retrying the same intent."@,
        Tool::UpdateCase => "Update editable Support Case fields using the revision returned by get_case. Reuse the same idempotency_key for retries."@,
        Tool::AssignCase => "Assign or unassign one Support Case using its current revision. Reuse the same idempotency_key for retries."@,
        Tool::TransitionCase => "Transition one Support Case through its allowed lifecycle using its current revision. Reuse the same idempotency_key for retries."@,
        Tool::AddMessage => "Add one public reply or internal note to a Support Case using its current revision. Internal notes require separate authority."@,
    }
}

pub fn description_text(tool: Tool) -> (result: &'static str)
    ensures
        result@ == tool_description(tool),
{
    match tool {
        Tool::GetCase => "Get one visible Support Case by stable UUID or organization-local identifier, including its current revision.",
        Tool::ListCases => "List visible Support Cases with bounded cursor pagination and optional state, requester, or assignee filters.",
        Tool::ListMessages => "List messages visible to the current actor for one Support Case with bounded cursor pagination.",
        Tool::CreateCase => "Create one Support Case. Reuse the same idempotency_key when retrying the same intent.",
        Tool::UpdateCase => "Update editable Support Case fields using the revision returned by get_case. Reuse the same idempotency_key for retries.",
        Tool::AssignCase => "Assign or unassign one Support Case using its current revision. Reuse the same idempotency_key for retries.",
        Tool::TransitionCase => "Transition one Support Case through its allowed lifecycle using its current revision. Reuse the same idempotency_key for retries.",
        Tool::AddMessage => "Add one public reply or internal note to a Support Case using its current revision. Internal notes require separate authority.",
    }
}

/// The schema of a tool's arguments.
pub open spec fn tool_schema(tool: Tool) -> Seq<char> {
    match tool {
        Tool::GetCase => GET_CASE_SCHEMA@,
        Tool::ListCases => LIST_CASES_SCHEMA@,
        Tool::ListMessages => LIST_MESSAGES_SCHEMA@,
        Tool::CreateCase => CREATE_CASE_SCHEMA@,
        Tool::UpdateCase => UPDATE_CASE_SCHEMA@,
        Tool::AssignCase => ASSIGN_CASE_SCHEMA@,
        Tool::TransitionCase => TRANSITION_CASE_SCHEMA@,
        Tool::AddMessage => ADD_MESSAGE_SCHEMA@,
    }
}

pub fn schema_text(tool: Tool) -> (result: &'static str)
    ensures
        result@ == tool_schema(tool),
{
    match tool {
        Tool::GetCase => GET_CASE_SCHEMA,
        Tool::ListCases => LIST_CASES_SCHEMA,
        Tool::ListMessages => LIST_MESSAGES_SCHEMA,
        Tool::CreateCase => CREATE_CASE_SCHEMA,
        Tool::UpdateCase => UPDATE_CASE_SCHEMA,
        Tool::AssignCase => ASSIGN_CASE_SCHEMA,
        Tool::TransitionCase => TRANSITION_CASE_SCHEMA,
        Tool::AddMessage => ADD_MESSAGE_SCHEMA,
    }
}

/// The tools in the order of the catalog: what reads, then what changes.
pub open spec fn tools() -> Seq<Tool> {
    seq![
        Tool::GetCase,
        Tool::ListCases,
        Tool::ListMessages,
        Tool::CreateCase,
        Tool::UpdateCase,
        Tool::AssignCase,
        Tool::TransitionCase,
        Tool::AddMessage,
    ]
}

/// Reads may run side by side; changes run alone.
pub open spec fn execution_class(tool: Tool) -> ToolExecutionClass {
    match tool {
        Tool::GetCase => ToolExecutionClass::ParallelSafe,
        Tool::ListCases => ToolExecutionClass::ParallelSafe,
        Tool::ListMessages => ToolExecutionClass::ParallelSafe,
        _ => ToolExecutionClass::Exclusive,
    }
}

fn class_of(tool: Tool) -> (class: ToolExecutionClass)
    ensures
        class == execution_class(tool),
{
    match tool {
        Tool::GetCase => ToolExecutionClass::ParallelSafe,
        Tool::ListCases => ToolExecutionClass::ParallelSafe,
        Tool::ListMessages => ToolExecutionClass::ParallelSafe,
        _ => ToolExecutionClass::Exclusive,
    }
}

/// The description of a tool with a given text of its schema.
pub open spec fn definition(tool: Tool, schema: Seq<char>) -> ToolDefinitionView {
    ToolDefinitionView {
        name: tool_name(tool),
        description: tool_description(tool),
        input_schema_json: schema,
        execution: execution_class(tool),
    }
}

/// Describes a tool, with a given text of its schema.
pub fn tool(which: Tool, schema: String) -> (result: ToolDefinition)
    ensures
        result@ == definition(which, schema@),
{
    ToolDefinition {
        name: tool_text(which).to_owned(),
        description: description_text(which).to_owned(),
        input_schema_json: schema,
        execution: class_of(which),
    }
}

/// Whether the schema of every tool is JSON.
pub open spec fn schemas_are_json() -> bool {
    forall|i: int|
        0 <= i < tools().len() ==> outside::compact_json(tool_schema(#[trigger] tools()[i])) is Some
}

/// The catalog: every tool, its schema written without spaces. There is none where a
/// schema is no JSON.
pub fn tool_definitions() -> (result: Option<Vec<ToolDefinition>>)
    ensures
        match result {
            Some(definitions) => {
                &&& schemas_are_json()
                &&& definitions@.len() == tools().len()
                &&& forall|i: int|
                    0 <= i < tools().len() ==> (#[trigger] definitions@[i])@ == definition(
                        tools()[i],
                        outside::compact_json(tool_schema(tools()[i]))->0,
                    )
            },
            None => !schemas_are_json(),
        },
{
    let order: [Tool; 8] = [
        Tool::GetCase,
        Tool::ListCases,
        Tool::ListMessages,
        Tool::CreateCase,
        Tool::UpdateCase,
        Tool::AssignCase,
        Tool::TransitionCase,
        Tool::AddMessage,
    ];
    assert(order@ =~= tools());
    let mut definitions: Vec<ToolDefinition> = Vec::new();
    let mut index: usize = 0;
    while index < 8
        invariant
            index <= 8,
            order@ == tools(),
            definitions@.len() == index,
            forall|i: int|
                0 <= i < index ==> outside::compact_json(
                    tool_schema(#[trigger] tools()[i]),
                ) is Some,
            forall|i: int|
                0 <= i < index ==> (#[trigger] definitions@[i])@ == definition(
                    tools()[i],
                    outside::compact_json(tool_schema(tools()[i]))->0,
                ),
        decreases 8 - index,
    {
        let which = order[index];
        assert(which == tools()[index as int]);
        match compact(schema_text(which)) {
            Some(schema) => {
                definitions.push(tool(which, schema));
            },
            None => {
                return None;
            },
        }
        index += 1;
    }
    Some(definitions)
}

/// The tool that a name names.
pub open spec fn tool_named(name: Seq<char>) -> Option<Tool> {
    if name == CREATE_CASE_TOOL@ {
        Some(Tool::CreateCase)
    } else if name == GET_CASE_TOOL@ {
        Some(Tool::GetCase)
    } else if name == LIST_CASES_TOOL@ {
        Some(Tool::ListCases)
    } else if name == UPDATE_CASE_TOOL@ {
        Some(Tool::UpdateCase)
    } else if name == ASSIGN_CASE_TOOL@ {
        Some(Tool::AssignCase)
    } else if name == TRANSITION_CASE_TOOL@ {
        Some(Tool::TransitionCase)
    } else if name == ADD_MESSAGE_TOOL@ {
        Some(Tool::AddMessage)
    } else if name == LIST_MESSAGES_TOOL@ {
        Some(Tool::ListMessages)
    } else {
        None
    }
}

fn parse_tool(name: &str) -> (result: Option<Tool>)
    ensures
        result == tool_named(name@),
{
    if same_text(name, CREATE_CASE_TOOL) {
        Some(Tool::CreateCase)
    } else if same_text(name, GET_CASE_TOOL) {
        Some(Tool::GetCase)
    } else if same_text(name, LIST_CASES_TOOL) {
        Some(Tool::ListCases)
    } else if same_text(name, UPDATE_CASE_TOOL) {
        Some(Tool::UpdateCase)
    } else if same_text(name, ASSIGN_CASE_TOOL) {
        Some(Tool::AssignCase)
    } else if same_text(name, TRANSITION_CASE_TOOL) {
        Some(Tool::TransitionCase)
    } else if same_text(name, ADD_MESSAGE_TOOL) {
        Some(Tool::AddMessage)
    } else if same_text(name, LIST_MESSAGES_TOOL) {
        Some(Tool::ListMessages)
    } else {
        None
    }
}

/// Why an execution failed.
#[derive(Debug, Eq, PartialEq)]
pub struct ExecutionFailedPayload {
    pub reason_code: String,
    pub message: String,
    pub details_json: String,
}

/// Why a tool gave no result.
#[derive(Debug, Eq, PartialEq)]
pub enum ExecuteError {
    InvalidArguments,
    PermissionDenied,
    NotFound,
    ExecutionFailed { payload: ExecutionFailedPayload },
}

/// The view of a tool's error. An execution that failed is known by its code.
#[verifier::ext_equal]
pub enum ExecuteErrorView {
    InvalidArguments,
    PermissionDenied,
    NotFound,
    ExecutionFailed { reason_code: Seq<char>, message: Seq<char>, details_json: Seq<char> },
}

impl View for ExecuteError {
    type V = ExecuteErrorView;

    open spec fn view(&self) -> ExecuteErrorView {
        match self {
            ExecuteError::InvalidArguments => ExecuteErrorView::InvalidArguments,
            ExecuteError::PermissionDenied => ExecuteErrorView::PermissionDenied,
            ExecuteError::NotFound => ExecuteErrorView::NotFound,
            ExecuteError::ExecutionFailed { payload } => ExecuteErrorView::ExecutionFailed {
                reason_code: payload.reason_code@,
                message: payload.message@,
                details_json: payload.details_json@,
            },
        }
    }
}

/// A JSON object with one text.
pub open spec fn one_member(key: Seq<char>, value: Seq<char>) -> Seq<char> {
    wire::json_object(seq![EntryView { key, value: Some(value) }])
}

fn one_member_text(key: &str, value: &str) -> (result: String)
    ensures
        result@ == one_member(key@, value@),
{
    let mut entries: Vec<PayloadEntry> = Vec::new();
    entries.push(text_entry(key, value));
    assert(model::entries_view(entries@) =~= seq![EntryView { key: key@, value: Some(value@) }]);
    object_text(&entries)
}

/// The error of an operation that Support Case rejected.
pub open spec fn rejection(reason_code: Seq<char>) -> ExecuteErrorView {
    ExecuteErrorView::ExecutionFailed {
        reason_code,
        message: "Support Case rejected the requested operation."@,
        details_json: one_member("domain_error"@, reason_code),
    }
}

pub fn rejected(reason_code: &str) -> (error: ExecuteError)
    ensures
        error@ == rejection(reason_code@),
{
    ExecuteError::ExecutionFailed {
        payload: ExecutionFailedPayload {
            reason_code: reason_code.to_owned(),
            message: "Support Case rejected the requested operation.".to_owned(),
            details_json: one_member_text("domain_error", reason_code),
        },
    }
}

/// The tool that a request names.
pub fn find_tool(name: &str) -> (result: Result<Tool, ExecuteError>)
    ensures
        match tool_named(name@) {
            Some(tool) => result == Ok::<Tool, ExecuteError>(tool),
            None => result matches Err(error) && error@ == ExecuteErrorView::NotFound,
        },
{
    match parse_tool(name) {
        Some(tool) => Ok(tool),
        None => Err(ExecuteError::NotFound),
    }
}

/// The arguments of a tool, where they could be read.
pub fn decode<T>(arguments: Option<T>) -> (result: Result<T, ExecuteError>)
    ensures
        match arguments {
            Some(request) => result == Ok::<T, ExecuteError>(request),
            None => result matches Err(error) && error@ == ExecuteErrorView::InvalidArguments,
        },
{
    match arguments {
        Some(request) => Ok(request),
        None => Err(ExecuteError::InvalidArguments),
    }
}

/// What a tool gives back.
#[derive(Debug, Eq, PartialEq)]
pub struct ExecuteResponse {
    pub content: String,
    pub metadata_json: String,
}

/// The result of a tool, given its response as JSON, or what kept it from being
/// written.
pub fn success<F>(tool: Tool, content: Result<String, String>) -> (result: Result<
    ExecuteResponse,
    CallError<ExecuteError, F>,
>)
    ensures
        match content {
            Ok(written) => result matches Ok(response) && response.content == written
                && response.metadata_json@ == one_member("tool"@, tool_name(tool)),
            Err(error) => result matches Err(CallError::Runtime(fault)) && fault@
                == FaultView::<F>::PluginFailure(
                "Support Case Tool could not serialize its typed response: "@ + error@,
            ),
        },
{
    match content {
        Ok(content) => Ok(
            ExecuteResponse { content, metadata_json: one_member_text("tool", tool_text(tool)) },
        ),
        Err(error) => {
            let mut detail =
                "Support Case Tool could not serialize its typed response: ".to_owned();
            detail.append(error.as_str());
            Err(CallError::Runtime(Fault::PluginFailure { detail }))
        },
    }
}

/// A domain error that an agent can be told.
pub trait DomainToolError {
    /// What the agent is told.
    spec fn tool_error(&self) -> ExecuteErrorView;

    fn to_tool_error(&self) -> (error: ExecuteError)
        ensures
            error@ == self.tool_error(),
    ;
}

/// What an agent is told of a domain error.
pub fn map_domain_error<T: DomainToolError>(domain: &T) -> (error: ExecuteError)
    ensures
        error@ == domain.tool_error(),
{
    domain.to_tool_error()
}

impl DomainToolError for GetCaseError {
    open spec fn tool_error(&self) -> ExecuteErrorView {
        match self {
            GetCaseError::InvalidRequest => ExecuteErrorView::InvalidArguments,
            GetCaseError::CaseNotFound => ExecuteErrorView::NotFound,
            GetCaseError::Forbidden => ExecuteErrorView::PermissionDenied,
            GetCaseError::Unauthenticated => ExecuteErrorView::PermissionDenied,
            GetCaseError::Unknown(_) => rejection("unknown_domain_error"@),
        }
    }

    fn to_tool_error(&self) -> (error: ExecuteError) {
        match self {
            GetCaseError::InvalidRequest => ExecuteError::InvalidArguments,
            GetCaseError::CaseNotFound => ExecuteError::NotFound,
            GetCaseError::Forbidden => ExecuteError::PermissionDenied,
            GetCaseError::Unauthenticated => ExecuteError::PermissionDenied,
            GetCaseError::Unknown(_) => rejected("unknown_domain_error"),
        }
    }
}

impl DomainToolError for ListMessagesError {
    open spec fn tool_error(&self) -> ExecuteErrorView {
        match self {
            ListMessagesError::InvalidRequest => ExecuteErrorView::InvalidArguments,
            ListMessagesError::CaseNotFound => ExecuteErrorView::NotFound,
            ListMessagesError::Forbidden => ExecuteErrorView::PermissionDenied,
            ListMessagesError::Unauthenticated => ExecuteErrorView::PermissionDenied,
            ListMessagesError::Unknown(_) => rejection("unknown_domain_error"@),
        }
    }

    fn to_tool_error(&self) -> (error: ExecuteError) {
        match self {
            ListMessagesError::InvalidRequest => ExecuteError::InvalidArguments,
            ListMessagesError::CaseNotFound => ExecuteError::NotFound,
            ListMessagesError::Forbidden => ExecuteError::PermissionDenied,
            ListMessagesError::Unauthenticated => ExecuteError::PermissionDenied,
            ListMessagesError::Unknown(_) => rejected("unknown_domain_error"),
        }
    }
}

impl DomainToolError for ListCasesError {
    open spec fn tool_error(&self) -> ExecuteErrorView {
        match self {
            ListCasesError::InvalidRequest => ExecuteErrorView::InvalidArguments,
            ListCasesError::Forbidden => ExecuteErrorView::PermissionDenied,
            ListCasesError::Unauthenticated => ExecuteErrorView::PermissionDenied,
            ListCasesError::Unknown(_) => rejection("unknown_domain_error"@),
        }
    }

    fn to_tool_error(&self) -> (error: ExecuteError) {
        match self {
            ListCasesError::InvalidRequest => ExecuteError::InvalidArguments,
            ListCasesError::Forbidden => ExecuteError::PermissionDenied,
            ListCasesError::Unauthenticated => ExecuteError::PermissionDenied,
            ListCasesError::Unknown(_) => rejected("unknown_domain_error"),
        }
    }
}

impl DomainToolError for AddMessageError {
    open spec fn tool_error(&self) -> ExecuteErrorView {
        match self {
            AddMessageError::InvalidRequest => ExecuteErrorView::InvalidArguments,
            AddMessageError::CaseNotFound => ExecuteErrorView::NotFound,
            AddMessageError::IdempotencyConflict => rejection("idempotency_conflict"@),
            AddMessageError::RevisionConflict => rejection("revision_conflict"@),
            AddMessageError::Forbidden => ExecuteErrorView::PermissionDenied,
            AddMessageError::Unauthenticated => ExecuteErrorView::PermissionDenied,
            AddMessageError::Unknown(_) => rejection("unknown_domain_error"@),
        }
    }

    fn to_tool_error(&self) -> (error: ExecuteError) {
        match self {
            AddMessageError::InvalidRequest => ExecuteError::InvalidArguments,
            AddMessageError::CaseNotFound => ExecuteError::NotFound,
            AddMessageError::IdempotencyConflict => rejected("idempotency_conflict"),
            AddMessageError::RevisionConflict => rejected("revision_conflict"),
            AddMessageError::Forbidden => ExecuteError::PermissionDenied,
            AddMessageError::Unauthenticated => ExecuteError::PermissionDenied,
            AddMessageError::Unknown(_) => rejected("unknown_domain_error"),
        }
    }
}

impl DomainToolError for AssignCaseError {
    open spec fn tool_error(&self) -> ExecuteErrorView {
        match self {
            AssignCaseError::InvalidRequest => ExecuteErrorView::InvalidArguments,
            AssignCaseError::CaseNotFound => ExecuteErrorView::NotFound,
            AssignCaseError::IdempotencyConflict => rejection("idempotency_conflict"@),
            AssignCaseError::RevisionConflict => rejection("revision_conflict"@),
            AssignCaseError::Forbidden => ExecuteErrorView::PermissionDenied,
            AssignCaseError::Unauthenticated => ExecuteErrorView::PermissionDenied,
            AssignCaseError::Unknown(_) => rejection("unknown_domain_error"@),
        }
    }

    fn to_tool_error(&self) -> (error: ExecuteError) {
        match self {
            AssignCaseError::InvalidRequest => ExecuteError::InvalidArguments,
            AssignCaseError::CaseNotFound => ExecuteError::NotFound,
            AssignCaseError::IdempotencyConflict => rejected("idempotency_conflict"),
            AssignCaseError::RevisionConflict => rejected("revision_conflict"),
            AssignCaseError::Forbidden => ExecuteError::PermissionDenied,
            AssignCaseError::Unauthenticated => ExecuteError::PermissionDenied,
            AssignCaseError::Unknown(_) => rejected("unknown_domain_error"),
        }
    }
}

impl DomainToolError for UpdateCaseError {
    open spec fn tool_error(&self) -> ExecuteErrorView {
        match self {
            UpdateCaseError::InvalidRequest => ExecuteErrorView::InvalidArguments,
            UpdateCaseError::CaseNotFound => ExecuteErrorView::NotFound,
            UpdateCaseError::IdempotencyConflict => rejection("idempotency_conflict"@),
            UpdateCaseError::RevisionConflict => rejection("revision_conflict"@),
            UpdateCaseError::Forbidden => ExecuteErrorView::PermissionDenied,
            UpdateCaseError::Unauthenticated => ExecuteErrorView::PermissionDenied,
            UpdateCaseError::Unknown(_) => rejection("unknown_domain_error"@),
        }
    }

    fn to_tool_error(&self) -> (error: ExecuteError) {
        match self {
            UpdateCaseError::InvalidRequest => ExecuteError::InvalidArguments,
            UpdateCaseError::CaseNotFound => ExecuteError::NotFound,
            UpdateCaseError::IdempotencyConflict => rejected("idempotency_conflict"),
            UpdateCaseError::RevisionConflict => rejected("revision_conflict"),
            UpdateCaseError::Forbidden => ExecuteError::PermissionDenied,
            UpdateCaseError::Unauthenticated => ExecuteError::PermissionDenied,
            UpdateCaseError::Unknown(_) => rejected("unknown_domain_error"),
        }
    }
}

impl DomainToolError for CreateCaseError {
    open spec fn tool_error(&self) -> ExecuteErrorView {
        match self {
            CreateCaseError::InvalidRequest => ExecuteErrorView::InvalidArguments,
            CreateCaseError::IdempotencyConflict => rejection("idempotency_conflict"@),
            CreateCaseError::Forbidden => ExecuteErrorView::PermissionDenied,
            CreateCaseError::Unauthenticated => ExecuteErrorView::PermissionDenied,
            CreateCaseError::Unknown(_) => rejection("unknown_domain_error"@),
        }
    }

    fn to_tool_error(&self) -> (error: ExecuteError) {
        match self {
            CreateCaseError::InvalidRequest => ExecuteError::InvalidArguments,
            CreateCaseError::IdempotencyConflict => rejected("idempotency_conflict"),
            CreateCaseError::Forbidden => ExecuteError::PermissionDenied,
            CreateCaseError::Unauthenticated => ExecuteError::PermissionDenied,
            CreateCaseError::Unknown(_) => rejected("unknown_domain_error"),
        }
    }
}

impl DomainToolError for TransitionCaseError {
    open spec fn tool_error(&self) -> ExecuteErrorView {
        match self {
            TransitionCaseError::InvalidRequest => ExecuteErrorView::InvalidArguments,
            TransitionCaseError::CaseNotFound => ExecuteErrorView::NotFound,
            TransitionCaseError::IdempotencyConflict => rejection("idempotency_conflict"@),
            TransitionCaseError::InvalidTransition => rejection("invalid_transition"@),
            TransitionCaseError::RevisionConflict => rejection("revision_conflict"@),
            TransitionCaseError::Forbidden => ExecuteErrorView::PermissionDenied,
            TransitionCaseError::Unauthenticated => ExecuteErrorView::PermissionDenied,
            TransitionCaseError::Unknown(_) => rejection("unknown_domain_error"@),
        }
    }

    fn to_tool_error(&self) -> (error: ExecuteError) {
        match self {
            TransitionCaseError::InvalidRequest => ExecuteError::InvalidArguments,
            TransitionCaseError::CaseNotFound => ExecuteError::NotFound,
            TransitionCaseError::IdempotencyConflict => rejected("idempotency_conflict"),
            TransitionCaseError::InvalidTransition => rejected("invalid_transition"),
            TransitionCaseError::RevisionConflict => rejected("revision_conflict"),
            TransitionCaseError::Forbidden => ExecuteError::PermissionDenied,
            TransitionCaseError::Unauthenticated => ExecuteError::PermissionDenied,
            TransitionCaseError::Unknown(_) => rejected("unknown_domain_error"),
        }
    }
}

/// What came back from the operation behind a tool.
#[derive(Debug, Eq, PartialEq)]
pub enum ToolReply<T, F> {
    /// Its response as JSON, or what kept it from being written.
    Response(Result<String, String>),
    /// Its domain error.
    Domain(T),
    /// The failure of the runtime.
    Runtime(F),
}

/// What a tool answers to what came back.
pub fn execute<T: DomainToolError, F>(tool: Tool, reply: ToolReply<T, F>) -> (result: Result<
    ExecuteResponse,
    CallError<ExecuteError, F>,
>)
    ensures
        match reply {
            ToolReply::Response(Ok(content)) => result matches Ok(response) && response.content
                == content && response.metadata_json@ == one_member("tool"@, tool_name(tool)),
            ToolReply::Response(Err(error)) => result matches Err(CallError::Runtime(fault))
                && fault@ == FaultView::<F>::PluginFailure(
                "Support Case Tool could not serialize its typed response: "@ + error@,
            ),
            ToolReply::Domain(domain) => result matches Err(CallError::Domain(error)) && error@
                == domain.tool_error(),
            ToolReply::Runtime(failure) => result matches Err(CallError::Runtime(fault)) && fault@
                == FaultView::<F>::Dependency(failure),
        },
{
    match reply {
        ToolReply::Response(content) => success(tool, content),
        ToolReply::Domain(domain) => Err(CallError::Domain(map_domain_error(&domain))),
        ToolReply::Runtime(failure) => Err(CallError::Runtime(Fault::Dependency(failure))),
    }
}

/// Every tool is found under its name.
pub proof fn law_tools_are_found(tool: Tool)
    ensures
        tool_named(tool_name(tool)) == Some(tool),
{
    reveal_strlit("support_case_get_case");
    reveal_strlit("support_case_list_cases");
    reveal_strlit("support_case_list_messages");
    reveal_strlit("support_case_create_case");
    reveal_strlit("support_case_update_case");
    reveal_strlit("support_case_assign_case");
    reveal_strlit("support_case_transition_case");
    reveal_strlit("support_case_add_message");
    assert(GET_CASE_TOOL@.len() == 21 && GET_CASE_TOOL@[13] == 'g' && GET_CASE_TOOL@[14] == 'e');
    assert(LIST_CASES_TOOL@.len() == 23 && LIST_CASES_TOOL@[13] == 'l' && LIST_CASES_TOOL@[14] == 'i');
    assert(LIST_MESSAGES_TOOL@.len() == 26 && LIST_MESSAGES_TOOL@[13] == 'l' && LIST_MESSAGES_TOOL@[14] == 'i');
    assert(CREATE_CASE_TOOL@.len() == 24 && CREATE_CASE_TOOL@[13] == 'c' && CREATE_CASE_TOOL@[14] == 'r');
    assert(UPDATE_CASE_TOOL@.len() == 24 && UPDATE_CASE_TOOL@[13] == 'u' && UPDATE_CASE_TOOL@[14] == 'p');
    assert(ASSIGN_CASE_TOOL@.len() == 24 && ASSIGN_CASE_TOOL@[13] == 'a' && ASSIGN_CASE_TOOL@[14] == 's');
    assert(TRANSITION_CASE_TOOL@.len() == 28 && TRANSITION_CASE_TOOL@[13] == 't' && TRANSITION_CASE_TOOL@[14] == 'r');
    assert(ADD_MESSAGE_TOOL@.len() == 24 && ADD_MESSAGE_TOOL@[13] == 'a' && ADD_MESSAGE_TOOL@[14] == 'd');
}

/// The catalog has three tools that read, side by side, and five that change, alone.
pub proof fn law_catalog_reads_are_parallel()
    ensures
        tools().len() == 8,
        tools().filter(|tool: Tool| execution_class(tool) is ParallelSafe) == seq![
            Tool::GetCase,
            Tool::ListCases,
            Tool::ListMessages,
        ],
        tools().filter(|tool: Tool| execution_class(tool) is Exclusive).len() == 5,
{
    let reads = |tool: Tool| execution_class(tool) is ParallelSafe;
    let changes = |tool: Tool| execution_class(tool) is Exclusive;
    reveal_with_fuel(Seq::filter, 9);
    let all = tools();
    let t7 = all.drop_last();
    let t6 = t7.drop_last();
    let t5 = t6.drop_last();
    let t4 = t5.drop_last();
    let t3 = t4.drop_last();
    let t2 = t3.drop_last();
    let t1 = t2.drop_last();
    let t0 = t1.drop_last();
    assert(t7 =~= all.take(7));
    assert(t6 =~= all.take(6));
    assert(t5 =~= all.take(5));
    assert(t4 =~= all.take(4));
    assert(t3 =~= all.take(3));
    assert(t2 =~= all.take(2));
    assert(t1 =~= all.take(1));
    assert(t0 =~= all.take(0));
    assert(t0 =~= Seq::empty());
    assert(all.filter(reads) =~= seq![Tool::GetCase, Tool::ListCases, Tool::ListMessages]);
}

} // verus!
