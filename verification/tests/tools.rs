use support_case::failures::{
    AddMessageError, AssignCaseError, CreateCaseError, GetCaseError, ListCasesError,
    ListMessagesError, TransitionCaseError, UpdateCaseError,
};
use support_case::fault::{CallError, Fault};
use support_case::requests::GetCaseRequest;
use support_case::tools::{
    decode, execute, find_tool, map_domain_error, schema_text, tool_definitions, tool_text,
    DomainToolError, ExecuteError, Tool, ToolExecutionClass, ToolReply, GET_CASE_TOOL,
};

fn parse(arguments: &str) -> Option<GetCaseRequest> {
    let value: serde_json::Value = serde_json::from_str(arguments).ok()?;
    Some(GetCaseRequest {
        organization_id: value.get("organization_id")?.as_str()?.to_owned(),
        case_ref: value.get("case_ref")?.as_str()?.to_owned(),
    })
}

#[test]
fn catalog_has_three_parallel_reads_and_five_exclusive_mutations() {
    let tools = tool_definitions().unwrap();
    assert_eq!(tools.len(), 8);
    assert_eq!(
        tools
            .iter()
            .filter(|tool| tool.execution == ToolExecutionClass::ParallelSafe)
            .count(),
        3
    );
    assert_eq!(
        tools
            .iter()
            .filter(|tool| tool.execution == ToolExecutionClass::Exclusive)
            .count(),
        5
    );
    assert!(tools.iter().all(|tool| {
        let schema: serde_json::Value =
            serde_json::from_str(tool.input_schema_json.as_str()).unwrap();
        schema["additionalProperties"] == false
    }));
}

#[test]
fn exact_capability_requests_decode_without_adapter_owned_business_fields() {
    let get = decode(parse(r#"{"organization_id":"org-1","case_ref":"SUP-42"}"#)).unwrap();
    assert_eq!(get.case_ref, "SUP-42");

    assert!(decode(parse(r#"{"case_ref":42}"#)).is_err());
}

#[test]
fn authorization_not_found_and_lifecycle_failures_remain_distinct() {
    assert_eq!(
        map_domain_error(&GetCaseError::Forbidden),
        ExecuteError::PermissionDenied
    );
    assert_eq!(
        map_domain_error(&GetCaseError::CaseNotFound),
        ExecuteError::NotFound
    );
    let ExecuteError::ExecutionFailed { payload } =
        map_domain_error(&TransitionCaseError::InvalidTransition)
    else {
        panic!("invalid transition must remain an execution failure");
    };
    assert_eq!(payload.reason_code, "invalid_transition");
}

#[test]
fn schemas_are_written_without_spaces() {
    for tool in tool_definitions().unwrap() {
        let which = find_tool(&tool.name).unwrap();
        let schema: serde_json::Value = serde_json::from_str(schema_text(which)).unwrap();
        assert_eq!(tool.input_schema_json, schema.to_string());
        assert!(!tool.description.is_empty());
    }
}

#[test]
fn tools_are_found_by_name() {
    for tool in [
        Tool::GetCase,
        Tool::ListCases,
        Tool::ListMessages,
        Tool::CreateCase,
        Tool::UpdateCase,
        Tool::AssignCase,
        Tool::TransitionCase,
        Tool::AddMessage,
    ] {
        assert_eq!(find_tool(tool_text(tool)), Ok(tool));
    }
    assert_eq!(find_tool("support_case_delete_case"), Err(ExecuteError::NotFound));
    assert_eq!(GET_CASE_TOOL, "support_case_get_case");
}

#[test]
fn unreadable_arguments_are_invalid() {
    assert_eq!(decode::<u8>(None), Err(ExecuteError::InvalidArguments));
    assert_eq!(decode(Some(7_u8)), Ok(7));
}

fn code<T: DomainToolError>(error: &T) -> String {
    match map_domain_error(error) {
        ExecuteError::ExecutionFailed { payload } => {
            assert_eq!(payload.message, "Support Case rejected the requested operation.");
            assert_eq!(
                payload.details_json,
                format!("{{\"domain_error\":\"{}\"}}", payload.reason_code)
            );
            payload.reason_code
        }
        other => format!("{other:?}"),
    }
}

#[test]
fn every_domain_error_has_its_tool_error() {
    assert_eq!(code(&GetCaseError::InvalidRequest), "InvalidArguments");
    assert_eq!(code(&GetCaseError::Unauthenticated), "PermissionDenied");
    assert_eq!(code(&GetCaseError::Unknown("x".to_owned())), "unknown_domain_error");
    assert_eq!(code(&ListMessagesError::CaseNotFound), "NotFound");
    assert_eq!(code(&ListCasesError::Forbidden), "PermissionDenied");
    assert_eq!(code(&AddMessageError::RevisionConflict), "revision_conflict");
    assert_eq!(code(&AssignCaseError::IdempotencyConflict), "idempotency_conflict");
    assert_eq!(code(&UpdateCaseError::CaseNotFound), "NotFound");
    assert_eq!(code(&CreateCaseError::IdempotencyConflict), "idempotency_conflict");
    assert_eq!(code(&TransitionCaseError::RevisionConflict), "revision_conflict");
    assert_eq!(code(&TransitionCaseError::Forbidden), "PermissionDenied");
}

#[test]
fn replies_become_answers() {
    let response: ToolReply<GetCaseError, &str> = ToolReply::Response(Ok("{}".to_owned()));
    let answer = execute(Tool::GetCase, response).unwrap();
    assert_eq!(answer.content, "{}");
    assert_eq!(answer.metadata_json, r#"{"tool":"support_case_get_case"}"#);
    let unwritten: ToolReply<GetCaseError, &str> = ToolReply::Response(Err("boom".to_owned()));
    assert_eq!(
        execute(Tool::GetCase, unwritten),
        Err(CallError::Runtime(Fault::PluginFailure {
            detail: "Support Case Tool could not serialize its typed response: boom".to_owned()
        }))
    );
    let refused: ToolReply<GetCaseError, &str> = ToolReply::Domain(GetCaseError::CaseNotFound);
    assert_eq!(
        execute(Tool::GetCase, refused),
        Err(CallError::Domain(ExecuteError::NotFound))
    );
    let failed: ToolReply<GetCaseError, &str> = ToolReply::Runtime("timeout");
    assert_eq!(
        execute(Tool::GetCase, failed),
        Err(CallError::Runtime(Fault::Dependency("timeout")))
    );
}
