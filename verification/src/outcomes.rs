//! What becomes of a refusal: the error that a caller gets, and what an agent is told.

use vstd::prelude::*;
use vstd::string::*;

use crate::failures;
use crate::failures::{
    AddMessageError, AssignCaseError, CreateCaseError, GetCaseError, ListCasesError,
    ListMessagesError, TransitionCaseError, UpdateCaseError,
};
use crate::model::{DomainFailure, EntryView};
use crate::tools::{DomainToolError, ExecuteErrorView};
use crate::wire;

verus! {

/// A creation that is refused for its key is told so, and of any other refusal only
/// that the request is not valid.
pub proof fn law_refused_creations_are_told_why(failure: DomainFailure)
    ensures
        ({
            let told = failures::create_failure(failure);
            &&& told is IdempotencyConflict <==> failure is IdempotencyConflict
            &&& failure !is IdempotencyConflict ==> told is InvalidRequest
        }),
{
}

/// An update that is refused as forbidden, for want of its case, for its revision or
/// for its key is told so, and of any other refusal only that the request is not valid.
pub proof fn law_refused_updates_are_told_why(failure: DomainFailure)
    ensures
        ({
            let told = failures::update_failure(failure);
            &&& told is Forbidden <==> failure is Forbidden
            &&& told is CaseNotFound <==> failure is CaseNotFound
            &&& told is RevisionConflict <==> failure is RevisionConflict
            &&& told is IdempotencyConflict <==> failure is IdempotencyConflict
            &&& failure !is Forbidden
                && failure !is CaseNotFound
                && failure !is RevisionConflict
                && failure !is IdempotencyConflict ==> told is InvalidRequest
        }),
{
}

/// An assignment that is refused as forbidden, for want of its case, for its revision
/// or for its key is told so, and of any other refusal only that the request is not
/// valid.
pub proof fn law_refused_assignments_are_told_why(failure: DomainFailure)
    ensures
        ({
            let told = failures::assign_failure(failure);
            &&& told is Forbidden <==> failure is Forbidden
            &&& told is CaseNotFound <==> failure is CaseNotFound
            &&& told is RevisionConflict <==> failure is RevisionConflict
            &&& told is IdempotencyConflict <==> failure is IdempotencyConflict
            &&& failure !is Forbidden
                && failure !is CaseNotFound
                && failure !is RevisionConflict
                && failure !is IdempotencyConflict ==> told is InvalidRequest
        }),
{
}

/// A transition that is refused as forbidden, for want of its case, for its revision,
/// for its key or for its target is told so, and of any other refusal only that the
/// request is not valid.
pub proof fn law_refused_transitions_are_told_why(failure: DomainFailure)
    ensures
        ({
            let told = failures::transition_failure(failure);
            &&& told is Forbidden <==> failure is Forbidden
            &&& told is CaseNotFound <==> failure is CaseNotFound
            &&& told is RevisionConflict <==> failure is RevisionConflict
            &&& told is IdempotencyConflict <==> failure is IdempotencyConflict
            &&& told is InvalidTransition <==> failure is InvalidTransition
            &&& failure !is Forbidden
                && failure !is CaseNotFound
                && failure !is RevisionConflict
                && failure !is IdempotencyConflict
                && failure !is InvalidTransition ==> told is InvalidRequest
        }),
{
}

/// A message that is refused as forbidden, for want of its case, for its revision or
/// for its key is told so, and of any other refusal only that the request is not valid.
pub proof fn law_refused_messages_are_told_why(failure: DomainFailure)
    ensures
        ({
            let told = failures::message_failure(failure);
            &&& told is Forbidden <==> failure is Forbidden
            &&& told is CaseNotFound <==> failure is CaseNotFound
            &&& told is RevisionConflict <==> failure is RevisionConflict
            &&& told is IdempotencyConflict <==> failure is IdempotencyConflict
            &&& failure !is Forbidden
                && failure !is CaseNotFound
                && failure !is RevisionConflict
                && failure !is IdempotencyConflict ==> told is InvalidRequest
        }),
{
}

/// A channel's new case that is refused as forbidden or for its key is told so, and of
/// any other refusal only that the request is not valid.
pub proof fn law_refused_channel_cases_are_told_why(failure: DomainFailure)
    ensures
        ({
            let told = failures::intake_open_failure(failure);
            &&& told is Forbidden <==> failure is Forbidden
            &&& told is IdempotencyConflict <==> failure is IdempotencyConflict
            &&& failure !is Forbidden
                && failure !is IdempotencyConflict ==> told is InvalidRequest
        }),
{
}

/// A channel's message that is refused as forbidden, for want of its case, for its
/// revision or for its key is told so, and of any other refusal only that the request
/// is not valid.
pub proof fn law_refused_channel_messages_are_told_why(failure: DomainFailure)
    ensures
        ({
            let told = failures::intake_message_failure(failure);
            &&& told is Forbidden <==> failure is Forbidden
            &&& told is CaseNotFound <==> failure is CaseNotFound
            &&& told is RevisionConflict <==> failure is RevisionConflict
            &&& told is IdempotencyConflict <==> failure is IdempotencyConflict
            &&& failure !is Forbidden
                && failure !is CaseNotFound
                && failure !is RevisionConflict
                && failure !is IdempotencyConflict ==> told is InvalidRequest
        }),
{
}

/// Whether an agent is told a reason of the domain, in words and as JSON.
pub open spec fn told_with_reason(error: ExecuteErrorView, reason: Seq<char>) -> bool {
    error matches ExecuteErrorView::ExecutionFailed { reason_code, message, details_json }
        && reason_code == reason && message == "Support Case rejected the requested operation."@
        && details_json == wire::json_object(
        seq![EntryView { key: "domain_error"@, value: Some(reason) }],
    )
}

/// An agent is told of a refused `get_case` that its arguments are not valid, that it
/// is not permitted, that there is no such case, or the reason that the domain gives.
pub proof fn law_agents_are_told_of_get_case(error: GetCaseError)
    ensures
        error.tool_error() is InvalidArguments <==> error is InvalidRequest,
        error.tool_error() is PermissionDenied <==> error is Forbidden || error is Unauthenticated,
        error.tool_error() is NotFound <==> error is CaseNotFound,
        error is Unknown ==> told_with_reason(error.tool_error(), "unknown_domain_error"@),
{
}

/// An agent is told of a refused `list_messages` that its arguments are not valid, that
/// it is not permitted, that there is no such case, or the reason that the domain
/// gives.
pub proof fn law_agents_are_told_of_list_messages(error: ListMessagesError)
    ensures
        error.tool_error() is InvalidArguments <==> error is InvalidRequest,
        error.tool_error() is PermissionDenied <==> error is Forbidden || error is Unauthenticated,
        error.tool_error() is NotFound <==> error is CaseNotFound,
        error is Unknown ==> told_with_reason(error.tool_error(), "unknown_domain_error"@),
{
}

/// An agent is told of a refused `list_cases` that its arguments are not valid, that it
/// is not permitted, or the reason that the domain gives.
pub proof fn law_agents_are_told_of_list_cases(error: ListCasesError)
    ensures
        error.tool_error() is InvalidArguments <==> error is InvalidRequest,
        error.tool_error() is PermissionDenied <==> error is Forbidden || error is Unauthenticated,
        !(error.tool_error() is NotFound),
        error is Unknown ==> told_with_reason(error.tool_error(), "unknown_domain_error"@),
{
}

/// An agent is told of a refused `add_message` that its arguments are not valid, that
/// it is not permitted, that there is no such case, or the reason that the domain
/// gives.
pub proof fn law_agents_are_told_of_add_message(error: AddMessageError)
    ensures
        error.tool_error() is InvalidArguments <==> error is InvalidRequest,
        error.tool_error() is PermissionDenied <==> error is Forbidden || error is Unauthenticated,
        error.tool_error() is NotFound <==> error is CaseNotFound,
        error is IdempotencyConflict ==> told_with_reason(
            error.tool_error(),
            "idempotency_conflict"@,
        ),
        error is RevisionConflict ==> told_with_reason(error.tool_error(), "revision_conflict"@),
        error is Unknown ==> told_with_reason(error.tool_error(), "unknown_domain_error"@),
{
}

/// An agent is told of a refused `assign_case` that its arguments are not valid, that
/// it is not permitted, that there is no such case, or the reason that the domain
/// gives.
pub proof fn law_agents_are_told_of_assign_case(error: AssignCaseError)
    ensures
        error.tool_error() is InvalidArguments <==> error is InvalidRequest,
        error.tool_error() is PermissionDenied <==> error is Forbidden || error is Unauthenticated,
        error.tool_error() is NotFound <==> error is CaseNotFound,
        error is IdempotencyConflict ==> told_with_reason(
            error.tool_error(),
            "idempotency_conflict"@,
        ),
        error is RevisionConflict ==> told_with_reason(error.tool_error(), "revision_conflict"@),
        error is Unknown ==> told_with_reason(error.tool_error(), "unknown_domain_error"@),
{
}

/// An agent is told of a refused `update_case` that its arguments are not valid, that
/// it is not permitted, that there is no such case, or the reason that the domain
/// gives.
pub proof fn law_agents_are_told_of_update_case(error: UpdateCaseError)
    ensures
        error.tool_error() is InvalidArguments <==> error is InvalidRequest,
        error.tool_error() is PermissionDenied <==> error is Forbidden || error is Unauthenticated,
        error.tool_error() is NotFound <==> error is CaseNotFound,
        error is IdempotencyConflict ==> told_with_reason(
            error.tool_error(),
            "idempotency_conflict"@,
        ),
        error is RevisionConflict ==> told_with_reason(error.tool_error(), "revision_conflict"@),
        error is Unknown ==> told_with_reason(error.tool_error(), "unknown_domain_error"@),
{
}

/// An agent is told of a refused `create_case` that its arguments are not valid, that
/// it is not permitted, or the reason that the domain gives.
pub proof fn law_agents_are_told_of_create_case(error: CreateCaseError)
    ensures
        error.tool_error() is InvalidArguments <==> error is InvalidRequest,
        error.tool_error() is PermissionDenied <==> error is Forbidden || error is Unauthenticated,
        !(error.tool_error() is NotFound),
        error is IdempotencyConflict ==> told_with_reason(
            error.tool_error(),
            "idempotency_conflict"@,
        ),
        error is Unknown ==> told_with_reason(error.tool_error(), "unknown_domain_error"@),
{
}

/// An agent is told of a refused `transition_case` that its arguments are not valid,
/// that it is not permitted, that there is no such case, or the reason that the domain
/// gives.
pub proof fn law_agents_are_told_of_transition_case(error: TransitionCaseError)
    ensures
        error.tool_error() is InvalidArguments <==> error is InvalidRequest,
        error.tool_error() is PermissionDenied <==> error is Forbidden || error is Unauthenticated,
        error.tool_error() is NotFound <==> error is CaseNotFound,
        error is IdempotencyConflict ==> told_with_reason(
            error.tool_error(),
            "idempotency_conflict"@,
        ),
        error is RevisionConflict ==> told_with_reason(error.tool_error(), "revision_conflict"@),
        error is InvalidTransition ==> told_with_reason(error.tool_error(), "invalid_transition"@),
        error is Unknown ==> told_with_reason(error.tool_error(), "unknown_domain_error"@),
{
}

} // verus!
