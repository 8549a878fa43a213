//! What a call of the back office goes through before it is served.

use vstd::prelude::*;
use vstd::string::*;

use crate::access;
use crate::access::{BackOffice, CheckView, Demand, Event, Refusal, Reply, StageView};
use crate::cursor;
use crate::decimal;
use crate::fault::{CallErrorView, FaultView};
use crate::intake;
use crate::outside;
use crate::requests::{
    AddMessageRequest, AssignCaseRequest, CreateCaseRequest, GetCaseRequest, ListCasesRequest,
    ListMessagesRequest, TransitionCaseRequest, UpdateCaseRequest,
};
use crate::validate;

verus! {

/// A caller is allowed exactly where its whole name is in the list.
pub proof fn law_callers_are_allowed_by_name(allowed: Seq<String>, caller: Option<&str>)
    ensures
        intake::caller_allowed(allowed, caller) <==> caller is Some && exists|i: int|
            0 <= i < allowed.len() && (#[trigger] allowed[i])@ == (caller->0)@,
{
}

/// The actor comes first: without an opaque identifier of one a call is unauthenticated,
/// whatever it asks for. Then the request: one that breaks its rules is not valid. Only
/// then the dependencies are asked, beginning with the first question, and no answer is
/// there before it is given.
pub proof fn law_actors_come_first<R: BackOffice, F>(request: R, projected: Option<String>)
    ensures
        ({
            let stage = access::next_stage::<R, F>(
                request,
                StageView::Authenticate,
                Event::Actor(projected),
            );
            let known = projected is Some && validate::opaque_id((projected->0)@, 512);
            &&& !known ==> stage == StageView::<R::Error, F>::Ended(
                CallErrorView::Domain(R::refusal(Refusal::Unauthenticated)),
            )
            &&& known && !request.valid() ==> stage == StageView::<R::Error, F>::Ended(
                CallErrorView::Domain(R::refusal(Refusal::InvalidRequest)),
            )
            &&& known && request.valid() ==> stage == (StageView::<R::Error, F>::Check {
                actor: (projected->0)@,
                checks: request.checks((projected->0)@),
                answers: Seq::empty(),
            })
        }),
{
    if projected is Some {
        request.membership_comes_first((projected->0)@);
    }
}

/// An answer is kept as it was given. A no ends the call exactly where the question says
/// so, with the refusal that the question names; otherwise the next question is asked,
/// and after the last one the storage is handed over.
pub proof fn law_answers_are_kept<R: BackOffice, F>(
    request: R,
    actor: Seq<char>,
    checks: Seq<CheckView>,
    answers: Seq<bool>,
    answer: bool,
)
    requires
        answers.len() < checks.len(),
    ensures
        ({
            let check = checks[answers.len() as int];
            let stage = access::next_stage::<R, F>(
                request,
                StageView::Check { actor, checks, answers },
                Event::Reply(Reply::Answered(answer)),
            );
            let denied = !answer && check.denial is Some;
            &&& denied ==> stage == StageView::<R::Error, F>::Ended(
                CallErrorView::Domain(R::refusal(check.denial->0)),
            )
            &&& !denied && answers.len() + 1 < checks.len() ==> stage == (StageView::<
                R::Error,
                F,
            >::Check { actor, checks, answers: answers.push(answer) })
            &&& !denied && answers.len() + 1 == checks.len() ==> stage == (StageView::<
                R::Error,
                F,
            >::Open { actor, answers: answers.push(answer) })
        }),
{
}

/// A dependency that rejects a question or fails ends the call, and is named or passed
/// on.
pub proof fn law_failed_questions_end_the_call<R: BackOffice, F>(
    request: R,
    actor: Seq<char>,
    checks: Seq<CheckView>,
    answers: Seq<bool>,
    failure: F,
)
    requires
        answers.len() < checks.len(),
    ensures
        ({
            let check = checks[answers.len() as int];
            let asked = StageView::<R::Error, F>::Check { actor, checks, answers };
            let rejected = access::next_stage(request, asked, Event::Reply(Reply::Rejected));
            let failed = access::next_stage(request, asked, Event::Reply(Reply::Failed(failure)));
            &&& check.demand is Membership ==> rejected == StageView::<R::Error, F>::Ended(
                CallErrorView::Runtime(
                    FaultView::PluginFailure(
                        "Organization Membership rejected a Support Case authorization query"@,
                    ),
                ),
            )
            &&& check.demand is Permission ==> rejected == StageView::<R::Error, F>::Ended(
                CallErrorView::Runtime(
                    FaultView::PluginFailure(
                        "Access Control rejected a Support Case authorization query"@,
                    ),
                ),
            )
            &&& failed == StageView::<R::Error, F>::Ended(
                CallErrorView::Runtime(FaultView::Dependency(failure)),
            )
        }),
{
}

/// With a storage the call is served for its actor with all its answers; without one it
/// fails.
pub proof fn law_calls_are_served_with_a_storage<R: BackOffice, F>(
    request: R,
    actor: Seq<char>,
    answers: Seq<bool>,
)
    ensures
        ({
            let open = StageView::<R::Error, F>::Open { actor, answers };
            &&& access::next_stage(request, open, Event::Storage(true)) == (StageView::<
                R::Error,
                F,
            >::Admitted { actor, answers })
            &&& access::next_stage(request, open, Event::Storage(false)) == StageView::<
                R::Error,
                F,
            >::Ended(
                CallErrorView::Runtime(
                    FaultView::PluginFailure("Support Case Plugin is not prepared"@),
                ),
            )
        }),
{
}

/// Whether a question is whether a subject is a member.
pub open spec fn asks_membership(check: CheckView, subject: Seq<char>) -> bool {
    check.demand is Membership && check.subject == subject
}

/// Whether a question is whether a subject has a permission.
pub open spec fn asks_permission(check: CheckView, subject: Seq<char>, name: Seq<char>) -> bool {
    check.demand matches Demand::Permission(permission) && access::permission_name(permission)
        == name && check.subject == subject
}

/// Whether two questions are asked about an actor: membership first, whose denial is
/// forbidden, and a permission, whose denial is a refusal or not.
pub open spec fn asks_both(
    checks: Seq<CheckView>,
    actor: Seq<char>,
    name: Seq<char>,
    strict: bool,
) -> bool {
    &&& checks.len() >= 2
    &&& asks_membership(checks[0], actor)
    &&& checks[0].denial == Some(Refusal::Forbidden)
    &&& asks_permission(checks[1], actor, name)
    &&& strict ==> checks[1].denial == Some(Refusal::Forbidden)
    &&& !strict ==> checks[1].denial is None
}

/// Whoever creates, edits, assigns, moves or notes internally has to have the permission
/// for it; whoever reads or comments is only asked about it.
pub proof fn law_operations_take_their_permissions(
    create: CreateCaseRequest,
    get: GetCaseRequest,
    list: ListCasesRequest,
    update: UpdateCaseRequest,
    assign: AssignCaseRequest,
    transition: TransitionCaseRequest,
    message: AddMessageRequest,
    messages: ListMessagesRequest,
    actor: Seq<char>,
)
    ensures
        asks_both(create.checks(actor), actor, "support.cases.create"@, true),
        create.checks(actor).len() == 2,
        asks_both(get.checks(actor), actor, "support.cases.read"@, false),
        get.checks(actor).len() == 2,
        asks_both(list.checks(actor), actor, "support.cases.read"@, false),
        list.checks(actor).len() == 2,
        asks_both(update.checks(actor), actor, "support.cases.write"@, true),
        update.checks(actor).len() == 2,
        asks_both(assign.checks(actor), actor, "support.cases.assign"@, true),
        asks_both(transition.checks(actor), actor, "support.cases.transition"@, true),
        transition.checks(actor).len() == 2,
        message.visibility is Public ==> asks_both(
            message.checks(actor),
            actor,
            "support.cases.comment"@,
            false,
        ),
        message.visibility is Internal ==> asks_both(
            message.checks(actor),
            actor,
            "support.cases.internal-note"@,
            true,
        ),
        message.checks(actor).len() == 2,
        asks_both(messages.checks(actor), actor, "support.cases.read"@, false),
        messages.checks(actor).len() == 3,
        asks_permission(messages.checks(actor)[2], actor, "support.cases.internal-note"@),
        messages.checks(actor)[2].denial is None,
{
}

/// An assignee has to be a member too; one who is not makes the request not valid.
pub proof fn law_assignees_are_members(request: AssignCaseRequest, actor: Seq<char>)
    ensures
        request.assignee_subject is None ==> request.checks(actor).len() == 2,
        request.assignee_subject matches Some(assignee) ==> request.checks(actor).len() == 3
            && asks_membership(request.checks(actor)[2], assignee@)
            && request.checks(actor)[2].denial == Some(Refusal::InvalidRequest),
{
}

/// An actor's assertion has to name the operation that is called.
pub proof fn law_operations_have_their_names()
    ensures
        CreateCaseRequest::operation() == "create_case"@,
        GetCaseRequest::operation() == "get_case"@,
        ListCasesRequest::operation() == "list_cases"@,
        UpdateCaseRequest::operation() == "update_case"@,
        AssignCaseRequest::operation() == "assign_case"@,
        TransitionCaseRequest::operation() == "transition_case"@,
        AddMessageRequest::operation() == "add_message"@,
        ListMessagesRequest::operation() == "list_messages"@,
{
}

/// The dependencies are asked about the organization of the request.
pub proof fn law_requests_name_their_organization(
    create: CreateCaseRequest,
    get: GetCaseRequest,
    list: ListCasesRequest,
    update: UpdateCaseRequest,
    assign: AssignCaseRequest,
    transition: TransitionCaseRequest,
    message: AddMessageRequest,
    messages: ListMessagesRequest,
)
    ensures
        create.organization() == create.organization_id@,
        get.organization() == get.organization_id@,
        list.organization() == list.organization_id@,
        update.organization() == update.organization_id@,
        assign.organization() == assign.organization_id@,
        transition.organization() == transition.organization_id@,
        message.organization() == message.organization_id@,
        messages.organization() == messages.organization_id@,
{
}

/// A refusal is told as what it is.
pub proof fn law_refusals_are_told()
    ensures
        CreateCaseRequest::refusal(Refusal::Forbidden) is Forbidden,
        CreateCaseRequest::refusal(Refusal::Unauthenticated) is Unauthenticated,
        CreateCaseRequest::refusal(Refusal::InvalidRequest) is InvalidRequest,
        GetCaseRequest::refusal(Refusal::Forbidden) is Forbidden,
        GetCaseRequest::refusal(Refusal::Unauthenticated) is Unauthenticated,
        GetCaseRequest::refusal(Refusal::InvalidRequest) is InvalidRequest,
        ListCasesRequest::refusal(Refusal::Forbidden) is Forbidden,
        ListCasesRequest::refusal(Refusal::Unauthenticated) is Unauthenticated,
        ListCasesRequest::refusal(Refusal::InvalidRequest) is InvalidRequest,
        UpdateCaseRequest::refusal(Refusal::Forbidden) is Forbidden,
        UpdateCaseRequest::refusal(Refusal::Unauthenticated) is Unauthenticated,
        UpdateCaseRequest::refusal(Refusal::InvalidRequest) is InvalidRequest,
        AssignCaseRequest::refusal(Refusal::Forbidden) is Forbidden,
        AssignCaseRequest::refusal(Refusal::Unauthenticated) is Unauthenticated,
        AssignCaseRequest::refusal(Refusal::InvalidRequest) is InvalidRequest,
        TransitionCaseRequest::refusal(Refusal::Forbidden) is Forbidden,
        TransitionCaseRequest::refusal(Refusal::Unauthenticated) is Unauthenticated,
        TransitionCaseRequest::refusal(Refusal::InvalidRequest) is InvalidRequest,
        AddMessageRequest::refusal(Refusal::Forbidden) is Forbidden,
        AddMessageRequest::refusal(Refusal::Unauthenticated) is Unauthenticated,
        AddMessageRequest::refusal(Refusal::InvalidRequest) is InvalidRequest,
        ListMessagesRequest::refusal(Refusal::Forbidden) is Forbidden,
        ListMessagesRequest::refusal(Refusal::Unauthenticated) is Unauthenticated,
        ListMessagesRequest::refusal(Refusal::InvalidRequest) is InvalidRequest,
{
}

/// Whether a change names an organization of at most 512 bytes, a case by its identifier,
/// a positive revision, and a key of at most 200 bytes.
pub open spec fn well_addressed(
    organization_id: Seq<char>,
    case_id: Seq<char>,
    revision: Seq<char>,
    key: Seq<char>,
) -> bool {
    &&& validate::opaque_id(organization_id, 512)
    &&& outside::uuid_of(case_id) is Some
    &&& decimal::positive_value(revision) is Some
    &&& validate::opaque_id(key, 200)
}

/// A new case has a title of at most 300 bytes that is not blank, and a description of
/// at most 50,000 bytes that may be empty.
pub proof fn law_creations_obey_their_rules(request: CreateCaseRequest)
    ensures
        request.valid() <==> validate::opaque_id(request.organization_id@, 512)
            && validate::opaque_id(request.idempotency_key@, 200) && validate::plain_text(
            request.title@,
            300,
            false,
        ) && validate::plain_text(request.description@, 50_000, true),
{
}

/// A case is read by its identifier or by its number, and lists are read by pages of at
/// most 200, from a place that was told.
pub proof fn law_reads_obey_their_rules(
    get: GetCaseRequest,
    list: ListCasesRequest,
    messages: ListMessagesRequest,
)
    ensures
        get.valid() <==> validate::opaque_id(get.organization_id@, 512)
            && validate::case_reference(get.case_ref@),
        list.valid() <==> validate::opaque_id(list.organization_id@, 512) && 1 <= list.limit <= 200
            && (list.cursor is Some ==> cursor::place_named((list.cursor->0)@) is Some) && (
        list.assignee_subject is Some ==> validate::opaque_id((list.assignee_subject->0)@, 512))
            && (list.requester_subject is Some ==> validate::opaque_id(
            (list.requester_subject->0)@,
            512,
        )),
        messages.valid() <==> validate::opaque_id(messages.organization_id@, 512) && 1
            <= messages.limit <= 200 && (messages.cursor is Some ==> cursor::place_named(
            (messages.cursor->0)@,
        ) is Some) && outside::uuid_of(messages.case_id@) is Some,
{
}

/// An update gives at least one field, and every field that it gives obeys its rule.
pub proof fn law_updates_obey_their_rules(request: UpdateCaseRequest)
    ensures
        request.valid() <==> well_addressed(
            request.organization_id@,
            request.case_id@,
            request.expected_revision@,
            request.idempotency_key@,
        ) && !(request.title is None && request.description is None && request.priority is None)
            && (request.title is Some ==> validate::plain_text((request.title->0)@, 300, false))
            && (request.description is Some ==> validate::plain_text(
            (request.description->0)@,
            50_000,
            true,
        )),
{
}

/// An assignee is an opaque identifier of at most 512 bytes, a reason a text of at most
/// 2,000 bytes that may be empty, and a message one of at most 100,000 bytes that is not
/// blank.
pub proof fn law_changes_obey_their_rules(
    assign: AssignCaseRequest,
    transition: TransitionCaseRequest,
    message: AddMessageRequest,
)
    ensures
        assign.valid() <==> well_addressed(
            assign.organization_id@,
            assign.case_id@,
            assign.expected_revision@,
            assign.idempotency_key@,
        ) && (assign.assignee_subject is Some ==> validate::opaque_id(
            (assign.assignee_subject->0)@,
            512,
        )),
        transition.valid() <==> well_addressed(
            transition.organization_id@,
            transition.case_id@,
            transition.expected_revision@,
            transition.idempotency_key@,
        ) && (transition.reason is Some ==> validate::plain_text(
            (transition.reason->0)@,
            2_000,
            true,
        )),
        message.valid() <==> well_addressed(
            message.organization_id@,
            message.case_id@,
            message.expected_revision@,
            message.idempotency_key@,
        ) && validate::plain_text(message.body@, 100_000, false),
{
}

/// What a change expects is the revision that its request names.
pub proof fn law_expected_revisions_are_read(
    organization_id: Seq<char>,
    case_id: Seq<char>,
    revision: Seq<char>,
    key: Seq<char>,
)
    ensures
        validate::mutation_revision(organization_id, case_id, revision, key) is Some
            <==> well_addressed(organization_id, case_id, revision, key),
        well_addressed(organization_id, case_id, revision, key) ==> validate::mutation_revision(
            organization_id,
            case_id,
            revision,
            key,
        ) == decimal::positive_value(revision),
{
}

/// Whether a stage of a call waits for an event.
pub open spec fn awaits<E, F>(stage: StageView<E, F>, event: Event<F>) -> bool {
    match stage {
        StageView::Authenticate => event is Actor,
        StageView::Check { .. } => event is Reply,
        StageView::Open { .. } => event is Storage,
        StageView::Admitted { .. } => false,
        StageView::Ended(_) => false,
    }
}

/// An event that a stage does not wait for changes nothing, and nothing changes a call
/// that is admitted or over.
pub proof fn law_stray_events_leave_a_call<R: BackOffice, F>(
    request: R,
    stage: StageView<R::Error, F>,
    event: Event<F>,
)
    requires
        !awaits(stage, event),
    ensures
        access::next_stage(request, stage, event) == stage,
{
}

} // verus!
