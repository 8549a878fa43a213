//! Resource authority: may a subject read or attach to a case, and which case is it?

use vstd::prelude::*;
use vstd::string::*;

use crate::access;
use crate::access::{
    allowed_caller, answer_of, Check, CheckView, Demand, Permission, Reply,
};
use crate::errors;
use crate::errors::{storage_runtime, StorageError, StorageErrorView};
use crate::failures::AuthorizeCaseAccessError;
use crate::fault::{plugin_failure, CallError, CallErrorView, FaultView};
use crate::intake;
use crate::model::{CaseRecord, CaseView};
use crate::outside;
use crate::outside::{format_uuid, parse_uuid};
use crate::reads;
use crate::reads::{case_key, get_case, CaseQuery, CaseQueryView};
use crate::rows;
use crate::rows::CaseRow;
use crate::service;
use crate::text;
use crate::validate;
use crate::validate::{valid_case_ref, valid_opaque_id, MAX_ID_BYTES};

verus! {

/// What a subject wants to do with a resource of a case.
#[derive(Clone, Copy, Debug, Eq, PartialEq)]
pub enum AccessAction {
    ReadPublic,
    AttachPublic,
    ReadInternal,
    AttachInternal,
}

/// Asks whether a subject may act on a case, or on a message of it.
#[derive(Debug, Eq, PartialEq)]
pub struct AuthorizeCaseAccessRequest {
    pub action: AccessAction,
    pub case_ref: String,
    pub message_id: Option<String>,
    pub organization_id: String,
    pub subject: String,
}

/// The decision, with the canonical identifier of the case where it is a yes.
#[derive(Debug, Eq, PartialEq)]
pub struct AuthorizeCaseAccessResponse {
    pub allowed: bool,
    pub case_id: Option<String>,
}

/// The view of a decision.
#[verifier::ext_equal]
pub struct DecisionView {
    pub allowed: bool,
    pub case_id: Option<Seq<char>>,
}

impl View for AuthorizeCaseAccessResponse {
    type V = DecisionView;

    open spec fn view(&self) -> DecisionView {
        DecisionView { allowed: self.allowed, case_id: text::optional_text(self.case_id) }
    }
}

/// Whether an action only touches what is public.
pub open spec fn public_action(action: AccessAction) -> bool {
    action is ReadPublic || action is AttachPublic
}

/// The permission that an action takes where the subject is not related.
pub open spec fn action_permission(action: AccessAction) -> Permission {
    match action {
        AccessAction::ReadPublic => Permission::Read,
        AccessAction::AttachPublic => Permission::Comment,
        AccessAction::ReadInternal => Permission::InternalNote,
        AccessAction::AttachInternal => Permission::InternalNote,
    }
}

/// Whether the request obeys its rules.
pub open spec fn request_valid(request: AuthorizeCaseAccessRequest) -> bool {
    &&& validate::opaque_id(request.organization_id@, MAX_ID_BYTES as nat)
    &&& validate::opaque_id(request.subject@, MAX_ID_BYTES as nat)
    &&& validate::case_reference(request.case_ref@)
    &&& request.message_id matches Some(id) ==> outside::uuid_of(id@) is Some
}

/// Where a decision stands: what is to be done next.
#[derive(Debug, Eq, PartialEq)]
pub enum AuthorizeStage<F> {
    /// The storage is to be handed over.
    Open,
    /// The case is to be read as a related subject sees it.
    ReadRelated,
    /// Organization Membership is to be asked.
    CheckMembership,
    /// Access Control is to be asked.
    CheckPermission,
    /// The case is to be read as a privileged subject sees it.
    ReadPrivileged,
    /// The message is to be looked up in the case.
    ReadMessage { case_id: u128 },
    /// The decision is made.
    Ended(Result<AuthorizeCaseAccessResponse, CallError<AuthorizeCaseAccessError, F>>),
}

/// The view of a stage.
#[verifier::ext_equal]
pub enum AuthorizeStageView<F> {
    Open,
    ReadRelated,
    CheckMembership,
    CheckPermission,
    ReadPrivileged,
    ReadMessage { case_id: u128 },
    Ended(Result<DecisionView, CallErrorView<AuthorizeCaseAccessError, F>>),
}

impl<F> View for AuthorizeStage<F> {
    type V = AuthorizeStageView<F>;

    open spec fn view(&self) -> AuthorizeStageView<F> {
        match self {
            AuthorizeStage::Open => AuthorizeStageView::Open,
            AuthorizeStage::ReadRelated => AuthorizeStageView::ReadRelated,
            AuthorizeStage::CheckMembership => AuthorizeStageView::CheckMembership,
            AuthorizeStage::CheckPermission => AuthorizeStageView::CheckPermission,
            AuthorizeStage::ReadPrivileged => AuthorizeStageView::ReadPrivileged,
            AuthorizeStage::ReadMessage { case_id } => AuthorizeStageView::ReadMessage {
                case_id: *case_id,
            },
            AuthorizeStage::Ended(outcome) => AuthorizeStageView::Ended(rows::viewed(*outcome)),
        }
    }
}

/// What the host of a decision reports.
#[derive(Debug, Eq, PartialEq)]
pub enum AuthorizeEvent<F> {
    /// Whether the storage is prepared.
    Storage(bool),
    /// The row that the case was looked up to; an error where the statement failed.
    Case(Result<Option<CaseRow>, ()>),
    /// What the dependency said.
    Reply(Reply<F>),
    /// Whether the message is one of the case; an error where the statement failed.
    Message(Result<bool, ()>),
}

/// A no.
pub open spec fn denied<F>() -> AuthorizeStageView<F> {
    AuthorizeStageView::Ended(Ok(DecisionView { allowed: false, case_id: None }))
}

/// The end with a failure of the storage.
pub open spec fn failed<F>(error: StorageErrorView) -> AuthorizeStageView<F> {
    AuthorizeStageView::Ended(Err(service::storage_fault(error)))
}

/// The decision on a case: a yes, unless a message is named that is not one of the
/// case.
pub open spec fn decided<F>(case_id: u128, matches: bool) -> AuthorizeStageView<F> {
    AuthorizeStageView::Ended(
        Ok(
            DecisionView {
                allowed: matches,
                case_id: if matches {
                    Some(outside::uuid_text(case_id))
                } else {
                    None
                },
            },
        ),
    )
}

/// Where a decision goes with the case that the subject sees.
pub open spec fn with_case<F>(request: AuthorizeCaseAccessRequest, case: CaseView) -> AuthorizeStageView<
    F,
> {
    if request.message_id is Some {
        AuthorizeStageView::ReadMessage { case_id: case.case_id }
    } else {
        decided(case.case_id, true)
    }
}

/// What the subject gets to see of the row that was found.
pub open spec fn seen(
    request: AuthorizeCaseAccessRequest,
    found: Result<Option<CaseRow>, ()>,
    privileged: bool,
) -> Result<Option<CaseView>, StorageErrorView> {
    match found {
        Err(()) => Err(StorageErrorView::Database("get support case"@)),
        Ok(row) => reads::case_seen(row, request.subject@, privileged),
    }
}

/// The stage that follows an event. An event that the stage does not wait for
/// changes nothing.
pub open spec fn next_stage<F>(
    request: AuthorizeCaseAccessRequest,
    stage: AuthorizeStageView<F>,
    event: AuthorizeEvent<F>,
) -> AuthorizeStageView<F> {
    match (stage, event) {
        (AuthorizeStageView::Open, AuthorizeEvent::Storage(prepared)) => if !prepared {
            AuthorizeStageView::Ended(
                Err(
                    CallErrorView::Runtime(
                        FaultView::PluginFailure("Support Case Plugin is not prepared"@),
                    ),
                ),
            )
        } else if public_action(request.action) {
            AuthorizeStageView::ReadRelated
        } else {
            AuthorizeStageView::CheckMembership
        },
        (AuthorizeStageView::ReadRelated, AuthorizeEvent::Case(found)) => match seen(
            request,
            found,
            false,
        ) {
            Err(error) => failed(error),
            Ok(Some(case)) => with_case(request, case),
            Ok(None) => AuthorizeStageView::CheckMembership,
        },
        (AuthorizeStageView::CheckMembership, AuthorizeEvent::Reply(reply)) => match reply {
            Reply::Answered(true) => AuthorizeStageView::CheckPermission,
            Reply::Answered(false) => denied(),
            Reply::Rejected => AuthorizeStageView::Ended(
                Err(
                    CallErrorView::Runtime(
                        FaultView::PluginFailure(access::rejection_text(Demand::Membership)),
                    ),
                ),
            ),
            Reply::Failed(failure) => AuthorizeStageView::Ended(
                Err(CallErrorView::Runtime(FaultView::Dependency(failure))),
            ),
        },
        (AuthorizeStageView::CheckPermission, AuthorizeEvent::Reply(reply)) => match reply {
            Reply::Answered(true) => AuthorizeStageView::ReadPrivileged,
            Reply::Answered(false) => denied(),
            Reply::Rejected => AuthorizeStageView::Ended(
                Err(
                    CallErrorView::Runtime(
                        FaultView::PluginFailure(
                            access::rejection_text(
                                Demand::Permission(action_permission(request.action)),
                            ),
                        ),
                    ),
                ),
            ),
            Reply::Failed(failure) => AuthorizeStageView::Ended(
                Err(CallErrorView::Runtime(FaultView::Dependency(failure))),
            ),
        },
        (AuthorizeStageView::ReadPrivileged, AuthorizeEvent::Case(found)) => match seen(
            request,
            found,
            true,
        ) {
            Err(error) => failed(error),
            Ok(Some(case)) => with_case(request, case),
            Ok(None) => denied(),
        },
        (AuthorizeStageView::ReadMessage { case_id }, AuthorizeEvent::Message(found)) => match found {
            Err(()) => failed(StorageErrorView::Database("authorize message resource"@)),
            Ok(matches) => decided(case_id, matches),
        },
        _ => stage,
    }
}

/// The question that a stage asks about the subject: whether it is a member, and then
/// whether it has the action's permission.
pub open spec fn question<F>(
    request: AuthorizeCaseAccessRequest,
    stage: AuthorizeStageView<F>,
) -> CheckView {
    CheckView {
        subject: request.subject@,
        demand: if stage is CheckPermission {
            Demand::Permission(action_permission(request.action))
        } else {
            Demand::Membership
        },
        denial: None,
    }
}

/// One decision on its way.
#[derive(Debug, Eq, PartialEq)]
pub struct Authorization<F> {
    pub request: AuthorizeCaseAccessRequest,
    pub stage: AuthorizeStage<F>,
}

impl<F> Authorization<F> {
    /// Begins a decision: only an exact caller with an acceptable request gets one.
    pub fn start(
        allowed: &Vec<String>,
        caller: Option<&str>,
        request: AuthorizeCaseAccessRequest,
    ) -> (authorization: Authorization<F>)
        ensures
            authorization.request == request,
            authorization.stage@ == if !intake::caller_allowed(allowed@, caller) {
                AuthorizeStageView::<F>::Ended(
                    Err(CallErrorView::Domain(AuthorizeCaseAccessError::Forbidden)),
                )
            } else if !request_valid(request) {
                AuthorizeStageView::<F>::Ended(
                    Err(CallErrorView::Domain(AuthorizeCaseAccessError::InvalidRequest)),
                )
            } else {
                AuthorizeStageView::<F>::Open
            },
    {
        let stage = if allowed_caller(caller, allowed).is_none() {
            AuthorizeStage::Ended(Err(CallError::Domain(AuthorizeCaseAccessError::Forbidden)))
        } else if !Self::is_valid(&request) {
            AuthorizeStage::Ended(Err(CallError::Domain(AuthorizeCaseAccessError::InvalidRequest)))
        } else {
            AuthorizeStage::Open
        };
        Authorization { request, stage }
    }

    fn is_valid(request: &AuthorizeCaseAccessRequest) -> (result: bool)
        ensures
            result == request_valid(*request),
    {
        if !valid_opaque_id(request.organization_id.as_str(), MAX_ID_BYTES) || !valid_opaque_id(
            request.subject.as_str(),
            MAX_ID_BYTES,
        ) || !valid_case_ref(request.case_ref.as_str()) {
            return false;
        }
        match &request.message_id {
            Some(id) => parse_uuid(id.as_str()).is_some(),
            None => true,
        }
    }

    /// The case to look up: as the subject sees it, or, once privileged, at all.
    pub fn query(&self) -> (query: CaseQuery)
        ensures
            query@ == (CaseQueryView {
                organization_id: self.request.organization_id@,
                key: reads::key_of(self.request.case_ref@),
                actor: self.request.subject@,
                can_read_all: self.stage@ is ReadPrivileged,
            }),
    {
        CaseQuery {
            organization_id: self.request.organization_id.clone(),
            key: case_key(self.request.case_ref.as_str()),
            actor: self.request.subject.clone(),
            can_read_all: match &self.stage {
                AuthorizeStage::ReadPrivileged => true,
                _ => false,
            },
        }
    }

    /// The question to ask about the subject.
    pub fn check(&self) -> (check: Check)
        ensures
            check@ == question(self.request, self.stage@),
    {
        Check {
            subject: self.request.subject.clone(),
            demand: match &self.stage {
                AuthorizeStage::CheckPermission => Demand::Permission(
                    Self::permission(self.request.action),
                ),
                _ => Demand::Membership,
            },
            denial: None,
        }
    }

    fn permission(action: AccessAction) -> (permission: Permission)
        ensures
            permission == action_permission(action),
    {
        match action {
            AccessAction::ReadPublic => Permission::Read,
            AccessAction::AttachPublic => Permission::Comment,
            AccessAction::ReadInternal => Permission::InternalNote,
            AccessAction::AttachInternal => Permission::InternalNote,
        }
    }

    /// The message to look up in the case.
    pub fn message(&self) -> (id: Option<u128>)
        ensures
            id == match self.request.message_id {
                Some(text) => outside::uuid_of(text@),
                None => None,
            },
    {
        match &self.request.message_id {
            Some(text) => parse_uuid(text.as_str()),
            None => None,
        }
    }

    fn deny() -> (stage: AuthorizeStage<F>)
        ensures
            stage@ == denied::<F>(),
    {
        AuthorizeStage::Ended(Ok(AuthorizeCaseAccessResponse { allowed: false, case_id: None }))
    }

    fn fail(error: StorageError) -> (stage: AuthorizeStage<F>)
        ensures
            stage@ == failed::<F>(error@),
    {
        AuthorizeStage::Ended(Err(CallError::Runtime(storage_runtime(&error))))
    }

    /// The decision on a case, given whether the named message is one of it.
    fn case_resource_response(case_id: u128, matches: bool) -> (stage: AuthorizeStage<F>)
        ensures
            stage@ == decided::<F>(case_id, matches),
    {
        AuthorizeStage::Ended(
            Ok(
                AuthorizeCaseAccessResponse {
                    allowed: matches,
                    case_id: if matches {
                        Some(format_uuid(case_id))
                    } else {
                        None
                    },
                },
            ),
        )
    }

    fn go_on_with(request: &AuthorizeCaseAccessRequest, record: CaseRecord) -> (stage: AuthorizeStage<
        F,
    >)
        ensures
            stage@ == with_case::<F>(*request, record@),
    {
        if request.message_id.is_some() {
            AuthorizeStage::ReadMessage { case_id: record.case_id }
        } else {
            Self::case_resource_response(record.case_id, true)
        }
    }

    /// Goes on after an event.
    pub fn resume(self, event: AuthorizeEvent<F>) -> (authorization: Authorization<F>)
        ensures
            authorization.request == self.request,
            authorization.stage@ == next_stage(self.request, self.stage@, event),
    {
        let query = self.query();
        let request = self.request;
        let stage = match (self.stage, event) {
            (AuthorizeStage::Open, AuthorizeEvent::Storage(prepared)) => if !prepared {
                AuthorizeStage::Ended(
                    Err(CallError::Runtime(plugin_failure("Support Case Plugin is not prepared"))),
                )
            } else {
                match request.action {
                    AccessAction::ReadPublic | AccessAction::AttachPublic =>
                        AuthorizeStage::ReadRelated,
                    AccessAction::ReadInternal | AccessAction::AttachInternal =>
                        AuthorizeStage::CheckMembership,
                }
            },
            (AuthorizeStage::ReadRelated, AuthorizeEvent::Case(found)) => match get_case(
                &query,
                found,
            ) {
                Err(error) => Self::fail(error),
                Ok(Some(record)) => Self::go_on_with(&request, record),
                Ok(None) => AuthorizeStage::CheckMembership,
            },
            (AuthorizeStage::CheckMembership, AuthorizeEvent::Reply(reply)) => match answer_of(
                Demand::Membership,
                reply,
            ) {
                Err(fault) => AuthorizeStage::Ended(Err(CallError::Runtime(fault))),
                Ok(true) => AuthorizeStage::CheckPermission,
                Ok(false) => Self::deny(),
            },
            (AuthorizeStage::CheckPermission, AuthorizeEvent::Reply(reply)) => match answer_of(
                Demand::Permission(Self::permission(request.action)),
                reply,
            ) {
                Err(fault) => AuthorizeStage::Ended(Err(CallError::Runtime(fault))),
                Ok(true) => AuthorizeStage::ReadPrivileged,
                Ok(false) => Self::deny(),
            },
            (AuthorizeStage::ReadPrivileged, AuthorizeEvent::Case(found)) => match get_case(
                &query,
                found,
            ) {
                Err(error) => Self::fail(error),
                Ok(Some(record)) => Self::go_on_with(&request, record),
                Ok(None) => Self::deny(),
            },
            (AuthorizeStage::ReadMessage { case_id }, AuthorizeEvent::Message(found)) => match found {
                Err(()) => Self::fail(
                    StorageError::Database { operation: "authorize message resource" },
                ),
                Ok(matches) => Self::case_resource_response(case_id, matches),
            },
            (stage, _) => stage,
        };
        Authorization { request, stage }
    }
}

/// Runs a decision through a sequence of events.
pub open spec fn run<F>(
    request: AuthorizeCaseAccessRequest,
    events: Seq<AuthorizeEvent<F>>,
) -> AuthorizeStageView<F>
    decreases events.len(),
{
    if events.len() == 0 {
        AuthorizeStageView::Open
    } else {
        next_stage(request, run(request, events.drop_last()), events.last())
    }
}

/// Whether an event is the yes of a dependency.
pub open spec fn is_yes<F>(event: AuthorizeEvent<F>) -> bool {
    event matches AuthorizeEvent::Reply(Reply::Answered(true))
}

/// Whether a stage is a yes, or one message away from it.
pub open spec fn granting<F>(stage: AuthorizeStageView<F>) -> bool {
    stage is ReadMessage || (stage matches AuthorizeStageView::Ended(Ok(decision))
        && decision.allowed)
}

/// Whether an event is the yes to a question that the decision asked just then: that
/// the request's subject meets a demand.
pub open spec fn answers_yes<F>(
    request: AuthorizeCaseAccessRequest,
    events: Seq<AuthorizeEvent<F>>,
    at: int,
    demand: Demand,
) -> bool {
    let stage = run(request, events.take(at));
    &&& 0 <= at < events.len()
    &&& stage is CheckMembership || stage is CheckPermission
    &&& question(request, stage) == (CheckView { subject: request.subject@, demand, denial: None })
    &&& is_yes(events[at])
}

/// An internal action is never granted to a subject for being related to the case: only
/// where Organization Membership said that the subject is a member, and then Access
/// Control that the subject has the permission of the action.
pub proof fn law_internal_access_takes_permission<F>(
    request: AuthorizeCaseAccessRequest,
    events: Seq<AuthorizeEvent<F>>,
)
    requires
        !public_action(request.action),
        granting(run(request, events)),
    ensures
        exists|i: int, j: int|
            i < j && #[trigger] answers_yes(request, events, i, Demand::Membership)
                && #[trigger] answers_yes(
                request,
                events,
                j,
                Demand::Permission(action_permission(request.action)),
            ),
{
    lemma_privilege_takes_two_answers(request, events);
}

/// Whatever the action, a case is read without regard to who is related to it only
/// after the same two answers.
pub proof fn law_unrelated_access_takes_permission<F>(
    request: AuthorizeCaseAccessRequest,
    events: Seq<AuthorizeEvent<F>>,
)
    requires
        run(request, events) is ReadPrivileged,
    ensures
        exists|i: int, j: int|
            i < j && #[trigger] answers_yes(request, events, i, Demand::Membership)
                && #[trigger] answers_yes(
                request,
                events,
                j,
                Demand::Permission(action_permission(request.action)),
            ),
{
    lemma_privilege_takes_two_answers(request, events);
}

/// An answer among the first events stays one.
proof fn lemma_answer_stays<F>(
    request: AuthorizeCaseAccessRequest,
    events: Seq<AuthorizeEvent<F>>,
    at: int,
    demand: Demand,
)
    requires
        events.len() > 0,
        answers_yes(request, events.drop_last(), at, demand),
    ensures
        answers_yes(request, events, at, demand),
{
    assert(events.drop_last().take(at) =~= events.take(at));
    assert(events.drop_last()[at] == events[at]);
}

proof fn lemma_privilege_takes_two_answers<F>(
    request: AuthorizeCaseAccessRequest,
    events: Seq<AuthorizeEvent<F>>,
)
    ensures
        !public_action(request.action) ==> !(run(request, events) is ReadRelated),
        run(request, events) is CheckPermission ==> exists|i: int| #[trigger]
            answers_yes(request, events, i, Demand::Membership),
        run(request, events) is ReadPrivileged || (!public_action(request.action) && granting(
            run(request, events),
        )) ==> exists|i: int, j: int|
            i < j && #[trigger] answers_yes(request, events, i, Demand::Membership)
                && #[trigger] answers_yes(
                request,
                events,
                j,
                Demand::Permission(action_permission(request.action)),
            ),
    decreases events.len(),
{
    if events.len() > 0 {
        let before = events.drop_last();
        lemma_privilege_takes_two_answers(request, before);
        let stage = run(request, before);
        let last = events.len() - 1;
        let permission = Demand::Permission(action_permission(request.action));
        assert(events.last() == events[last]);
        assert(events.take(last) =~= before);
        if stage is CheckPermission {
            let i = choose|i: int| #[trigger] answers_yes(request, before, i, Demand::Membership);
            lemma_answer_stays(request, events, i, Demand::Membership);
            if run(request, events) is ReadPrivileged {
                assert(answers_yes(request, events, last, permission));
            }
        } else if stage is CheckMembership {
            if run(request, events) is CheckPermission {
                assert(answers_yes(request, events, last, Demand::Membership));
            }
        } else if stage is ReadPrivileged || (!public_action(request.action) && granting(stage)) {
            let (i, j) = choose|i: int, j: int|
                i < j && #[trigger] answers_yes(request, before, i, Demand::Membership)
                    && #[trigger] answers_yes(request, before, j, permission);
            lemma_answer_stays(request, events, i, Demand::Membership);
            lemma_answer_stays(request, events, j, permission);
        }
    }
}

/// A case is only named together with a yes.
pub proof fn law_only_a_yes_names_the_case<F>(
    request: AuthorizeCaseAccessRequest,
    events: Seq<AuthorizeEvent<F>>,
)
    ensures
        run(request, events) matches AuthorizeStageView::Ended(Ok(decision)) ==> (decision.allowed
            <==> decision.case_id is Some),
    decreases events.len(),
{
    if events.len() > 0 {
        law_only_a_yes_names_the_case(request, events.drop_last());
    }
}

/// What Access Control is asked about the subject of a request is the permission that
/// the action takes: reading what is public takes `support.cases.read`, attaching to it
/// `support.cases.comment`, and what is internal `support.cases.internal-note`, whether
/// it is read or attached to. Before that, Organization Membership is asked about the
/// same subject.
pub proof fn law_actions_take_their_permission<F>(request: AuthorizeCaseAccessRequest)
    ensures
        ({
            let asked = question::<F>(request, AuthorizeStageView::CheckPermission);
            &&& asked.subject == request.subject@
            &&& asked.denial is None
            &&& asked.demand is Permission
            &&& access::permission_name(asked.demand->Permission_0) == match request.action {
                AccessAction::ReadPublic => "support.cases.read"@,
                AccessAction::AttachPublic => "support.cases.comment"@,
                AccessAction::ReadInternal => "support.cases.internal-note"@,
                AccessAction::AttachInternal => "support.cases.internal-note"@,
            }
        }),
        ({
            let asked = question::<F>(request, AuthorizeStageView::CheckMembership);
            &&& asked.subject == request.subject@
            &&& asked.denial is None
            &&& asked.demand is Membership
        }),
{
}

/// A request is acceptable exactly where its organization and its subject are opaque
/// identifiers of at most 512 bytes, its case reference is one, and the message that it
/// may name has an identifier.
pub proof fn law_resource_requests_obey_their_rules(request: AuthorizeCaseAccessRequest)
    ensures
        request_valid(request) <==> validate::opaque_id(request.organization_id@, 512)
            && validate::opaque_id(request.subject@, 512) && validate::case_reference(
            request.case_ref@,
        ) && (request.message_id is Some ==> outside::uuid_of((request.message_id->0)@) is Some),
{
}

/// A decision begins with the case as a related subject sees it where the action is
/// public, and with membership where it is internal; without a storage there is none.
pub proof fn law_decisions_begin_with_the_action<F>(
    request: AuthorizeCaseAccessRequest,
    prepared: bool,
)
    ensures
        ({
            let stage = next_stage::<F>(
                request,
                AuthorizeStageView::Open,
                AuthorizeEvent::Storage(prepared),
            );
            &&& prepared && (request.action is ReadPublic || request.action is AttachPublic)
                ==> stage is ReadRelated
            &&& prepared && (request.action is ReadInternal || request.action is AttachInternal)
                ==> stage is CheckMembership
            &&& !prepared ==> stage == AuthorizeStageView::<F>::Ended(
                Err(
                    CallErrorView::Runtime(
                        FaultView::PluginFailure("Support Case Plugin is not prepared"@),
                    ),
                ),
            )
        }),
{
}

/// A subject that is related to the case, as its requester, its creator or its
/// assignee, is granted a public action on it without any question, and one that is not
/// is asked about.
pub proof fn law_related_subjects_are_granted<F>(request: AuthorizeCaseAccessRequest, row: CaseRow)
    requires
        rows::case_in(row) is Ok,
    ensures
        ({
            let case = rows::case_in(row)->Ok_0;
            let stage = next_stage::<F>(
                request,
                AuthorizeStageView::ReadRelated,
                AuthorizeEvent::Case(Ok(Some(row))),
            );
            let related = case.requester_subject == request.subject@ || case.creator_subject
                == request.subject@ || case.assignee_subject == Some(request.subject@);
            &&& related && request.message_id is None ==> stage == AuthorizeStageView::<F>::Ended(
                Ok(DecisionView { allowed: true, case_id: Some(outside::uuid_text(case.case_id)) }),
            )
            &&& related && request.message_id is Some ==> stage == (
            AuthorizeStageView::<F>::ReadMessage { case_id: case.case_id })
            &&& !related ==> stage is CheckMembership
        }),
{
}

/// A subject that has both answers is granted the action on any case that there is.
pub proof fn law_privileged_subjects_are_granted<F>(
    request: AuthorizeCaseAccessRequest,
    row: CaseRow,
)
    requires
        rows::case_in(row) is Ok,
    ensures
        ({
            let case = rows::case_in(row)->Ok_0;
            let stage = next_stage::<F>(
                request,
                AuthorizeStageView::ReadPrivileged,
                AuthorizeEvent::Case(Ok(Some(row))),
            );
            &&& request.message_id is None ==> stage == AuthorizeStageView::<F>::Ended(
                Ok(DecisionView { allowed: true, case_id: Some(outside::uuid_text(case.case_id)) }),
            )
            &&& request.message_id is Some ==> stage == (AuthorizeStageView::<F>::ReadMessage {
                case_id: case.case_id,
            })
        }),
{
}

/// What is answered along the way: a case that there is not is asked about or denied, a
/// yes goes on, a no is denied, and a message grants the action on the case exactly
/// where it is one of the case.
pub proof fn law_decisions_follow_the_answers<F>(
    request: AuthorizeCaseAccessRequest,
    case_id: u128,
    failure: F,
)
    ensures
        ({
            let denied = AuthorizeStageView::<F>::Ended(
                Ok(DecisionView { allowed: false, case_id: None }),
            );
            let next = |stage: AuthorizeStageView<F>, event: AuthorizeEvent<F>|
                next_stage(request, stage, event);
            let yes = AuthorizeEvent::<F>::Reply(Reply::Answered(true));
            let no = AuthorizeEvent::<F>::Reply(Reply::Answered(false));
            let rejected = AuthorizeEvent::<F>::Reply(Reply::Rejected);
            let failed = AuthorizeEvent::<F>::Reply(Reply::Failed(failure));
            let ended = |fault: FaultView<F>|
                AuthorizeStageView::<F>::Ended(Err(CallErrorView::Runtime(fault)));
            let member = AuthorizeStageView::<F>::CheckMembership;
            let permitted = AuthorizeStageView::<F>::CheckPermission;
            let message = AuthorizeStageView::<F>::ReadMessage { case_id };
            &&& next(AuthorizeStageView::ReadRelated, AuthorizeEvent::Case(Ok(None))) == member
            &&& next(AuthorizeStageView::ReadPrivileged, AuthorizeEvent::Case(Ok(None))) == denied
            &&& next(member, yes) == permitted
            &&& next(permitted, yes) == AuthorizeStageView::<F>::ReadPrivileged
            &&& next(member, no) == denied
            &&& next(permitted, no) == denied
            &&& next(member, failed) == ended(FaultView::Dependency(failure))
            &&& next(permitted, failed) == ended(FaultView::Dependency(failure))
            &&& next(member, rejected) == ended(
                FaultView::PluginFailure(
                    "Organization Membership rejected a Support Case authorization query"@,
                ),
            )
            &&& next(permitted, rejected) == ended(
                FaultView::PluginFailure(
                    "Access Control rejected a Support Case authorization query"@,
                ),
            )
            &&& next(message, AuthorizeEvent::Message(Ok(true))) == AuthorizeStageView::<F>::Ended(
                Ok(DecisionView { allowed: true, case_id: Some(outside::uuid_text(case_id)) }),
            )
            &&& next(message, AuthorizeEvent::Message(Ok(false))) == denied
        }),
{
}

/// A statement that fails is a failure of the plugin, under its own name.
pub proof fn law_failed_lookups_are_failures<F>(request: AuthorizeCaseAccessRequest, case_id: u128)
    ensures
        ({
            let next = |stage: AuthorizeStageView<F>, event: AuthorizeEvent<F>|
                next_stage(request, stage, event);
            let broken = |operation: Seq<char>|
                AuthorizeStageView::<F>::Ended(
                    Err(
                        CallErrorView::Runtime(
                            FaultView::PluginFailure(
                                "PostgreSQL operation `"@ + operation + "` failed"@,
                            ),
                        ),
                    ),
                );
            &&& next(AuthorizeStageView::ReadRelated, AuthorizeEvent::Case(Err(()))) == broken(
                "get support case"@,
            )
            &&& next(AuthorizeStageView::ReadPrivileged, AuthorizeEvent::Case(Err(()))) == broken(
                "get support case"@,
            )
            &&& next(
                AuthorizeStageView::ReadMessage { case_id },
                AuthorizeEvent::Message(Err(())),
            ) == broken("authorize message resource"@)
        }),
{
}

/// Whether a stage of a decision waits for an event.
pub open spec fn awaits<F>(stage: AuthorizeStageView<F>, event: AuthorizeEvent<F>) -> bool {
    match stage {
        AuthorizeStageView::Open => event is Storage,
        AuthorizeStageView::ReadRelated => event is Case,
        AuthorizeStageView::CheckMembership => event is Reply,
        AuthorizeStageView::CheckPermission => event is Reply,
        AuthorizeStageView::ReadPrivileged => event is Case,
        AuthorizeStageView::ReadMessage { .. } => event is Message,
        AuthorizeStageView::Ended(_) => false,
    }
}

/// An event that a stage does not wait for changes nothing, and nothing changes a
/// decision that is made.
pub proof fn law_stray_events_leave_a_decision<F>(
    request: AuthorizeCaseAccessRequest,
    stage: AuthorizeStageView<F>,
    event: AuthorizeEvent<F>,
)
    requires
        !awaits(stage, event),
    ensures
        next_stage(request, stage, event) == stage,
{
}

/// A case that cannot be read ends the decision as a failure, for whoever may see it.
pub proof fn law_unreadable_cases_are_failures<F>(
    request: AuthorizeCaseAccessRequest,
    row: CaseRow,
    error: StorageErrorView,
)
    requires
        rows::case_in(row) == Err::<CaseView, _>(error),
    ensures
        next_stage::<F>(
            request,
            AuthorizeStageView::ReadPrivileged,
            AuthorizeEvent::Case(Ok(Some(row))),
        ) == AuthorizeStageView::<F>::Ended(
            Err(CallErrorView::Runtime(FaultView::PluginFailure(errors::storage_text(error)))),
        ),
{
}

} // verus!
