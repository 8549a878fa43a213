use lenso_auth_sdk::{
    audience, ActorAssertion, ActorAssertionIssuer, ActorAssertionVerifier, ActorProjectionError,
    AssertionClock, TypedActor, Validity,
};
use lenso_kernel::{CancellationToken, InvocationContext};
use sha2::{Digest, Sha256};
use support_case::access::{
    allowed_caller, authenticated_subject, permission_text, Admission, BackOffice, Demand, Event,
    Permission, Reply, Session, Stage,
};
use support_case::command::Change;
use support_case::errors::StorageError;
use support_case::failures::{
    map_create_failure, map_transition_failure, AddMessageError, AssignCaseError, CreateCaseError,
    GetCaseError, ListCasesError, TransitionCaseError, UpdateCaseError,
};
use support_case::fault::{CallError, Fault};
use support_case::model::{
    CaseRecord, CaseState, DomainFailure, MessageRecord, Priority, StoredResponse, Visibility,
};
use support_case::reads::{get_case, CaseKey};
use support_case::requests::{
    AddMessageRequest, AssignCaseRequest, CreateCaseRequest, GetCaseRequest, ListCasesRequest,
    ListMessagesRequest, TransitionCaseRequest, UpdateCaseRequest,
};
use support_case::rows::CaseRow;
use support_case::service;
use support_case::transaction::Answer;
use time::{Duration, OffsetDateTime};

const ID: &str = "936da01f-9abd-4d9d-80c7-02af85c822a8";
const ID_VALUE: u128 = 0x936d_a01f_9abd_4d9d_80c7_02af_85c8_22a8;
const CAPABILITY: &str = "lenso.support-case@1";

struct Actor {
    subject: String,
}

impl TypedActor for Actor {
    fn from_assertion(assertion: &ActorAssertion) -> Result<Self, ActorProjectionError> {
        Ok(Self { subject: assertion.subject().to_owned() })
    }
}

#[derive(Debug)]
struct Clock;

impl AssertionClock for Clock {
    fn now(&self) -> OffsetDateTime {
        OffsetDateTime::now_utc()
    }
}

fn context(caller: &str) -> InvocationContext {
    InvocationContext::new(1, None, CancellationToken::new()).with_caller_instance(caller)
}

fn callers() -> Vec<String> {
    vec!["support-api".to_owned()]
}

fn create_request() -> CreateCaseRequest {
    CreateCaseRequest {
        organization_id: "org_1".to_owned(),
        title: "Need help".to_owned(),
        description: String::new(),
        priority: Priority::Normal,
        idempotency_key: "create_1".to_owned(),
    }
}

fn update_request() -> UpdateCaseRequest {
    UpdateCaseRequest {
        case_id: ID.to_owned(),
        description: None,
        expected_revision: "3".to_owned(),
        idempotency_key: "update_1".to_owned(),
        organization_id: "org_1".to_owned(),
        priority: Some(Priority::Urgent),
        title: None,
    }
}

fn message_request(visibility: Visibility) -> AddMessageRequest {
    AddMessageRequest {
        body: "hello".to_owned(),
        case_id: ID.to_owned(),
        expected_revision: "3".to_owned(),
        idempotency_key: "message_1".to_owned(),
        organization_id: "org_1".to_owned(),
        visibility,
    }
}

type Call<R> = Session<R, &'static str>;

/// Starts a call of an allowed caller and brings it past its authentication.
fn authenticated<R: BackOffice>(request: R) -> Call<R> {
    Session::start(&callers(), Some("support-api"), request)
        .resume(Event::Actor(Some("usr_1".to_owned())))
}

/// Answers every question of a call in turn, and hands the storage over.
fn answered<R: BackOffice>(request: R, answers: &[bool]) -> Call<R> {
    let mut session = authenticated(request);
    for answer in answers {
        session = session.resume(Event::Reply(Reply::Answered(*answer)));
    }
    session.resume(Event::Storage(true))
}

fn admitted<R: BackOffice>(request: R, answers: &[bool]) -> Admission<R> {
    match answered(request, answers).admitted() {
        Some(admission) => admission,
        None => panic!("not admitted"),
    }
}

fn ended<R: BackOffice>(session: Call<R>) -> CallError<R::Error, &'static str> {
    match session.stage {
        Stage::Ended(error) => error,
        _ => panic!("not ended"),
    }
}

#[test]
fn actor_assertions_are_bound_to_the_exact_operation() {
    let issuer = ActorAssertionIssuer::new("auth.users", b"support-case-test-key");
    let now = OffsetDateTime::now_utc();
    let assertion = issuer.issue(
        "usr_1",
        "user",
        "strong",
        [audience(CAPABILITY, CreateCaseRequest::operation_name())],
        Validity::new(now - Duration::seconds(1), now + Duration::minutes(1)).unwrap(),
        std::collections::BTreeMap::default(),
    );
    let context = assertion.attach(context("support-api")).unwrap();
    let verifier =
        ActorAssertionVerifier::from_public_key_base64("auth.users", &issuer.public_key_base64())
            .unwrap();
    let subject = |operation: &str| {
        authenticated_subject(
            verifier
                .project_context::<Actor>(&context, CAPABILITY, operation, &Clock)
                .ok()
                .map(|actor| actor.subject),
        )
    };
    assert_eq!(subject(CreateCaseRequest::operation_name()), Ok("usr_1".to_owned()));
    assert_eq!(subject(UpdateCaseRequest::operation_name()), Err(()));
}

#[test]
fn exact_caller_is_required_before_storage_or_ports() {
    let request = create_request();
    let context = context("other-api");
    let session: Call<CreateCaseRequest> =
        Session::start(&callers(), context.caller_instance(), request);
    assert_eq!(session.stage, Stage::Ended(CallError::Domain(CreateCaseError::Forbidden)));
}

#[test]
fn callers_are_compared_exactly() {
    assert_eq!(allowed_caller(Some("support-api"), &callers()), Some("support-api".to_owned()));
    assert_eq!(allowed_caller(Some("support-ap"), &callers()), None);
    assert_eq!(allowed_caller(None, &callers()), None);
    let none: Call<CreateCaseRequest> = Session::start(&callers(), None, create_request());
    assert_eq!(ended(none), CallError::Domain(CreateCaseError::Forbidden));
}

#[test]
fn an_actor_is_needed_before_the_request_is_looked_at() {
    let mut request = create_request();
    request.title = String::new();
    let session: Call<CreateCaseRequest> =
        Session::start(&callers(), Some("support-api"), request);
    let session = session.resume(Event::Actor(None));
    assert_eq!(ended(session), CallError::Domain(CreateCaseError::Unauthenticated));

    let mut request = create_request();
    request.title = String::new();
    assert_eq!(
        ended(authenticated(request)),
        CallError::Domain(CreateCaseError::InvalidRequest)
    );
    let odd: Call<CreateCaseRequest> =
        Session::start(&callers(), Some("support-api"), create_request());
    let odd = odd.resume(Event::Actor(Some("usr 1".to_owned())));
    assert_eq!(ended(odd), CallError::Domain(CreateCaseError::Unauthenticated));
}

#[test]
fn membership_and_permission_are_asked_in_turn() {
    let session = authenticated(create_request());
    match &session.stage {
        Stage::Check { actor, checks, answers } => {
            assert_eq!(actor, "usr_1");
            assert_eq!(answers.len(), 0);
            assert_eq!(checks.len(), 2);
            assert_eq!(checks[0].demand, Demand::Membership);
            assert_eq!(checks[1].demand, Demand::Permission(Permission::Create));
        }
        other => panic!("{other:?}"),
    }
    assert_eq!(
        ended(answered(create_request(), &[false])),
        CallError::Domain(CreateCaseError::Forbidden)
    );
    assert_eq!(
        ended(answered(create_request(), &[true, false])),
        CallError::Domain(CreateCaseError::Forbidden)
    );
    assert!(answered(create_request(), &[true, true]).admitted().is_some());
    assert_eq!(permission_text(Permission::InternalNote), "support.cases.internal-note");
}

#[test]
fn rejections_and_failures_of_dependencies_never_admit() {
    let rejected = authenticated(create_request()).resume(Event::Reply(Reply::Rejected));
    assert_eq!(
        ended(rejected),
        CallError::Runtime(Fault::PluginFailure {
            detail: "Organization Membership rejected a Support Case authorization query".to_owned()
        })
    );
    let rejected = authenticated(create_request())
        .resume(Event::Reply(Reply::Answered(true)))
        .resume(Event::Reply(Reply::Rejected));
    assert_eq!(
        ended(rejected),
        CallError::Runtime(Fault::PluginFailure {
            detail: "Access Control rejected a Support Case authorization query".to_owned()
        })
    );
    let failed = authenticated(create_request()).resume(Event::Reply(Reply::Failed("timeout")));
    assert_eq!(ended(failed), CallError::Runtime(Fault::Dependency("timeout")));
}

#[test]
fn an_unprepared_plugin_serves_nothing() {
    let mut session = authenticated(create_request());
    for _ in 0..2 {
        session = session.resume(Event::Reply(Reply::Answered(true)));
    }
    assert_eq!(
        ended(session.resume(Event::Storage(false))),
        CallError::Runtime(Fault::PluginFailure {
            detail: "Support Case Plugin is not prepared".to_owned()
        })
    );
}

#[test]
fn an_assignee_has_to_be_a_member() {
    let request = || AssignCaseRequest {
        assignee_subject: Some("usr_2".to_owned()),
        case_id: ID.to_owned(),
        expected_revision: "1".to_owned(),
        idempotency_key: "assign_1".to_owned(),
        organization_id: "org_1".to_owned(),
    };
    assert_eq!(
        ended(answered(request(), &[true, true, false])),
        CallError::Domain(AssignCaseError::InvalidRequest)
    );
    let command = admitted(request(), &[true, true, true]).command();
    match command.change {
        Change::Assign { case_id, expected_revision, assignee_subject } => {
            assert_eq!((case_id, expected_revision), (ID_VALUE, 1));
            assert_eq!(assignee_subject.as_deref(), Some("usr_2"));
        }
        other => panic!("{other:?}"),
    }
    let mut unassign = request();
    unassign.assignee_subject = None;
    assert!(answered(unassign, &[true, true]).admitted().is_some());
}

#[test]
fn internal_notes_take_their_own_permission() {
    assert_eq!(
        ended(answered(message_request(Visibility::Internal), &[true, false])),
        CallError::Domain(AddMessageError::Forbidden)
    );
    let command = admitted(message_request(Visibility::Internal), &[true, true]).command();
    match command.change {
        Change::AddMessage { can_comment_all, visibility, .. } => {
            assert!(can_comment_all);
            assert_eq!(visibility, "internal");
        }
        other => panic!("{other:?}"),
    }
    let command = admitted(message_request(Visibility::Public), &[true, false]).command();
    match command.change {
        Change::AddMessage { can_comment_all, visibility, .. } => {
            assert!(!can_comment_all);
            assert_eq!(visibility, "public");
        }
        other => panic!("{other:?}"),
    }
}

#[test]
fn updates_change_something() {
    let mut nothing = update_request();
    nothing.priority = None;
    assert_eq!(
        ended(authenticated(nothing)),
        CallError::Domain(UpdateCaseError::InvalidRequest)
    );
    let command = admitted(update_request(), &[true, true]).command();
    match command.change {
        Change::Update { case_id, expected_revision, title, description, priority } => {
            assert_eq!((case_id, expected_revision), (ID_VALUE, 3));
            assert_eq!((title, description), (None, None));
            assert_eq!(priority.as_deref(), Some("urgent"));
        }
        other => panic!("{other:?}"),
    }
}

#[test]
fn transitions_name_their_target() {
    let request = |reason: Option<&str>| TransitionCaseRequest {
        case_id: ID.to_owned(),
        expected_revision: "2".to_owned(),
        idempotency_key: "transition_1".to_owned(),
        organization_id: "org_1".to_owned(),
        reason: reason.map(str::to_owned),
        state: CaseState::Closed,
    };
    match admitted(request(Some("done")), &[true, true]).command().change {
        Change::Transition { case_id, expected_revision, target_state, reason } => {
            assert_eq!((case_id, expected_revision), (ID_VALUE, 2));
            assert_eq!(target_state, "closed");
            assert_eq!(reason.as_deref(), Some("done"));
        }
        other => panic!("{other:?}"),
    }
    assert_eq!(
        ended(authenticated(request(Some("bell\u{7}")))),
        CallError::Domain(TransitionCaseError::InvalidRequest)
    );
    assert_eq!(
        ended(answered(request(None), &[true, false])),
        CallError::Domain(TransitionCaseError::Forbidden)
    );
}

#[test]
fn commands_carry_the_fingerprint_of_their_request() {
    let command = admitted(create_request(), &[true, true]).command();
    let wire = r#"{"description":"","idempotency_key":"create_1","organization_id":"org_1","priority":"normal","title":"Need help"}"#;
    assert_eq!(command.request_hash, Sha256::digest(wire.as_bytes()).to_vec());
    assert_eq!(command.caller, "support-api");
    assert_eq!(command.actor, "usr_1");
    let command = admitted(update_request(), &[true, true]).command();
    let wire = format!(
        r#"{{"case_id":"{ID}","description":null,"expected_revision":"3","idempotency_key":"update_1","organization_id":"org_1","priority":"urgent","title":null}}"#
    );
    assert_eq!(command.request_hash, Sha256::digest(wire.as_bytes()).to_vec());
}

#[test]
fn reads_ask_but_do_not_insist_on_permissions() {
    let request = |case_ref: &str| GetCaseRequest {
        case_ref: case_ref.to_owned(),
        organization_id: "org_1".to_owned(),
    };
    let query = admitted(request("SUP-42"), &[true, false]).query();
    assert_eq!(query.key, CaseKey::Identifier("SUP-42".to_owned()));
    assert!(!query.can_read_all);
    let query = admitted(request(ID), &[true, true]).query();
    assert_eq!(query.key, CaseKey::Id(ID_VALUE));
    assert!(query.can_read_all);
    assert_eq!(
        ended(authenticated(request("nope"))),
        CallError::Domain(GetCaseError::InvalidRequest)
    );
}

#[test]
fn lists_are_bounded() {
    let request = |limit: i64, cursor: Option<&str>| ListCasesRequest {
        assignee_subject: None,
        cursor: cursor.map(str::to_owned),
        limit,
        organization_id: "org_1".to_owned(),
        requester_subject: Some("usr_2".to_owned()),
        state: Some(CaseState::WaitingCustomer),
    };
    for limit in [0, 201, -1, i64::MAX] {
        assert_eq!(
            ended(authenticated(request(limit, None))),
            CallError::Domain(ListCasesError::InvalidRequest)
        );
    }
    assert_eq!(
        ended(authenticated(request(10, Some("nope")))),
        CallError::Domain(ListCasesError::InvalidRequest)
    );
    let cursor = format!("1970-01-01T00:00:00Z|{ID}");
    let filters = admitted(request(200, Some(&cursor)), &[true, false]).filters();
    assert_eq!(filters.limit, 201);
    assert_eq!(filters.state, Some("waiting_customer"));
    assert_eq!(filters.cursor.unwrap().case_id, ID_VALUE);

    let messages = ListMessagesRequest {
        case_id: ID.to_owned(),
        cursor: None,
        limit: 1,
        organization_id: "org_1".to_owned(),
    };
    let query = admitted(messages, &[true, true, false]).query();
    assert!(query.can_read_all && !query.can_read_internal);
    assert_eq!((query.limit, query.cursor), (2, None));
}

fn record() -> CaseRecord {
    CaseRecord {
        case_id: ID_VALUE,
        identifier: "SUP-1".to_owned(),
        organization_id: "org_1".to_owned(),
        requester_subject: "usr_1".to_owned(),
        creator_subject: "usr_1".to_owned(),
        title: "x".to_owned(),
        description: String::new(),
        priority: "normal".to_owned(),
        state: "resolved".to_owned(),
        assignee_subject: Some("usr_2".to_owned()),
        revision: 12,
        created_at: 0,
        updated_at: 1_000_000_000,
        resolved_at: Some(1_000_000_001),
        closed_at: None,
    }
}

fn message() -> MessageRecord {
    MessageRecord {
        message_id: ID_VALUE,
        case_id: 1,
        visibility: "internal".to_owned(),
        author_subject: "usr_2".to_owned(),
        body: "note".to_owned(),
        created_at: 0,
        case_revision: 13,
    }
}

#[test]
fn responses_show_the_whole_case() {
    let shown = service::get_case::<()>(Ok(Some(record()))).unwrap();
    assert_eq!(shown.case_id, ID);
    assert_eq!(shown.revision, "12");
    assert_eq!(shown.state, CaseState::Resolved);
    assert_eq!(shown.priority, Priority::Normal);
    assert_eq!(shown.created_at, "1970-01-01T00:00:00Z");
    assert_eq!(shown.updated_at, "1970-01-01T00:00:01Z");
    assert_eq!(shown.resolved_at.as_deref(), Some("1970-01-01T00:00:01.000000001Z"));
    assert_eq!(shown.closed_at, None);
    assert_eq!(
        service::get_case::<()>(Ok(None)),
        Err(CallError::Domain(GetCaseError::CaseNotFound))
    );
}

#[test]
fn records_that_cannot_be_shown_are_internal_failures() {
    let detail = |case: CaseRecord| match service::get_case::<()>(Ok(Some(case))) {
        Err(CallError::Runtime(Fault::Internal { detail })) => detail,
        other => panic!("{other:?}"),
    };
    let mut odd = record();
    odd.priority = "critical".to_owned();
    odd.state = "lost".to_owned();
    assert_eq!(
        detail(odd),
        "Support Case wire serialization failed: unknown variant `critical`, expected one of `low`, `normal`, `high`, `urgent`"
    );
    let mut odd = record();
    odd.state = "lost".to_owned();
    assert_eq!(
        detail(odd),
        "Support Case wire serialization failed: unknown variant `lost`, expected one of `open`, `in_progress`, `waiting_customer`, `resolved`, `closed`"
    );
    let mut odd = record();
    odd.closed_at = Some(i128::MAX);
    assert_eq!(
        detail(odd),
        "Support Case wire serialization failed: The year component cannot be formatted into the requested format."
    );
    let mut odd = message();
    odd.visibility = "secret".to_owned();
    match service::add_message::<()>(Ok(Answer::Done(StoredResponse::Message(odd)))) {
        Err(CallError::Runtime(Fault::Internal { detail })) => assert_eq!(
            detail,
            "Support Case wire serialization failed: unknown variant `secret`, expected `public` or `internal`"
        ),
        other => panic!("{other:?}"),
    }
}

#[test]
fn storage_outcomes_become_answers() {
    let done = || Ok(Answer::Done(StoredResponse::Case(record())));
    assert_eq!(service::create_case::<()>(done()).unwrap().identifier, "SUP-1");
    assert_eq!(service::update_case::<()>(done()).unwrap().identifier, "SUP-1");
    assert_eq!(service::assign_case::<()>(done()).unwrap().identifier, "SUP-1");
    assert_eq!(service::transition_case::<()>(done()).unwrap().identifier, "SUP-1");
    let added =
        service::add_message::<()>(Ok(Answer::Done(StoredResponse::Message(message())))).unwrap();
    assert_eq!((added.case_revision.as_str(), added.visibility), ("13", Visibility::Internal));
    assert_eq!(
        service::transition_case::<()>(Ok(Answer::Refused(DomainFailure::InvalidTransition))),
        Err(CallError::Domain(TransitionCaseError::InvalidTransition))
    );
    assert_eq!(
        service::create_case::<()>(Err(StorageError::Database { operation: "begin case creation" })),
        Err(CallError::Runtime(Fault::PluginFailure {
            detail: "PostgreSQL operation `begin case creation` failed".to_owned()
        }))
    );
    assert_eq!(
        map_create_failure(DomainFailure::IdempotencyConflict),
        CreateCaseError::IdempotencyConflict
    );
    assert_eq!(map_create_failure(DomainFailure::Forbidden), CreateCaseError::InvalidRequest);
    assert_eq!(
        map_transition_failure(DomainFailure::RetentionConflict),
        TransitionCaseError::InvalidRequest
    );
}

#[test]
fn list_answers_are_pages() {
    let mut newer = record();
    newer.updated_at = 5_000_000_000;
    newer.case_id = 1;
    let shown = service::list_cases::<()>(1, Ok(vec![newer, record()])).unwrap();
    assert_eq!(shown.cases.len(), 1);
    assert_eq!(
        shown.next_cursor.as_deref(),
        Some("1970-01-01T00:00:05Z|00000000-0000-0000-0000-000000000001")
    );
    let shown = service::list_messages::<()>(5, Ok(Some(vec![message()]))).unwrap();
    assert_eq!((shown.messages.len(), shown.next_cursor), (1, None));
    assert!(service::list_messages::<()>(5, Ok(None)).is_err());
}

#[test]
fn unrelated_readers_do_not_find_a_case() {
    let row = || CaseRow {
        case_id: Some(ID_VALUE),
        identifier: Some("SUP-1".to_owned()),
        organization_id: Some("org_1".to_owned()),
        requester_subject: Some("usr_1".to_owned()),
        creator_subject: Some("usr_3".to_owned()),
        title: Some("x".to_owned()),
        description: Some(String::new()),
        priority: Some("normal".to_owned()),
        state: Some("open".to_owned()),
        assignee_subject: Some(Some("usr_2".to_owned())),
        revision: Some(1),
        created_at: Some(0),
        updated_at: Some(0),
        resolved_at: Some(None),
        closed_at: Some(None),
    };
    let query = |actor: &str, can_read_all: bool| support_case::reads::CaseQuery {
        organization_id: "org_1".to_owned(),
        key: CaseKey::Id(ID_VALUE),
        actor: actor.to_owned(),
        can_read_all,
    };
    for actor in ["usr_1", "usr_2", "usr_3"] {
        assert!(get_case(&query(actor, false), Ok(Some(row()))).unwrap().is_some());
    }
    assert!(get_case(&query("usr_4", false), Ok(Some(row()))).unwrap().is_none());
    assert!(get_case(&query("usr_4", true), Ok(Some(row()))).unwrap().is_some());
    assert!(get_case(&query("usr_1", false), Ok(None)).unwrap().is_none());
    assert_eq!(
        get_case(&query("usr_1", false), Err(())),
        Err(StorageError::Database { operation: "get support case" })
    );
}
