use support_case::access::{Demand, Permission, Reply};
use support_case::failures::AuthorizeCaseAccessError;
use support_case::fault::{CallError, Fault};
use support_case::resource::{
    AccessAction, Authorization, AuthorizeCaseAccessRequest, AuthorizeCaseAccessResponse,
    AuthorizeEvent, AuthorizeStage,
};
use support_case::rows::CaseRow;

const ID: &str = "936da01f-9abd-4d9d-80c7-02af85c822a8";
const ID_VALUE: u128 = 0x936d_a01f_9abd_4d9d_80c7_02af_85c8_22a8;

type Decision = Authorization<&'static str>;

fn request(action: AccessAction, message_id: Option<&str>) -> AuthorizeCaseAccessRequest {
    AuthorizeCaseAccessRequest {
        action,
        case_ref: "SUP-1".to_owned(),
        message_id: message_id.map(str::to_owned),
        organization_id: "org_1".to_owned(),
        subject: "usr_1".to_owned(),
    }
}

fn start(action: AccessAction, message_id: Option<&str>) -> Decision {
    Authorization::start(
        &vec!["support-attachment".to_owned()],
        Some("support-attachment"),
        request(action, message_id),
    )
    .resume(AuthorizeEvent::Storage(true))
}

fn row(requester: &str) -> CaseRow {
    CaseRow {
        case_id: Some(ID_VALUE),
        identifier: Some("SUP-1".to_owned()),
        organization_id: Some("org_1".to_owned()),
        requester_subject: Some(requester.to_owned()),
        creator_subject: Some("usr_9".to_owned()),
        title: Some("x".to_owned()),
        description: Some(String::new()),
        priority: Some("normal".to_owned()),
        state: Some("open".to_owned()),
        assignee_subject: Some(None),
        revision: Some(1),
        created_at: Some(0),
        updated_at: Some(0),
        resolved_at: Some(None),
        closed_at: Some(None),
    }
}

fn decision(authorization: Decision) -> (bool, Option<String>) {
    match authorization.stage {
        AuthorizeStage::Ended(Ok(AuthorizeCaseAccessResponse { allowed, case_id })) => {
            (allowed, case_id)
        }
        other => panic!("{other:?}"),
    }
}

fn yes() -> AuthorizeEvent<&'static str> {
    AuthorizeEvent::Reply(Reply::Answered(true))
}

fn no() -> AuthorizeEvent<&'static str> {
    AuthorizeEvent::Reply(Reply::Answered(false))
}

#[test]
fn related_subjects_reach_what_is_public() {
    let reading = start(AccessAction::ReadPublic, None);
    assert_eq!(reading.stage, AuthorizeStage::ReadRelated);
    assert!(!reading.query().can_read_all);
    let decided = reading.resume(AuthorizeEvent::Case(Ok(Some(row("usr_1")))));
    assert_eq!(decision(decided), (true, Some(ID.to_owned())));
}

#[test]
fn others_need_membership_and_permission() {
    let asking = start(AccessAction::AttachPublic, None)
        .resume(AuthorizeEvent::Case(Ok(Some(row("usr_2")))));
    assert_eq!(asking.stage, AuthorizeStage::CheckMembership);
    assert_eq!(asking.check().demand, Demand::Membership);
    let asking = asking.resume(yes());
    assert_eq!(asking.check().demand, Demand::Permission(Permission::Comment));
    let reading = asking.resume(yes());
    assert!(reading.query().can_read_all);
    let decided = reading.resume(AuthorizeEvent::Case(Ok(Some(row("usr_2")))));
    assert_eq!(decision(decided), (true, Some(ID.to_owned())));
}

#[test]
fn a_no_names_no_case() {
    let missing = || start(AccessAction::ReadPublic, None).resume(AuthorizeEvent::Case(Ok(None)));
    assert_eq!(decision(missing().resume(no())), (false, None));
    assert_eq!(decision(missing().resume(yes()).resume(no())), (false, None));
    let gone = missing().resume(yes()).resume(yes()).resume(AuthorizeEvent::Case(Ok(None)));
    assert_eq!(decision(gone), (false, None));
}

#[test]
fn internal_access_is_never_for_being_related() {
    for action in [AccessAction::ReadInternal, AccessAction::AttachInternal] {
        let asking = start(action, None);
        assert_eq!(asking.stage, AuthorizeStage::CheckMembership);
        let asking = asking.resume(yes());
        assert_eq!(asking.check().demand, Demand::Permission(Permission::InternalNote));
        assert_eq!(decision(asking.resume(no())), (false, None));
    }
}

#[test]
fn a_message_has_to_be_one_of_the_case() {
    let looking = || {
        start(AccessAction::ReadPublic, Some(ID))
            .resume(AuthorizeEvent::Case(Ok(Some(row("usr_1")))))
    };
    assert_eq!(looking().stage, AuthorizeStage::ReadMessage { case_id: ID_VALUE });
    assert_eq!(looking().message(), Some(ID_VALUE));
    assert_eq!(
        decision(looking().resume(AuthorizeEvent::Message(Ok(true)))),
        (true, Some(ID.to_owned()))
    );
    assert_eq!(decision(looking().resume(AuthorizeEvent::Message(Ok(false)))), (false, None));
    assert_eq!(
        looking().resume(AuthorizeEvent::Message(Err(()))).stage,
        AuthorizeStage::Ended(Err(CallError::Runtime(Fault::PluginFailure {
            detail: "PostgreSQL operation `authorize message resource` failed".to_owned()
        })))
    );
}

#[test]
fn decisions_are_only_for_resource_callers_with_acceptable_requests() {
    let allowed = vec!["support-attachment".to_owned()];
    let stranger: Decision =
        Authorization::start(&allowed, Some("support-api"), request(AccessAction::ReadPublic, None));
    assert_eq!(
        stranger.stage,
        AuthorizeStage::Ended(Err(CallError::Domain(AuthorizeCaseAccessError::Forbidden)))
    );
    let malformed: Decision = Authorization::start(
        &allowed,
        Some("support-attachment"),
        request(AccessAction::ReadPublic, Some("nope")),
    );
    assert_eq!(
        malformed.stage,
        AuthorizeStage::Ended(Err(CallError::Domain(AuthorizeCaseAccessError::InvalidRequest)))
    );
}

#[test]
fn dependencies_that_fail_end_the_decision() {
    let asking = || start(AccessAction::ReadInternal, None);
    assert_eq!(
        asking().resume(AuthorizeEvent::Reply(Reply::Failed("timeout"))).stage,
        AuthorizeStage::Ended(Err(CallError::Runtime(Fault::Dependency("timeout"))))
    );
    assert_eq!(
        asking().resume(yes()).resume(AuthorizeEvent::Reply(Reply::Rejected)).stage,
        AuthorizeStage::Ended(Err(CallError::Runtime(Fault::PluginFailure {
            detail: "Access Control rejected a Support Case authorization query".to_owned()
        })))
    );
    let unprepared: Decision = Authorization::start(
        &vec!["support-attachment".to_owned()],
        Some("support-attachment"),
        request(AccessAction::ReadInternal, None),
    );
    assert_eq!(
        unprepared.resume(AuthorizeEvent::Storage(false)).stage,
        AuthorizeStage::Ended(Err(CallError::Runtime(Fault::PluginFailure {
            detail: "Support Case Plugin is not prepared".to_owned()
        })))
    );
    let broken = start(AccessAction::ReadPublic, None).resume(AuthorizeEvent::Case(Err(())));
    assert_eq!(
        broken.stage,
        AuthorizeStage::Ended(Err(CallError::Runtime(Fault::PluginFailure {
            detail: "PostgreSQL operation `get support case` failed".to_owned()
        })))
    );
}
