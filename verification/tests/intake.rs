use sha2::{Digest, Sha256};
use support_case::command::{decide_change, Change, Command, Decision, Drawn};
use support_case::errors::StorageError;
use support_case::failures::{
    AppendChannelMessageError, GetRequesterCaseError, ListRequesterMessagesError,
    OpenCaseFromChannelError,
};
use support_case::fault::{CallError, Fault};
use support_case::intake::{
    append_channel_message, appended_message, found_requester_case, found_requester_messages,
    get_requester_case, list_requester_messages, open_case_from_channel, opened_case,
    AppendChannelMessageRequest, GetRequesterCaseRequest, ListRequesterMessagesRequest,
    OpenCaseFromChannelRequest,
};
use support_case::model::{
    CaseRecord, CaseState, DomainFailure, MessageRecord, Priority, StoredResponse,
};
use support_case::reads::get_case;
use support_case::rows::CaseRow;
use support_case::transaction::Answer;

const ID: &str = "936da01f-9abd-4d9d-80c7-02af85c822a8";
const ID_VALUE: u128 = 0x936d_a01f_9abd_4d9d_80c7_02af_85c8_22a8;

fn callers() -> Vec<String> {
    vec!["support-email".to_owned(), "help-center".to_owned()]
}

fn open_request() -> OpenCaseFromChannelRequest {
    OpenCaseFromChannelRequest {
        description: "d".to_owned(),
        idempotency_key: "mail-1".to_owned(),
        organization_id: "org_1".to_owned(),
        priority: Priority::High,
        requester_subject: "usr_1".to_owned(),
        title: "Need help".to_owned(),
    }
}

fn append_request(revision: &str) -> AppendChannelMessageRequest {
    AppendChannelMessageRequest {
        body: "hello \"there\"\n".to_owned(),
        case_ref: ID.to_owned(),
        expected_revision: revision.to_owned(),
        idempotency_key: "mail-2".to_owned(),
        organization_id: "org_1".to_owned(),
        requester_subject: "usr_1".to_owned(),
    }
}

fn append(revision: &str) -> Result<Command, AppendChannelMessageError> {
    append_channel_message(&callers(), Some("help-center"), append_request(revision))
}

#[test]
fn channels_open_cases_for_their_requester() {
    let command =
        open_case_from_channel(&callers(), Some("support-email"), open_request()).unwrap();
    assert_eq!(command.caller, "support-email");
    assert_eq!(command.actor, "usr_1");
    assert_eq!(
        command.change,
        Change::Create {
            title: "Need help".to_owned(),
            description: "d".to_owned(),
            priority: "high".to_owned()
        }
    );
    let wire = r#"{"description":"d","idempotency_key":"mail-1","organization_id":"org_1","priority":"high","requester_subject":"usr_1","title":"Need help"}"#;
    assert_eq!(command.request_hash, Sha256::digest(wire.as_bytes()).to_vec());
    assert_eq!(
        open_case_from_channel(&callers(), Some("support-api"), open_request()),
        Err(OpenCaseFromChannelError::Forbidden)
    );
    let mut blank = open_request();
    blank.title = "  ".to_owned();
    assert_eq!(
        open_case_from_channel(&callers(), Some("support-email"), blank),
        Err(OpenCaseFromChannelError::InvalidRequest)
    );
}

#[test]
fn channel_messages_are_public_and_bound_to_the_requester() {
    let command = append("3").unwrap();
    assert_eq!(command.actor, "usr_1");
    assert_eq!(
        command.change,
        Change::AddMessage {
            case_id: ID_VALUE,
            expected_revision: 3,
            can_comment_all: false,
            visibility: "public".to_owned(),
            body: "hello \"there\"\n".to_owned(),
        }
    );
    assert_eq!(append("0"), Err(AppendChannelMessageError::InvalidRequest));
    assert_eq!(
        append_channel_message(&callers(), None, append_request("3")),
        Err(AppendChannelMessageError::Forbidden)
    );
    let mut by_number = append_request("3");
    by_number.case_ref = "SUP-1".to_owned();
    assert_eq!(
        append_channel_message(&callers(), Some("help-center"), by_number),
        Err(AppendChannelMessageError::InvalidRequest)
    );
}

#[test]
fn a_retry_with_a_newer_revision_is_the_same_message() {
    let first = append("3").unwrap();
    let retry = append("4").unwrap();
    assert_eq!(first.request_hash, retry.request_hash);
    let wire = format!(
        r#"{{"body":"hello \"there\"\n","case_ref":"{ID}","organization_id":"org_1","requester_subject":"usr_1"}}"#
    );
    assert_eq!(first.request_hash, Sha256::digest(wire.as_bytes()).to_vec());
}

#[test]
fn requesters_see_related_cases_and_public_messages_only() {
    let request = |case_ref: &str| GetRequesterCaseRequest {
        case_ref: case_ref.to_owned(),
        organization_id: "org_1".to_owned(),
        requester_subject: "usr_1".to_owned(),
    };
    let query = get_requester_case(&callers(), Some("help-center"), request("SUP-3")).unwrap();
    assert_eq!((query.actor.as_str(), query.can_read_all), ("usr_1", false));
    assert_eq!(
        get_requester_case(&callers(), Some("help-center"), request("nope")),
        Err(GetRequesterCaseError::InvalidRequest)
    );
    assert_eq!(
        get_requester_case(&callers(), Some("x"), request("SUP-3")),
        Err(GetRequesterCaseError::Forbidden)
    );
    let list = |limit: i64| ListRequesterMessagesRequest {
        case_ref: ID.to_owned(),
        cursor: None,
        limit,
        organization_id: "org_1".to_owned(),
        requester_subject: "usr_1".to_owned(),
    };
    let query = list_requester_messages(&callers(), Some("help-center"), &list(5)).unwrap();
    assert!(!query.can_read_all && !query.can_read_internal);
    assert_eq!(query.limit, 6);
    assert_eq!(
        list_requester_messages(&callers(), Some("help-center"), &list(0)),
        Err(ListRequesterMessagesError::InvalidRequest)
    );
    assert_eq!(
        list_requester_messages(&callers(), None, &list(5)),
        Err(ListRequesterMessagesError::Forbidden)
    );
}

#[test]
fn channels_are_answered_with_the_requester_view() {
    let case = CaseRecord {
        case_id: ID_VALUE,
        identifier: "SUP-9".to_owned(),
        organization_id: "org_1".to_owned(),
        requester_subject: "usr_1".to_owned(),
        creator_subject: "usr_2".to_owned(),
        title: "t".to_owned(),
        description: "d".to_owned(),
        priority: "urgent".to_owned(),
        state: "open".to_owned(),
        assignee_subject: Some("usr_3".to_owned()),
        revision: 4,
        created_at: 0,
        updated_at: 0,
        resolved_at: None,
        closed_at: None,
    };
    let message = MessageRecord {
        message_id: 1,
        case_id: ID_VALUE,
        visibility: "public".to_owned(),
        author_subject: "usr_1".to_owned(),
        body: "b".to_owned(),
        created_at: 0,
        case_revision: 5,
    };
    let opened =
        opened_case::<()>(Ok(Answer::Done(StoredResponse::Case(case.clone())))).unwrap();
    assert_eq!(opened.case_id, ID);
    assert_eq!((opened.revision.as_str(), opened.state), ("4", CaseState::Open));
    let found = found_requester_case::<()>(Ok(Some(case))).unwrap();
    assert_eq!(found, opened);
    assert_eq!(
        found_requester_case::<()>(Ok(None)),
        Err(CallError::Domain(GetRequesterCaseError::CaseNotFound))
    );
    let appended =
        appended_message::<()>(Ok(Answer::Done(StoredResponse::Message(message.clone())))).unwrap();
    assert_eq!((appended.case_id.as_str(), appended.case_revision.as_str()), (ID, "5"));
    assert_eq!(
        appended_message::<()>(Ok(Answer::Refused(DomainFailure::Forbidden))),
        Err(CallError::Domain(AppendChannelMessageError::Forbidden))
    );
    assert_eq!(
        opened_case::<()>(Err(StorageError::Serialization)),
        Err(CallError::Runtime(Fault::PluginFailure {
            detail: "Support Case command response serialization failed".to_owned()
        }))
    );
    let listed = found_requester_messages::<()>(1, Ok(Some(vec![message.clone(), message]))).unwrap();
    assert_eq!(listed.messages.len(), 1);
    assert_eq!(
        listed.next_cursor.as_deref(),
        Some("1970-01-01T00:00:00Z|00000000-0000-0000-0000-000000000001")
    );
    assert_eq!(
        found_requester_messages::<()>(1, Ok(None)),
        Err(CallError::Domain(ListRequesterMessagesError::CaseNotFound))
    );
}

fn row_of(requester: &str) -> CaseRow {
    CaseRow {
        case_id: Some(ID_VALUE),
        identifier: Some("SUP-1".to_owned()),
        organization_id: Some("org_1".to_owned()),
        requester_subject: Some(requester.to_owned()),
        creator_subject: Some(requester.to_owned()),
        title: Some("Need help".to_owned()),
        description: Some("d".to_owned()),
        priority: Some("normal".to_owned()),
        state: Some("open".to_owned()),
        assignee_subject: Some(None),
        revision: Some(3),
        created_at: Some(0),
        updated_at: Some(0),
        resolved_at: Some(None),
        closed_at: Some(None),
    }
}

#[test]
fn channels_reach_cases_related_to_their_requester_only() {
    let request = GetRequesterCaseRequest {
        case_ref: "SUP-1".to_owned(),
        organization_id: "org_1".to_owned(),
        requester_subject: "usr_1".to_owned(),
    };
    let query = get_requester_case(&callers(), Some("help-center"), request).unwrap();
    assert_eq!(get_case(&query, Ok(Some(row_of("usr_2")))), Ok(None));
    let seen = get_case(&query, Ok(Some(row_of("usr_1")))).unwrap().unwrap();
    assert_eq!(seen.requester_subject, "usr_1");
    let mut created = row_of("usr_2");
    created.creator_subject = Some("usr_1".to_owned());
    assert!(get_case(&query, Ok(Some(created))).unwrap().is_some());
    let mut assigned = row_of("usr_2");
    assigned.assignee_subject = Some(Some("usr_1".to_owned()));
    assert!(get_case(&query, Ok(Some(assigned))).unwrap().is_some());

    let drawn = Drawn { record_id: 1, activity_id: 2 };
    let command = append("3").unwrap();
    assert_eq!(
        decide_change(&command, Some(row_of("usr_2")), drawn, 5),
        Ok(Decision::Refuse(DomainFailure::Forbidden))
    );
    let mut assigned = row_of("usr_2");
    assigned.assignee_subject = Some(Some("usr_1".to_owned()));
    assert!(matches!(
        decide_change(&command, Some(assigned), drawn, 5),
        Ok(Decision::Write(_))
    ));
    match decide_change(&command, Some(row_of("usr_1")), drawn, 5) {
        Ok(Decision::Write(plan)) => match plan.response {
            StoredResponse::Message(message) => {
                assert_eq!(message.visibility, "public");
                assert_eq!(message.author_subject, "usr_1");
            }
            other => panic!("{other:?}"),
        },
        other => panic!("{other:?}"),
    }
}
