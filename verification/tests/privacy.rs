use sha2::{Digest, Sha256};
use support_case::errors::StorageError;
use support_case::fault::{CallError, Fault};
use support_case::model::{CaseRecord, DomainFailure, MessageRecord, PayloadEntry, StoredResponse};
use support_case::privacy::{
    applied_retention, apply_retention, collect_export, export_item, export_subject, ActivityRow,
    ApplyRetentionError, ApplyRetentionRequest, CollectExportError, CollectExportRequest,
    ExportQuery, RetentionMode,
};
use support_case::retention::{
    retain_activity, retain_case, retain_message, retain_response, RetainedActivity, RetainedCase,
    RetainedMessage, RetainedReceipt, Retention, DELETED_CONTENT, DELETED_TITLE,
};
use support_case::retention_run::{
    anonymous_subject, decide_retention, ConcernedCase, Findings, RetentionAction, RetentionAnswer,
    RetentionEvent, RetentionPart, RetentionRow, RetentionRun, RetentionStage, RetentionStep,
};
use support_case::rows::{CaseRow, MessageRow};
use support_case::wire::{object_text, request_hash};

fn entry(key: &str, value: Option<&str>) -> PayloadEntry {
    PayloadEntry { key: key.to_owned(), value: value.map(str::to_owned) }
}

fn retention(delete_content: bool) -> Retention {
    Retention {
        action_id: "act_1".to_owned(),
        request_hash: vec![1],
        organization_id: "org_1".to_owned(),
        subject: "usr_1".to_owned(),
        delete_content,
    }
}

fn concerned() -> ConcernedCase {
    ConcernedCase {
        case_id: Some(5),
        revision: Some(3),
        requester_subject: "usr_1".to_owned(),
        creator_subject: "usr_2".to_owned(),
        assignee_subject: Some("usr_1".to_owned()),
        title: "t".to_owned(),
        description: "d".to_owned(),
    }
}

fn record() -> CaseRecord {
    CaseRecord {
        case_id: 5,
        identifier: "SUP-1".to_owned(),
        organization_id: "org_1".to_owned(),
        requester_subject: "usr_1".to_owned(),
        creator_subject: "usr_2".to_owned(),
        title: "t".to_owned(),
        description: "d".to_owned(),
        priority: "normal".to_owned(),
        state: "open".to_owned(),
        assignee_subject: Some("usr_1".to_owned()),
        revision: 3,
        created_at: 0,
        updated_at: 0,
        resolved_at: None,
        closed_at: None,
    }
}

fn findings() -> Findings {
    Findings {
        cases: vec![concerned()],
        receipts: vec![RetainedReceipt {
            caller_instance: "support-api".to_owned(),
            idempotency_key: "k".to_owned(),
            response: StoredResponse::Case(record()),
        }],
        messages: vec![RetainedMessage {
            message_id: 8,
            author_subject: "usr_1".to_owned(),
            body: "b".to_owned(),
        }],
        activities: vec![RetainedActivity {
            activity_id: 9,
            actor_subject: "usr_1".to_owned(),
            payload: vec![entry("assignee_subject", Some("usr_1")), entry("reason", Some("r"))],
        }],
        now: 77,
    }
}

#[test]
fn anonymizing_replaces_the_subject_and_keeps_content() {
    let anon = "anon_x".to_owned();
    let plan = decide_retention(&retention(false), findings(), &anon, &vec![100]).unwrap();
    let case = &plan.cases[0];
    assert_eq!(case.requester_subject, "anon_x");
    assert_eq!(case.creator_subject, "usr_2");
    assert_eq!(case.assignee_subject.as_deref(), Some("anon_x"));
    assert_eq!((case.title.as_str(), case.description.as_str()), ("t", "d"));
    assert_eq!((case.revision, plan.now), (4, 77));
    assert_eq!(plan.messages[0].author_subject, "anon_x");
    assert_eq!(plan.messages[0].body, "b");
    assert_eq!(plan.activities[0].actor_subject, "anon_x");
    assert_eq!(
        plan.activities[0].payload,
        vec![entry("assignee_subject", Some("anon_x")), entry("reason", Some("r"))]
    );
    match &plan.receipts[0].response {
        StoredResponse::Case(case) => {
            assert_eq!(case.requester_subject, "anon_x");
            assert_eq!(case.assignee_subject.as_deref(), Some("anon_x"));
            assert_eq!(case.title, "t");
        }
        other => panic!("{other:?}"),
    }
    let history = &plan.history[0];
    assert_eq!(history.kind, "privacy.retention_applied");
    assert_eq!(history.actor_subject, "retention:act_1");
    assert_eq!((history.activity_id, history.case_revision), (100, 4));
    assert_eq!(history.payload, vec![entry("mode", Some("anonymize"))]);
    assert_eq!(plan.receipt.receipt, "support-case:act_1:anonymized");
    assert_eq!(plan.receipt.anonymized_subject, "anon_x");
}

#[test]
fn deleting_redacts_what_the_subject_wrote() {
    let anon = "anon_x".to_owned();
    let plan = decide_retention(&retention(true), findings(), &anon, &vec![100]).unwrap();
    assert_eq!(plan.cases[0].assignee_subject, None);
    assert_eq!(plan.cases[0].title, DELETED_TITLE);
    assert_eq!(plan.cases[0].description, DELETED_CONTENT);
    assert_eq!(plan.messages[0].body, "[deleted by privacy request]");
    assert_eq!(
        plan.activities[0].payload,
        vec![entry("assignee_subject", None), entry("reason", Some(DELETED_CONTENT))]
    );
    match &plan.receipts[0].response {
        StoredResponse::Case(case) => {
            assert_eq!(case.title, "[deleted support case]");
            assert_eq!(case.assignee_subject, None);
        }
        other => panic!("{other:?}"),
    }
    assert_eq!(plan.history[0].payload, vec![entry("mode", Some("delete"))]);
    assert_eq!(plan.receipt.receipt, "support-case:act_1:deleted");
}

#[test]
fn content_of_others_is_not_redacted() {
    let anon = "anon_x".to_owned();
    let case = RetainedCase {
        case_id: 1,
        requester_subject: "usr_2".to_owned(),
        creator_subject: "usr_2".to_owned(),
        assignee_subject: Some("usr_1".to_owned()),
        title: "t".to_owned(),
        description: "d".to_owned(),
        revision: 1,
    };
    let kept = retain_case(&case, "usr_1", &anon, true);
    assert_eq!((kept.title.as_str(), kept.assignee_subject), ("t", None));
    let message = RetainedMessage {
        message_id: 1,
        author_subject: "usr_2".to_owned(),
        body: "b".to_owned(),
    };
    assert_eq!(retain_message(&message, "usr_1", &anon, true), message);
    let activity = RetainedActivity {
        activity_id: 1,
        actor_subject: "usr_2".to_owned(),
        payload: vec![entry("assignee_subject", Some("usr_3")), entry("reason", Some("r"))],
    };
    assert_eq!(retain_activity(&activity, "usr_1", &anon, true), activity);
    let response = StoredResponse::Message(MessageRecord {
        message_id: 1,
        case_id: 2,
        visibility: "public".to_owned(),
        author_subject: "usr_1".to_owned(),
        body: "b".to_owned(),
        created_at: 0,
        case_revision: 1,
    });
    match retain_response(&response, "usr_1", &anon, true) {
        StoredResponse::Message(message) => {
            assert_eq!((message.author_subject.as_str(), message.body.as_str()), ("anon_x", DELETED_CONTENT));
        }
        other => panic!("{other:?}"),
    }
}

#[test]
fn unreadable_cells_stop_the_action() {
    let anon = "anon_x".to_owned();
    let mut bad = findings();
    bad.cases[0].case_id = None;
    assert_eq!(
        decide_retention(&retention(true), bad, &anon, &vec![1]),
        Err(StorageError::Database { operation: "decode retained case id" })
    );
    let mut bad = findings();
    bad.cases.push(concerned());
    bad.cases[1].revision = None;
    assert_eq!(
        decide_retention(&retention(true), bad, &anon, &vec![1, 2]),
        Err(StorageError::Database { operation: "decode retained case revision" })
    );
    let mut last = findings();
    last.cases[0].revision = Some(i64::MAX);
    assert_eq!(
        decide_retention(&retention(true), last, &anon, &vec![1]),
        Err(StorageError::Database { operation: "anonymize support cases" })
    );
}

#[test]
fn an_action_is_carried_out_under_its_own_identifier() {
    let run = RetentionRun::start(retention(false));
    assert_eq!(run.action(), RetentionAction::Begin);
    let run = run.resume(RetentionEvent::Done);
    assert_eq!(run.action(), RetentionAction::AcquireLock { key: "act_1" });
    let run = run.resume(RetentionEvent::Done);
    assert_eq!(run.action(), RetentionAction::ReadReceipt { action_id: "act_1" });
    let run = run.resume(RetentionEvent::Receipt(None));
    let gather = RetentionAction::Gather { organization_id: "org_1", subject: "usr_1" };
    assert_eq!(run.action(), gather);
    let run = run.resume(RetentionEvent::Gathered(findings()));
    match run.action() {
        RetentionAction::Apply { plan, step } => {
            assert_eq!(step, RetentionStep::SanitizeReceipts);
            let name = &plan.receipt.anonymized_subject;
            assert_ne!(name, "usr_1");
            assert_eq!(plan.cases[0].requester_subject, *name);
            assert_eq!(plan.cases[0].assignee_subject.as_ref(), Some(name));
            assert_eq!(plan.messages[0].author_subject, *name);
            assert_eq!(plan.activities[0].actor_subject, *name);
            assert_eq!((plan.history[0].activity_id >> 76) & 15, 4);
        }
        other => panic!("{other:?}"),
    }
    let run = written(run);
    assert_eq!(run.action(), RetentionAction::Commit);
    assert_eq!(run.resume(RetentionEvent::Done).action(), RetentionAction::Finish);
}

#[test]
fn an_action_happens_once() {
    let run = || {
        RetentionRun::start(retention(true))
            .resume(RetentionEvent::Done)
            .resume(RetentionEvent::Done)
    };
    let receipt = |hash: &[u8]| {
        RetentionEvent::Receipt(Some(RetentionRow {
            request_hash: Some(hash.to_vec()),
            receipt: Some("support-case:act_1:deleted".to_owned()),
        }))
    };
    let replayed = run().resume(receipt(&[1]));
    assert_eq!(replayed.label(), "commit retention replay");
    assert_eq!(
        replayed.resume(RetentionEvent::Done).stage,
        RetentionStage::Finished(Ok(RetentionAnswer::Applied(
            "support-case:act_1:deleted".to_owned()
        )))
    );
    assert_eq!(
        run().resume(receipt(&[2])).stage,
        RetentionStage::Finished(Ok(RetentionAnswer::Refused(DomainFailure::RetentionConflict)))
    );
    let applied = written(
        run()
            .resume(RetentionEvent::Receipt(None))
            .resume(RetentionEvent::Gathered(findings())),
    )
    .resume(RetentionEvent::Done);
    assert_eq!(
        applied.stage,
        RetentionStage::Finished(Ok(RetentionAnswer::Applied(
            "support-case:act_1:deleted".to_owned()
        )))
    );
}

#[test]
fn drawn_names_are_anonymous() {
    assert_eq!(anonymous_subject(0xab), "anon_000000000000000000000000000000ab");
    let run = RetentionRun::start(retention(false))
        .resume(RetentionEvent::Done)
        .resume(RetentionEvent::Done)
        .resume(RetentionEvent::Receipt(None))
        .resume(RetentionEvent::Gathered(findings()));
    match run.stage {
        RetentionStage::Apply { plan, .. } => {
            let name = &plan.receipt.anonymized_subject;
            assert_eq!(name.len(), 37);
            assert!(name.starts_with("anon_"));
            assert_eq!(&plan.cases[0].requester_subject, name);
        }
        other => panic!("{other:?}"),
    }
}

#[test]
fn retention_failures_carry_the_name_of_the_statement() {
    let gathering = || {
        RetentionRun::start(retention(true))
            .resume(RetentionEvent::Done)
            .resume(RetentionEvent::Done)
            .resume(RetentionEvent::Receipt(None))
    };
    let operation = |run: RetentionRun| match run.stage {
        RetentionStage::Finished(Err(StorageError::Database { operation })) => operation,
        other => panic!("{other:?}"),
    };
    assert_eq!(
        operation(RetentionRun::start(retention(true)).resume(RetentionEvent::Failed)),
        "begin support retention"
    );
    assert_eq!(
        operation(gathering().resume(RetentionEvent::FailedAt(RetentionPart::Cases))),
        "lock retention cases"
    );
    assert_eq!(
        operation(gathering().resume(RetentionEvent::FailedAt(RetentionPart::Messages))),
        "redact retained messages"
    );
}

/// Takes every step of writing the plan.
fn written(mut run: RetentionRun) -> RetentionRun {
    while matches!(run.stage, RetentionStage::Apply { .. }) {
        run = run.resume(RetentionEvent::Done);
    }
    run
}

/// By which statement a failure is known after a number of steps were done.
fn failure_after(delete_content: bool, steps: usize) -> &'static str {
    let mut run = RetentionRun::start(retention(delete_content))
        .resume(RetentionEvent::Done)
        .resume(RetentionEvent::Done)
        .resume(RetentionEvent::Receipt(None))
        .resume(RetentionEvent::Gathered(findings()));
    for _ in 0..steps {
        run = run.resume(RetentionEvent::Done);
    }
    match run.resume(RetentionEvent::Failed).stage {
        RetentionStage::Finished(Err(StorageError::Database { operation })) => operation,
        other => panic!("{other:?}"),
    }
}

#[test]
fn every_step_of_retention_has_its_own_statement() {
    let rest = [
        "anonymize support cases",
        "anonymize message authors",
        "sanitize support activity payload",
        "anonymize support activity",
        "insert support case activity",
        "store retention receipt",
    ];
    assert_eq!(failure_after(true, 0), "sanitize personal command receipts");
    assert_eq!(failure_after(true, 1), "redact retained messages");
    assert_eq!(failure_after(true, 2), "redact retained cases");
    assert_eq!(failure_after(false, 0), "sanitize personal command receipts");
    for (index, statement) in rest.iter().enumerate() {
        assert_eq!(failure_after(true, index + 3), *statement);
        assert_eq!(failure_after(false, index + 1), *statement);
    }
    assert_eq!(failure_after(true, 9), "commit support retention");
    assert_eq!(failure_after(false, 7), "commit support retention");
}

#[test]
fn retention_requests_are_checked() {
    let callers = vec!["privacy-retention".to_owned()];
    let request = || ApplyRetentionRequest {
        action_id: "act_1".to_owned(),
        mode: RetentionMode::Delete,
        reason: String::new(),
        scope_id: "org_1".to_owned(),
        scope_kind: "organization".to_owned(),
        subject: "usr_1".to_owned(),
    };
    let action = apply_retention(&callers, Some("privacy-retention"), request()).unwrap();
    assert!(action.delete_content);
    let wire = r#"{"action_id":"act_1","mode":"delete","reason":"","scope_id":"org_1","scope_kind":"organization","subject":"usr_1"}"#;
    assert_eq!(action.request_hash, Sha256::digest(wire.as_bytes()).to_vec());
    assert_eq!(
        apply_retention(&callers, Some("x"), request()),
        Err(ApplyRetentionError::Forbidden)
    );
    let mut other = request();
    other.scope_kind = "workspace".to_owned();
    assert_eq!(
        apply_retention(&callers, Some("privacy-retention"), other),
        Err(ApplyRetentionError::InvalidRequest)
    );
    assert_eq!(
        applied_retention::<()>(Ok(RetentionAnswer::Refused(DomainFailure::RetentionConflict))),
        Err(CallError::Domain(ApplyRetentionError::InvalidRequest))
    );
    assert_eq!(
        applied_retention::<()>(Ok(RetentionAnswer::Applied("r".to_owned()))),
        Ok("r".to_owned())
    );
}

fn case_row() -> CaseRow {
    CaseRow {
        case_id: Some(5),
        identifier: Some("SUP-1".to_owned()),
        organization_id: Some("org_1".to_owned()),
        requester_subject: Some("usr_1".to_owned()),
        creator_subject: Some("usr_1".to_owned()),
        title: Some("t".to_owned()),
        description: Some("d".to_owned()),
        priority: Some("normal".to_owned()),
        state: Some("open".to_owned()),
        assignee_subject: Some(None),
        revision: Some(2),
        created_at: Some(0),
        updated_at: Some(0),
        resolved_at: Some(None),
        closed_at: Some(None),
    }
}

fn message_row() -> MessageRow {
    MessageRow {
        message_id: Some(8),
        case_id: Some(5),
        visibility: Some("public".to_owned()),
        author_subject: Some("usr_1".to_owned()),
        body: Some("b".to_owned()),
        created_at: Some(0),
        case_revision: Some(9),
    }
}

fn activity_row(assignee: &str) -> ActivityRow {
    ActivityRow {
        activity_id: Some(9),
        case_id: Some(5),
        kind: Some("case.assigned".to_owned()),
        actor_subject: Some("usr_1".to_owned()),
        case_revision: Some(2),
        payload: Some(vec![entry("assignee_subject", Some(assignee)), entry("to", Some("x"))]),
        created_at: Some(1_000_000_000),
    }
}

fn query() -> ExportQuery {
    ExportQuery { organization_id: "org_1".to_owned(), subject: "usr_1".to_owned() }
}

#[test]
fn exports_tell_no_other_assignee() {
    let document = export_subject(
        query(),
        Ok(vec![case_row()]),
        Ok(vec![message_row()]),
        Ok(vec![activity_row("usr_2"), activity_row("usr_1")]),
    )
    .unwrap();
    assert_eq!(document.cases.len(), 1);
    assert_eq!(document.authored_messages[0].case_revision, 0);
    assert_eq!(document.actor_activity[0].payload, vec![entry("to", Some("x"))]);
    assert_eq!(document.actor_activity[1].payload.len(), 2);
    assert_eq!(document.actor_activity[0].case_revision, "2");
    assert_eq!(document.actor_activity[0].created_at, "1970-01-01T00:00:01Z");
    assert_eq!(document.subject, "usr_1");
}

#[test]
fn exports_fail_with_the_first_bad_part() {
    let database = |operation| Err(StorageError::Database { operation });
    assert_eq!(
        export_subject(query(), Err(()), Ok(vec![]), Ok(vec![])),
        database("export support cases")
    );
    assert_eq!(
        export_subject(query(), Ok(vec![]), Err(()), Ok(vec![])),
        database("export support messages")
    );
    assert_eq!(
        export_subject(query(), Ok(vec![]), Ok(vec![]), Err(())),
        database("export support activity")
    );
    let mut bad = activity_row("usr_1");
    bad.kind = None;
    assert_eq!(
        export_subject(query(), Ok(vec![]), Ok(vec![]), Ok(vec![bad])),
        database("decode export activity kind")
    );
    let mut late = case_row();
    late.updated_at = Some(i128::MAX);
    assert_eq!(
        export_subject(query(), Ok(vec![late]), Ok(vec![]), Ok(vec![])),
        Err(StorageError::Serialization)
    );
}

#[test]
fn exports_are_never_cut_short() {
    let item = export_item::<()>("\u{e9}\u{e9}".to_owned(), 4).unwrap();
    assert_eq!((item.item_name, item.media_type), ("support-cases.json", "application/json"));
    assert_eq!(item.payload, "\u{e9}\u{e9}");
    assert_eq!(
        export_item::<()>("\u{e9}\u{e9}".to_owned(), 3),
        Err(CallError::Runtime(Fault::ResourceExhausted {
            capability: "lenso.data-export-source@1",
            operation: "collect_export"
        }))
    );
}

#[test]
fn export_requests_are_checked() {
    let callers = vec!["privacy-export".to_owned()];
    let request = |scope_kind: &str, subject: &str| CollectExportRequest {
        export_id: "exp_1".to_owned(),
        scope_id: "org_1".to_owned(),
        scope_kind: scope_kind.to_owned(),
        subject: subject.to_owned(),
    };
    assert_eq!(
        collect_export(&callers, Some("privacy-export"), request("organization", "usr_1")),
        Ok(query())
    );
    assert_eq!(
        collect_export(&callers, Some("privacy-export"), request("user", "usr_1")),
        Err(CollectExportError::InvalidRequest)
    );
    assert_eq!(
        collect_export(&callers, Some("privacy-export"), request("organization", "")),
        Err(CollectExportError::InvalidRequest)
    );
    assert_eq!(
        collect_export(&callers, None, request("organization", "usr_1")),
        Err(CollectExportError::Forbidden)
    );
}

#[test]
fn objects_are_written_as_json() {
    let entries = vec![
        entry("a", Some("quote \" slash \\ tab \t bell \u{7} e\u{301}")),
        entry("b", None),
    ];
    assert_eq!(
        object_text(&entries),
        "{\"a\":\"quote \\\" slash \\\\ tab \\t bell \\u0007 e\u{301}\",\"b\":null}"
    );
    assert_eq!(object_text(&Vec::new()), "{}");
    for code in 0..0x300_u32 {
        if let Some(c) = char::from_u32(code) {
            let text = c.to_string();
            assert_eq!(
                object_text(&vec![entry("k", Some(&text))]),
                format!("{{\"k\":{}}}", serde_json::to_string(&text).unwrap())
            );
        }
    }
    let hash = request_hash(&Vec::new());
    assert_eq!(hash, Sha256::digest(b"{}").to_vec());
    assert_eq!((hash.len(), hash[0], hash[31]), (32, 0x44, 0x8a));
}

#[test]
fn different_payloads_have_different_fingerprints() {
    let one = request_hash(&vec![entry("a", Some("x\",\"b\":\"y"))]);
    let two = request_hash(&vec![entry("a", Some("x")), entry("b", Some("y"))]);
    let three = request_hash(&vec![entry("a", None)]);
    let four = request_hash(&vec![entry("a", Some("null"))]);
    assert_ne!(one, two);
    assert_ne!(three, four);
}
