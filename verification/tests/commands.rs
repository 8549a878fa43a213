use std::collections::BTreeMap;

use support_case::command::{
    command_replay, decide_change, decide_creation, lock_text, plan_creation, Change, Command,
    Decision, Drawn, ReceiptRow, Replay, ResponseCell, Write,
};
use support_case::errors::StorageError;
use support_case::model::{
    ActivityRecord, CaseRecord, DomainFailure, MessageRecord, StoredResponse,
};
use support_case::rows::{decode_case, decode_message, CaseRow, MessageRow};
use support_case::transaction::{Action, Answer, CommandRun, Event, Stage};

type Receipts = BTreeMap<(String, String), (String, Vec<u8>, StoredResponse)>;

/// A store in memory that hosts the runs of commands.
#[derive(Default)]
struct Store {
    cases: BTreeMap<u128, CaseRecord>,
    messages: Vec<MessageRecord>,
    activities: Vec<ActivityRecord>,
    receipts: Receipts,
    sequences: BTreeMap<String, i64>,
    now: i128,
    locks: Vec<String>,
}

fn row(case: &CaseRecord) -> CaseRow {
    CaseRow {
        case_id: Some(case.case_id),
        identifier: Some(case.identifier.clone()),
        organization_id: Some(case.organization_id.clone()),
        requester_subject: Some(case.requester_subject.clone()),
        creator_subject: Some(case.creator_subject.clone()),
        title: Some(case.title.clone()),
        description: Some(case.description.clone()),
        priority: Some(case.priority.clone()),
        state: Some(case.state.clone()),
        assignee_subject: Some(case.assignee_subject.clone()),
        revision: Some(case.revision),
        created_at: Some(case.created_at),
        updated_at: Some(case.updated_at),
        resolved_at: Some(case.resolved_at),
        closed_at: Some(case.closed_at),
    }
}

impl Store {
    fn run(&mut self, command: Command) -> Result<Answer, StorageError> {
        self.now += 1_000;
        let mut run = CommandRun::start(command);
        let mut sequences = self.sequences.clone();
        let mut writes: Vec<Write> = Vec::new();
        loop {
            let event = match run.action() {
                Action::Begin => Event::Done,
                Action::AcquireLock { key } => {
                    self.locks.push(key);
                    Event::Done
                }
                Action::ReadReceipt { caller, idempotency_key } => Event::Receipt(
                    self.receipts
                        .get(&(caller.to_owned(), idempotency_key.to_owned()))
                        .map(|(operation, hash, response)| ReceiptRow {
                            operation: Some(operation.clone()),
                            request_hash: Some(hash.clone()),
                            response: ResponseCell::Read(response.clone()),
                        }),
                ),
                Action::AllocateNumber { organization_id } => {
                    let next = sequences.entry(organization_id.to_owned()).or_insert(1);
                    let number = *next;
                    *next += 1;
                    Event::Allocated { number: Some(number), now: self.now }
                }
                Action::LockCase { organization_id, case_id } => Event::Locked {
                    row: self
                        .cases
                        .get(&case_id)
                        .filter(|case| case.organization_id == organization_id)
                        .map(row),
                    now: self.now,
                },
                Action::Apply(_) => Event::Done,
                Action::Commit => Event::Done,
                Action::Finish => break,
            };
            if let Stage::Write { plan, next } = &run.stage {
                match &plan.writes[*next] {
                    Write::InsertCase(case) => writes.push(Write::InsertCase(case.clone())),
                    Write::UpdateCase(case) => writes.push(Write::UpdateCase(case.clone())),
                    Write::InsertMessage(message) => {
                        writes.push(Write::InsertMessage(message.clone()));
                    }
                    Write::InsertActivity(activity) => {
                        self.activities.push(ActivityRecord {
                            activity_id: activity.activity_id,
                            organization_id: activity.organization_id.clone(),
                            case_id: activity.case_id,
                            kind: activity.kind.clone(),
                            actor_subject: activity.actor_subject.clone(),
                            case_revision: activity.case_revision,
                            payload: Vec::new(),
                            created_at: activity.created_at,
                        });
                    }
                    Write::SaveReceipt(receipt) => {
                        self.receipts.insert(
                            (receipt.caller_instance.clone(), receipt.idempotency_key.clone()),
                            (
                                receipt.operation.clone(),
                                receipt.request_hash.clone(),
                                receipt.response.clone(),
                            ),
                        );
                    }
                }
            }
            run = run.resume(event);
        }
        for write in writes {
            match write {
                Write::InsertCase(case) | Write::UpdateCase(case) => {
                    self.cases.insert(case.case_id, case);
                }
                Write::InsertMessage(message) => self.messages.push(message),
                _ => unreachable!(),
            }
        }
        self.sequences = sequences;
        match run.stage {
            Stage::Finished(outcome) => outcome,
            _ => unreachable!(),
        }
    }
}

fn command(key: &str, hash: &[u8], actor: &str, change: Change) -> Command {
    Command {
        caller: "support-api".to_owned(),
        idempotency_key: key.to_owned(),
        request_hash: hash.to_vec(),
        organization_id: "org_1".to_owned(),
        actor: actor.to_owned(),
        change,
    }
}

fn create(key: &str, hash: &[u8]) -> Command {
    command(
        key,
        hash,
        "usr_requester",
        Change::Create {
            title: "Cannot sign in".to_owned(),
            description: "The login flow rejects my passkey.".to_owned(),
            priority: "high".to_owned(),
        },
    )
}

fn update(key: &str, hash: &[u8], case_id: u128, expected_revision: i64, title: &str) -> Command {
    command(
        key,
        hash,
        "usr_agent",
        Change::Update {
            case_id,
            expected_revision,
            title: Some(title.to_owned()),
            description: None,
            priority: None,
        },
    )
}

fn transition(key: &str, case_id: u128, expected_revision: i64, target: &str) -> Command {
    command(
        key,
        key.as_bytes(),
        "usr_agent",
        Change::Transition {
            case_id,
            expected_revision,
            target_state: target.to_owned(),
            reason: None,
        },
    )
}

fn note(
    key: &str,
    actor: &str,
    case_id: u128,
    expected_revision: i64,
    can_comment_all: bool,
) -> Command {
    command(
        key,
        key.as_bytes(),
        actor,
        Change::AddMessage {
            case_id,
            expected_revision,
            can_comment_all,
            visibility: "public".to_owned(),
            body: "hello".to_owned(),
        },
    )
}

fn case_of(answer: Result<Answer, StorageError>) -> CaseRecord {
    match answer {
        Ok(Answer::Done(StoredResponse::Case(case))) => case,
        other => panic!("no case: {other:?}"),
    }
}

fn refusal_of(answer: Result<Answer, StorageError>) -> DomainFailure {
    match answer {
        Ok(Answer::Refused(failure)) => failure,
        other => panic!("no refusal: {other:?}"),
    }
}

#[test]
fn replay_and_revision_conflicts_outlive_a_run() {
    let mut store = Store::default();
    let created = case_of(store.run(create("create-1", &[1, 2, 3])));
    assert_eq!(created.identifier, "SUP-1");
    assert_eq!(created.revision, 1);
    assert_eq!(created.state, "open");
    assert_eq!(created.requester_subject, "usr_requester");
    assert_eq!(created.creator_subject, "usr_requester");
    assert_eq!(created.created_at, created.updated_at);

    let replayed = case_of(store.run(create("create-1", &[1, 2, 3])));
    assert_eq!(replayed, created);
    assert_eq!(store.cases.len(), 1);
    assert_eq!(store.activities.len(), 1);

    let first = store.run(update("update-1", &[4], created.case_id, 1, "Cannot sign in with passkey"));
    let first = case_of(first);
    assert_eq!(first.revision, 2);
    assert_eq!(first.title, "Cannot sign in with passkey");
    assert_eq!(first.description, created.description);
    assert_eq!(first.priority, "high");
    let second = store.run(command(
        "update-2",
        &[5],
        "usr_agent",
        Change::Update {
            case_id: created.case_id,
            expected_revision: 1,
            title: None,
            description: None,
            priority: Some("urgent".to_owned()),
        },
    ));
    assert_eq!(refusal_of(second), DomainFailure::RevisionConflict);
    assert_eq!(store.cases[&created.case_id], first);
}

#[test]
fn a_key_serves_one_operation_and_one_payload() {
    let mut store = Store::default();
    let created = case_of(store.run(create("k", &[1])));
    assert_eq!(refusal_of(store.run(create("k", &[2]))), DomainFailure::IdempotencyConflict);
    let other = update("k", &[1], created.case_id, 1, "x");
    assert_eq!(refusal_of(store.run(other)), DomainFailure::IdempotencyConflict);
    assert_eq!(store.cases.len(), 1);
    let mut foreign = create("k", &[9]);
    foreign.caller = "other-api".to_owned();
    assert_eq!(case_of(store.run(foreign)).identifier, "SUP-2");
    assert_eq!(store.locks[0], "support-api\u{0}k");
}

#[test]
fn numbers_are_local_to_the_organization() {
    let mut store = Store::default();
    for n in 1..=12 {
        let case = case_of(store.run(create(&format!("k{n}"), &[n])));
        assert_eq!(case.identifier, format!("SUP-{n}"));
    }
    let mut other = create("k1", &[1]);
    other.caller = "b".to_owned();
    other.organization_id = "org_2".to_owned();
    assert_eq!(case_of(store.run(other)).identifier, "SUP-1");
}

#[test]
fn the_lifecycle_sets_and_clears_the_times() {
    let mut store = Store::default();
    let id = case_of(store.run(create("k", &[1]))).case_id;
    assert_eq!(
        refusal_of(store.run(transition("t0", id, 1, "closed"))),
        DomainFailure::InvalidTransition
    );
    case_of(store.run(transition("t1", id, 1, "in_progress")));
    let resolved = case_of(store.run(transition("t2", id, 2, "resolved")));
    assert_eq!((resolved.resolved_at, resolved.closed_at), (Some(resolved.updated_at), None));
    let closed = case_of(store.run(transition("t3", id, 3, "closed")));
    assert_eq!((closed.resolved_at, closed.closed_at), (resolved.resolved_at, Some(closed.updated_at)));
    let reopened = case_of(store.run(transition("t4", id, 4, "in_progress")));
    assert_eq!((reopened.resolved_at, reopened.closed_at), (None, None));
    assert_eq!(reopened.revision, 5);
}

#[test]
fn related_subjects_may_write_and_others_need_permission() {
    let mut store = Store::default();
    let id = case_of(store.run(create("k", &[1]))).case_id;
    assert_eq!(
        refusal_of(store.run(note("m0", "usr_stranger", id, 1, false))),
        DomainFailure::Forbidden
    );
    assert!(store.run(note("m1", "usr_requester", id, 1, false)).is_ok());
    assert!(store.run(note("m2", "usr_stranger", id, 2, true)).is_ok());
    let assign = Change::Assign {
        case_id: id,
        expected_revision: 3,
        assignee_subject: Some("usr_stranger".to_owned()),
    };
    let assigned = case_of(store.run(command("a", b"a", "usr_agent", assign)));
    assert_eq!(assigned.assignee_subject.as_deref(), Some("usr_stranger"));
    match store.run(note("m3", "usr_stranger", id, 4, false)) {
        Ok(Answer::Done(StoredResponse::Message(message))) => {
            assert_eq!(message.case_revision, 5);
            assert_eq!(message.author_subject, "usr_stranger");
        }
        other => panic!("{other:?}"),
    }
    assert_eq!(store.messages.len(), 3);
    assert_eq!(
        refusal_of(store.run(note("m4", "usr_stranger", id + 1, 4, false))),
        DomainFailure::CaseNotFound
    );
}

#[test]
fn every_effect_enters_the_history() {
    let mut store = Store::default();
    let id = case_of(store.run(create("k", &[1]))).case_id;
    store.run(update("u", &[2], id, 1, "t")).unwrap();
    store.run(transition("t", id, 2, "in_progress")).unwrap();
    store.run(note("m", "usr_requester", id, 3, false)).unwrap();
    let kinds: Vec<&str> = store.activities.iter().map(|a| a.kind.as_str()).collect();
    assert_eq!(kinds, ["case.created", "case.updated", "case.transitioned", "message.added"]);
    let revisions: Vec<i64> = store.activities.iter().map(|a| a.case_revision).collect();
    assert_eq!(revisions, [1, 2, 3, 4]);
}

#[test]
fn drawn_identifiers_are_random_uuids() {
    let mut store = Store::default();
    let first = case_of(store.run(create("k1", &[1]))).case_id;
    let second = case_of(store.run(create("k2", &[2]))).case_id;
    for id in [first, second] {
        let uuid = uuid::Uuid::from_u128(id);
        assert_eq!(uuid.get_version_num(), 4);
        assert_eq!(uuid.get_variant(), uuid::Variant::RFC4122);
    }
    assert_ne!(first, second);
}

#[test]
fn payloads_tell_what_happened() {
    let drawn = Drawn { record_id: 5, activity_id: 6 };
    let plan = plan_creation(&create("k", &[1]), 42, drawn, 7);
    match &plan.writes[1] {
        Write::InsertActivity(activity) => {
            assert_eq!(activity.payload[0].key, "identifier");
            assert_eq!(activity.payload[0].value.as_deref(), Some("SUP-42"));
            assert_eq!((activity.activity_id, activity.case_id), (6, 5));
        }
        other => panic!("{other:?}"),
    }
    let case = match &plan.writes[0] {
        Write::InsertCase(case) => case,
        other => panic!("{other:?}"),
    };
    let moved = decide_change(&transition("t", 5, 1, "in_progress"), Some(row(case)), drawn, 8);
    match moved {
        Ok(Decision::Write(plan)) => match &plan.writes[1] {
            Write::InsertActivity(activity) => {
                let entries: Vec<(&str, Option<&str>)> = activity
                    .payload
                    .iter()
                    .map(|entry| (entry.key.as_str(), entry.value.as_deref()))
                    .collect();
                assert_eq!(
                    entries,
                    [("from", Some("open")), ("to", Some("in_progress")), ("reason", None)]
                );
            }
            other => panic!("{other:?}"),
        },
        other => panic!("{other:?}"),
    }
    match decide_change(&note("m", "usr_requester", 5, 1, false), Some(row(case)), drawn, 8) {
        Ok(Decision::Write(plan)) => match &plan.writes[2] {
            Write::InsertActivity(activity) => {
                assert_eq!(
                    activity.payload[0].value.as_deref(),
                    Some("00000000-0000-0000-0000-000000000005")
                );
                assert_eq!(activity.payload[1].value.as_deref(), Some("public"));
            }
            other => panic!("{other:?}"),
        },
        other => panic!("{other:?}"),
    }
}

#[test]
fn receipts_decide_replays() {
    let command = create("k", &[1]);
    assert_eq!(command_replay(&command, None), Ok(Replay::Proceed));
    let receipt = |operation: Option<&str>, hash: Option<&[u8]>, response: ResponseCell| {
        Some(ReceiptRow {
            operation: operation.map(str::to_owned),
            request_hash: hash.map(<[u8]>::to_vec),
            response,
        })
    };
    let database = |operation| Err(StorageError::Database { operation });
    assert_eq!(
        command_replay(&command, receipt(None, None, ResponseCell::Unreadable)),
        database("decode command operation")
    );
    assert_eq!(
        command_replay(&command, receipt(Some("create_case"), None, ResponseCell::Unreadable)),
        database("decode command hash")
    );
    assert_eq!(
        command_replay(&command, receipt(Some("create_case"), Some(&[1]), ResponseCell::Unreadable)),
        database("decode command response")
    );
    assert_eq!(
        command_replay(&command, receipt(Some("create_case"), Some(&[1]), ResponseCell::Malformed)),
        Err(StorageError::Serialization)
    );
    assert_eq!(
        command_replay(&command, receipt(Some("create_case"), Some(&[2]), ResponseCell::Malformed)),
        Ok(Replay::Refuse(DomainFailure::IdempotencyConflict))
    );
    assert_eq!(lock_text(&command), "support-api\u{0}k");
}

#[test]
fn numbers_have_to_be_positive() {
    let drawn = Drawn { record_id: 1, activity_id: 2 };
    assert_eq!(
        decide_creation(&create("k", &[1]), Some(0), drawn, 1),
        Err(StorageError::InvalidStoredData {
            detail: "case sequence is not positive".to_owned()
        })
    );
    assert_eq!(
        decide_creation(&create("k", &[1]), None, drawn, 1),
        Err(StorageError::Database { operation: "decode case identifier" })
    );
}

#[test]
fn failures_carry_the_name_of_the_statement() {
    let label = |run: CommandRun| match run.resume(Event::Failed).stage {
        Stage::Finished(Err(StorageError::Database { operation })) => operation,
        other => panic!("{other:?}"),
    };
    assert_eq!(label(CommandRun::start(create("k", &[1]))), "begin case creation");
    assert_eq!(
        label(CommandRun::start(update("k", &[1], 1, 1, "t")).resume(Event::Done)),
        "acquire idempotency lock"
    );
    assert_eq!(
        label(CommandRun::start(create("k", &[1])).resume(Event::Done).resume(Event::Done)),
        "read command replay"
    );
    let reading = CommandRun::start(transition("t", 1, 1, "in_progress"))
        .resume(Event::Done)
        .resume(Event::Done)
        .resume(Event::Receipt(None));
    assert_eq!(label(reading), "lock support case");
    let writing = CommandRun::start(create("k", &[1]))
        .resume(Event::Done)
        .resume(Event::Done)
        .resume(Event::Receipt(None))
        .resume(Event::Allocated { number: Some(1), now: 0 });
    assert_eq!(writing.label(), "insert support case");
    let committing = writing.resume(Event::Done).resume(Event::Done).resume(Event::Done);
    assert_eq!(committing.label(), "commit case creation");
    assert_eq!(label(committing), "commit case creation");
    let unserialized = CommandRun::start(create("k", &[1]))
        .resume(Event::Done)
        .resume(Event::Done)
        .resume(Event::Receipt(None))
        .resume(Event::Allocated { number: Some(1), now: 0 })
        .resume(Event::Unserialized);
    assert_eq!(unserialized.stage, Stage::Finished(Err(StorageError::Serialization)));
}

#[test]
fn the_last_revision_cannot_be_followed() {
    let drawn = Drawn { record_id: 1, activity_id: 2 };
    let plan = plan_creation(&create("k", &[1]), 1, drawn, 0);
    let mut case = match &plan.writes[0] {
        Write::InsertCase(case) => case.clone(),
        other => panic!("{other:?}"),
    };
    case.revision = i64::MAX;
    assert_eq!(
        decide_change(&update("u", &[1], 1, i64::MAX, "t"), Some(row(&case)), drawn, 0),
        Err(StorageError::Database { operation: "update support case" })
    );
}

#[test]
fn rows_are_read_column_by_column() {
    let drawn = Drawn { record_id: 1, activity_id: 2 };
    let plan = plan_creation(&create("k", &[1]), 1, drawn, 0);
    let case = match &plan.writes[0] {
        Write::InsertCase(case) => case.clone(),
        other => panic!("{other:?}"),
    };
    assert_eq!(decode_case(row(&case)).as_ref(), Ok(&case));
    let fails = |change: &dyn Fn(&mut CaseRow), operation: &'static str| {
        let mut bad = row(&case);
        change(&mut bad);
        assert_eq!(decode_case(bad), Err(StorageError::Database { operation }));
    };
    fails(&|r| r.revision = None, "decode case revision");
    fails(&|r| r.case_id = None, "decode case id");
    fails(&|r| r.identifier = None, "decode case identifier");
    fails(&|r| r.organization_id = None, "decode case organization");
    fails(&|r| r.requester_subject = None, "decode case requester");
    fails(&|r| r.creator_subject = None, "decode case creator");
    fails(&|r| r.title = None, "decode case title");
    fails(&|r| r.description = None, "decode case description");
    fails(&|r| r.priority = None, "decode case priority");
    fails(&|r| r.state = None, "decode case state");
    fails(&|r| r.assignee_subject = None, "decode case assignee");
    fails(&|r| r.created_at = None, "decode case created time");
    fails(&|r| r.updated_at = None, "decode case updated time");
    fails(&|r| r.resolved_at = None, "decode case resolved time");
    fails(&|r| r.closed_at = None, "decode case closed time");
    let mut zero = row(&case);
    zero.revision = Some(0);
    let error = decode_case(zero).unwrap_err();
    assert_eq!(error.text(), "stored Support Case data is invalid: case revision is not positive");

    let message = || MessageRow {
        message_id: Some(1),
        case_id: Some(2),
        visibility: Some("public".to_owned()),
        author_subject: Some("usr_1".to_owned()),
        body: Some("x".to_owned()),
        created_at: Some(3),
        case_revision: None,
    };
    assert_eq!(decode_message(message()).unwrap().case_revision, 0);
    let mut bad = message();
    bad.body = None;
    let error = decode_message(bad).unwrap_err();
    assert_eq!(error.text(), "PostgreSQL operation `decode message body` failed");
    assert_eq!(
        StorageError::Serialization.text(),
        "Support Case command response serialization failed"
    );
}
