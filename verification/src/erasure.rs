//! What a retention action does to the stored records as a whole.

use vstd::prelude::*;
use vstd::string::*;

use crate::command;
use crate::database;
use crate::database::Database;
use crate::errors::StorageErrorView;
use crate::lifecycle;
use crate::model;
use crate::model::{
    ActivityView, CaseView, DomainFailure, EntryView, MessageView, ReceiptView, ResponseView,
};
use crate::privacy;
use crate::privacy::ActivityRow;
use crate::retention;
use crate::retention::{
    RetainedActivityView, RetainedCaseView, RetainedMessageView, RetainedReceiptView, RetentionView,
};
use crate::retention_run;
use crate::retention_run::{
    Findings, RetentionAnswerView, RetentionEvent, RetentionPlanView, RetentionRow,
    RetentionStageView, RetentionStep,
};

verus! {

/// The part of a case that retention reads and changes.
pub open spec fn case_part(case: CaseView) -> RetainedCaseView {
    RetainedCaseView {
        case_id: case.case_id,
        requester_subject: case.requester_subject,
        creator_subject: case.creator_subject,
        assignee_subject: case.assignee_subject,
        title: case.title,
        description: case.description,
        revision: case.revision,
    }
}

/// A case with its retained part replaced.
pub open spec fn case_with(case: CaseView, part: RetainedCaseView, now: i128) -> CaseView {
    CaseView {
        requester_subject: part.requester_subject,
        creator_subject: part.creator_subject,
        assignee_subject: part.assignee_subject,
        title: part.title,
        description: part.description,
        revision: part.revision,
        updated_at: now,
        ..case
    }
}

/// The part of a message that retention reads and changes.
pub open spec fn message_part(message: MessageView) -> RetainedMessageView {
    RetainedMessageView {
        message_id: message.message_id,
        author_subject: message.author_subject,
        body: message.body,
    }
}

/// The part of an activity that retention reads and changes.
pub open spec fn activity_part(activity: ActivityView) -> RetainedActivityView {
    RetainedActivityView {
        activity_id: activity.activity_id,
        actor_subject: activity.actor_subject,
        payload: activity.payload,
    }
}

/// Whether a stored response names a subject.
pub open spec fn response_names(response: ResponseView, subject: Seq<char>) -> bool {
    match response {
        ResponseView::Case(case) => model::related(case, subject),
        ResponseView::Message(message) => message.author_subject == subject,
    }
}

/// Whether a payload names a subject as an assignee.
pub open spec fn payload_names(payload: Seq<EntryView>, subject: Seq<char>) -> bool {
    exists|i: int|
        0 <= i < payload.len() && (#[trigger] payload[i]).key == "assignee_subject"@
            && payload[i].value == Some(subject)
}

/// Whether an activity names a subject.
pub open spec fn activity_names(activity: ActivityView, subject: Seq<char>) -> bool {
    activity.actor_subject == subject || payload_names(activity.payload, subject)
}

/// Whether a subject wrote in a case.
pub open spec fn wrote_in(db: Database, case_id: u128, subject: Seq<char>) -> bool {
    exists|id: u128|
        #![trigger db.messages.contains_key(id)]
        db.messages.contains_key(id) && db.messages[id].case_id == case_id
            && db.messages[id].author_subject == subject
}

/// Whether a message belongs to a case of an organization.
pub open spec fn message_in(db: Database, message: MessageView, organization_id: Seq<char>) -> bool {
    db.cases.contains_key(message.case_id) && db.cases[message.case_id].organization_id
        == organization_id
}

/// Every record lies under its own identifier.
pub open spec fn keyed(db: Database) -> bool {
    &&& forall|id: u128| #[trigger] db.cases.contains_key(id) ==> db.cases[id].case_id == id
    &&& forall|id: u128| #[trigger]
        db.messages.contains_key(id) ==> db.messages[id].message_id == id
    &&& forall|id: u128| #[trigger]
        db.activities.contains_key(id) ==> db.activities[id].activity_id == id
}

/// Whether the findings are what is stored: every finding is a stored record of the
/// organization, and every record of it that names the subject was found.
pub open spec fn found_all(db: Database, retention: RetentionView, findings: Findings) -> bool {
    let organization = retention.organization_id;
    let subject = retention.subject;
    &&& forall|i: int|
        0 <= i < findings.cases@.len() ==> {
            let finding = #[trigger] findings.cases@[i];
            &&& finding.case_id is Some
            &&& finding.revision is Some
            &&& db.cases.contains_key(finding.case_id->0)
            &&& db.cases[finding.case_id->0].organization_id == organization
            &&& case_part(db.cases[finding.case_id->0]) == retention_run::concerned_content(finding)
        }
    &&& forall|id: u128| #[trigger]
        db.cases.contains_key(id) && db.cases[id].organization_id == organization && (
        model::related(db.cases[id], subject) || wrote_in(db, id, subject)) ==> exists|i: int|
            0 <= i < findings.cases@.len() && (#[trigger] findings.cases@[i]).case_id == Some(id)
    &&& forall|i: int|
        0 <= i < findings.messages@.len() ==> {
            let message = (#[trigger] findings.messages@[i])@;
            db.messages.contains_key(message.message_id) && message_in(
                db,
                db.messages[message.message_id],
                organization,
            ) && message_part(db.messages[message.message_id]) == message
        }
    &&& forall|id: u128| #[trigger]
        db.messages.contains_key(id) && message_in(db, db.messages[id], organization)
            && db.messages[id].author_subject == subject ==> exists|i: int|
            0 <= i < findings.messages@.len() && (#[trigger] findings.messages@[i])@.message_id == id
    &&& forall|i: int|
        0 <= i < findings.receipts@.len() ==> {
            let receipt = (#[trigger] findings.receipts@[i])@;
            let key = (receipt.caller_instance, receipt.idempotency_key);
            db.receipts.contains_key(key) && db.receipts[key].organization_id == organization
                && db.receipts[key].response == receipt.response
        }
    &&& forall|key: (Seq<char>, Seq<char>)| #[trigger]
        db.receipts.contains_key(key) && db.receipts[key].organization_id == organization
            && response_names(db.receipts[key].response, subject) ==> exists|i: int|
            0 <= i < findings.receipts@.len() && (
            (#[trigger] findings.receipts@[i])@.caller_instance,
            findings.receipts@[i]@.idempotency_key,
        ) == key
    &&& forall|i: int|
        0 <= i < findings.activities@.len() ==> {
            let activity = (#[trigger] findings.activities@[i])@;
            db.activities.contains_key(activity.activity_id)
                && db.activities[activity.activity_id].organization_id == organization
                && activity_part(db.activities[activity.activity_id]) == activity
        }
    &&& forall|id: u128| #[trigger]
        db.activities.contains_key(id) && db.activities[id].organization_id == organization
            && activity_names(db.activities[id], subject) ==> exists|i: int|
            0 <= i < findings.activities@.len() && (#[trigger] findings.activities@[i])@.activity_id
                == id
}

/// Which rewritten case lies under an identifier, if any.
pub open spec fn case_at(plan: RetentionPlanView, id: u128) -> Option<RetainedCaseView> {
    if exists|i: int| 0 <= i < plan.cases.len() && (#[trigger] plan.cases[i]).case_id == id {
        Some(
            plan.cases[choose|i: int|
                0 <= i < plan.cases.len() && (#[trigger] plan.cases[i]).case_id == id],
        )
    } else {
        None
    }
}

/// Which rewritten message lies under an identifier, if any.
pub open spec fn message_at(plan: RetentionPlanView, id: u128) -> Option<RetainedMessageView> {
    if exists|i: int| 0 <= i < plan.messages.len() && (#[trigger] plan.messages[i]).message_id == id {
        Some(
            plan.messages[choose|i: int|
                0 <= i < plan.messages.len() && (#[trigger] plan.messages[i]).message_id == id],
        )
    } else {
        None
    }
}

/// Whether a rewritten receipt has a key.
pub open spec fn has_key(receipt: RetainedReceiptView, key: (Seq<char>, Seq<char>)) -> bool {
    (receipt.caller_instance, receipt.idempotency_key) == key
}

/// Which rewritten receipt lies under a key, if any.
pub open spec fn receipt_at(plan: RetentionPlanView, key: (Seq<char>, Seq<char>)) -> Option<
    RetainedReceiptView,
> {
    if exists|i: int| 0 <= i < plan.receipts.len() && has_key(#[trigger] plan.receipts[i], key) {
        Some(
            plan.receipts[choose|i: int|
                0 <= i < plan.receipts.len() && has_key(#[trigger] plan.receipts[i], key)],
        )
    } else {
        None
    }
}

/// Which rewritten activity lies under an identifier, if any.
pub open spec fn activity_at(plan: RetentionPlanView, id: u128) -> Option<RetainedActivityView> {
    if exists|i: int|
        0 <= i < plan.activities.len() && (#[trigger] plan.activities[i]).activity_id == id {
        Some(
            plan.activities[choose|i: int|
                0 <= i < plan.activities.len() && (#[trigger] plan.activities[i]).activity_id == id],
        )
    } else {
        None
    }
}

/// Which new entry of the history lies under an identifier, if any.
pub open spec fn entry_at(plan: RetentionPlanView, id: u128) -> Option<ActivityView> {
    if exists|i: int| 0 <= i < plan.history.len() && (#[trigger] plan.history[i]).activity_id == id {
        Some(
            plan.history[choose|i: int|
                0 <= i < plan.history.len() && (#[trigger] plan.history[i]).activity_id == id],
        )
    } else {
        None
    }
}

/// The case under an identifier after a plan is applied.
pub open spec fn case_after(db: Database, plan: RetentionPlanView, id: u128) -> CaseView {
    match case_at(plan, id) {
        Some(part) => case_with(db.cases[id], part, plan.now),
        None => db.cases[id],
    }
}

/// The message under an identifier after a plan is applied.
pub open spec fn message_after(db: Database, plan: RetentionPlanView, id: u128) -> MessageView {
    match message_at(plan, id) {
        Some(part) => MessageView {
            author_subject: part.author_subject,
            body: part.body,
            ..db.messages[id]
        },
        None => db.messages[id],
    }
}

/// The receipt under a key after a plan is applied.
pub open spec fn receipt_after(
    db: Database,
    plan: RetentionPlanView,
    key: (Seq<char>, Seq<char>),
) -> ReceiptView {
    match receipt_at(plan, key) {
        Some(part) => ReceiptView { response: part.response, ..db.receipts[key] },
        None => db.receipts[key],
    }
}

/// The activity under an identifier after a plan is applied.
pub open spec fn activity_after(db: Database, plan: RetentionPlanView, id: u128) -> ActivityView {
    match (entry_at(plan, id), activity_at(plan, id)) {
        (Some(entry), _) => entry,
        (None, Some(part)) => ActivityView {
            actor_subject: part.actor_subject,
            payload: part.payload,
            ..db.activities[id]
        },
        (None, None) => db.activities[id],
    }
}

/// The database after a retention plan is applied.
pub open spec fn applied(db: Database, retention: RetentionView, plan: RetentionPlanView) -> Database {
    Database {
        cases: Map::new(|id: u128| db.cases.contains_key(id), |id: u128| case_after(db, plan, id)),
        messages: Map::new(
            |id: u128| db.messages.contains_key(id),
            |id: u128| message_after(db, plan, id),
        ),
        activities: Map::new(
            |id: u128| db.activities.contains_key(id) || entry_at(plan, id) is Some,
            |id: u128| activity_after(db, plan, id),
        ),
        receipts: Map::new(
            |key: (Seq<char>, Seq<char>)| db.receipts.contains_key(key),
            |key: (Seq<char>, Seq<char>)| receipt_after(db, plan, key),
        ),
        sequences: db.sequences,
        retentions: db.retentions.insert(retention.action_id, plan.receipt),
    }
}

/// Whether nothing stored in an organization names a subject.
pub open spec fn forgotten(db: Database, organization_id: Seq<char>, subject: Seq<char>) -> bool {
    &&& forall|id: u128| #[trigger]
        db.cases.contains_key(id) && db.cases[id].organization_id == organization_id
            ==> !model::related(db.cases[id], subject)
    &&& forall|id: u128| #[trigger]
        db.messages.contains_key(id) && message_in(db, db.messages[id], organization_id)
            ==> db.messages[id].author_subject != subject
    &&& forall|key: (Seq<char>, Seq<char>)| #[trigger]
        db.receipts.contains_key(key) && db.receipts[key].organization_id == organization_id
            ==> !response_names(db.receipts[key].response, subject)
    &&& forall|id: u128| #[trigger]
        db.activities.contains_key(id) && db.activities[id].organization_id == organization_id
            ==> !activity_names(db.activities[id], subject)
}

/// Whether a plan is the one that a retention action decides on, from all that is
/// stored.
pub open spec fn decided(
    db: Database,
    retention: RetentionView,
    findings: Findings,
    anonymized: Seq<char>,
    drawn: Seq<u128>,
    plan: RetentionPlanView,
) -> bool {
    &&& keyed(db)
    &&& found_all(db, retention, findings)
    &&& retention_run::retention_decision(retention, findings, anonymized, drawn) == Ok::<
        _,
        StorageErrorView,
    >(plan)
}

/// What a plan holds of a stored case.
pub proof fn lemma_case_after(
    db: Database,
    retention: RetentionView,
    findings: Findings,
    anonymized: Seq<char>,
    drawn: Seq<u128>,
    plan: RetentionPlanView,
    id: u128,
)
    requires
        decided(db, retention, findings, anonymized, drawn, plan),
        db.cases.contains_key(id),
    ensures
        case_at(plan, id) matches Some(part) ==> part == retention::without_subject(
            case_part(db.cases[id]),
            retention.subject,
            anonymized,
            retention.delete_content,
        ) && db.cases[id].organization_id == retention.organization_id && db.cases[id].revision
            < i64::MAX,
        case_at(plan, id) is None && db.cases[id].organization_id == retention.organization_id
            ==> !model::related(db.cases[id], retention.subject),
{
    if case_at(plan, id) is Some {
        let i = choose|i: int| 0 <= i < plan.cases.len() && (#[trigger] plan.cases[i]).case_id == id;
        let finding = findings.cases@[i];
        assert(plan.cases[i].case_id == retention_run::concerned_content(finding).case_id);
        assert(finding.case_id is Some);
        assert(finding.revision != Some(i64::MAX));
    } else if db.cases[id].organization_id == retention.organization_id && model::related(
        db.cases[id],
        retention.subject,
    ) {
        let i = choose|i: int|
            0 <= i < findings.cases@.len() && (#[trigger] findings.cases@[i]).case_id == Some(id);
        assert(plan.cases[i].case_id == id);
    }
}

/// What a plan holds of a stored message.
pub proof fn lemma_message_after(
    db: Database,
    retention: RetentionView,
    findings: Findings,
    anonymized: Seq<char>,
    drawn: Seq<u128>,
    plan: RetentionPlanView,
    id: u128,
)
    requires
        decided(db, retention, findings, anonymized, drawn, plan),
        db.messages.contains_key(id),
    ensures
        message_at(plan, id) matches Some(part) ==> part == retention::unauthored(
            message_part(db.messages[id]),
            retention.subject,
            anonymized,
            retention.delete_content,
        ) && message_in(db, db.messages[id], retention.organization_id),
        message_at(plan, id) is None && message_in(db, db.messages[id], retention.organization_id)
            ==> db.messages[id].author_subject != retention.subject,
{
    if message_at(plan, id) is Some {
        let i = choose|i: int|
            0 <= i < plan.messages.len() && (#[trigger] plan.messages[i]).message_id == id;
        let finding = findings.messages@[i];
        assert(plan.messages[i].message_id == finding@.message_id);
    } else if message_in(db, db.messages[id], retention.organization_id)
        && db.messages[id].author_subject == retention.subject {
        let i = choose|i: int|
            0 <= i < findings.messages@.len() && (#[trigger] findings.messages@[i])@.message_id
                == id;
        assert(plan.messages[i].message_id == id);
    }
}

/// What a plan holds of a stored receipt.
pub proof fn lemma_receipt_after(
    db: Database,
    retention: RetentionView,
    findings: Findings,
    anonymized: Seq<char>,
    drawn: Seq<u128>,
    plan: RetentionPlanView,
    key: (Seq<char>, Seq<char>),
)
    requires
        decided(db, retention, findings, anonymized, drawn, plan),
        db.receipts.contains_key(key),
    ensures
        receipt_at(plan, key) matches Some(part) ==> part.response == retention::sanitized_response(
            db.receipts[key].response,
            retention.subject,
            anonymized,
            retention.delete_content,
        ) && db.receipts[key].organization_id == retention.organization_id,
        receipt_at(plan, key) is None && db.receipts[key].organization_id
            == retention.organization_id ==> !response_names(
            db.receipts[key].response,
            retention.subject,
        ),
{
    if receipt_at(plan, key) is Some {
        let i = choose|i: int|
            0 <= i < plan.receipts.len() && has_key(#[trigger] plan.receipts[i], key);
        let finding = findings.receipts@[i];
        assert(has_key(finding@, key));
    } else if db.receipts[key].organization_id == retention.organization_id && response_names(
        db.receipts[key].response,
        retention.subject,
    ) {
        let i = choose|i: int|
            0 <= i < findings.receipts@.len() && (
            (#[trigger] findings.receipts@[i])@.caller_instance,
            findings.receipts@[i]@.idempotency_key,
        ) == key;
        assert(has_key(plan.receipts[i], key));
    }
}

/// What a plan holds of a stored activity.
pub proof fn lemma_activity_after(
    db: Database,
    retention: RetentionView,
    findings: Findings,
    anonymized: Seq<char>,
    drawn: Seq<u128>,
    plan: RetentionPlanView,
    id: u128,
)
    requires
        decided(db, retention, findings, anonymized, drawn, plan),
        db.activities.contains_key(id),
    ensures
        activity_at(plan, id) matches Some(part) ==> part == retention::unattributed(
            activity_part(db.activities[id]),
            retention.subject,
            anonymized,
            retention.delete_content,
        ) && db.activities[id].organization_id == retention.organization_id,
        activity_at(plan, id) is None && db.activities[id].organization_id
            == retention.organization_id ==> !activity_names(db.activities[id], retention.subject),
{
    if activity_at(plan, id) is Some {
        let i = choose|i: int|
            0 <= i < plan.activities.len() && (#[trigger] plan.activities[i]).activity_id == id;
        let finding = findings.activities@[i];
        assert(plan.activities[i].activity_id == finding@.activity_id);
    } else if db.activities[id].organization_id == retention.organization_id && activity_names(
        db.activities[id],
        retention.subject,
    ) {
        let i = choose|i: int|
            0 <= i < findings.activities@.len() && (#[trigger] findings.activities@[i])@.activity_id
                == id;
        assert(plan.activities[i].activity_id == id);
    }
}

/// Taking the subject out of an activity leaves no assignee that is the subject.
proof fn lemma_payload_is_sanitized(
    activity: RetainedActivityView,
    subject: Seq<char>,
    anonymized: Seq<char>,
    delete_content: bool,
)
    requires
        anonymized != subject,
    ensures
        !payload_names(
            retention::unattributed(activity, subject, anonymized, delete_content).payload,
            subject,
        ),
{
    let sanitized = retention::unattributed(activity, subject, anonymized, delete_content).payload;
    reveal_strlit("assignee_subject");
    reveal_strlit("reason");
    assert("assignee_subject"@.len() == 16);
    assert("reason"@.len() == 6);
    assert forall|i: int| 0 <= i < sanitized.len() implies !((#[trigger] sanitized[i]).key
        == "assignee_subject"@ && sanitized[i].value == Some(subject)) by {
        assert(sanitized[i] == retention::sanitized_entry(
            activity.payload[i],
            subject,
            anonymized,
            delete_content,
            activity.actor_subject == subject,
        ));
    }
}

/// After a retention action nothing stored in the organization names the subject any
/// more: no case, no message, no receipt and no activity. The drawn name has to be
/// another one, and the subject none under which the action itself enters the history.
pub proof fn law_retention_forgets_the_subject(
    db: Database,
    retention: RetentionView,
    findings: Findings,
    anonymized: Seq<char>,
    drawn: Seq<u128>,
    plan: RetentionPlanView,
)
    requires
        decided(db, retention, findings, anonymized, drawn, plan),
        anonymized != retention.subject,
        retention::retention_actor(retention.action_id) != retention.subject,
    ensures
        forgotten(applied(db, retention, plan), retention.organization_id, retention.subject),
{
    let after = applied(db, retention, plan);
    let organization = retention.organization_id;
    let subject = retention.subject;
    assert forall|id: u128| #[trigger]
        after.cases.contains_key(id) && after.cases[id].organization_id == organization implies !model::related(
        after.cases[id],
        subject,
    ) by {
        lemma_case_after(db, retention, findings, anonymized, drawn, plan, id);
    }
    assert forall|id: u128| #[trigger]
        after.messages.contains_key(id) && message_in(
            after,
            after.messages[id],
            organization,
        ) implies after.messages[id].author_subject != subject by {
        assert(db.messages.contains_key(id));
        lemma_message_after(db, retention, findings, anonymized, drawn, plan, id);
        let case_id = db.messages[id].case_id;
        assert(after.messages[id].case_id == case_id);
        assert(after.cases.contains_key(case_id));
        lemma_case_after(db, retention, findings, anonymized, drawn, plan, case_id);
        assert(after.cases[case_id].organization_id == db.cases[case_id].organization_id);
    }
    assert forall|key: (Seq<char>, Seq<char>)| #[trigger]
        after.receipts.contains_key(key) && after.receipts[key].organization_id
            == organization implies !response_names(after.receipts[key].response, subject) by {
        lemma_receipt_after(db, retention, findings, anonymized, drawn, plan, key);
    }
    assert forall|id: u128| #[trigger]
        after.activities.contains_key(id) && after.activities[id].organization_id
            == organization implies !activity_names(after.activities[id], subject) by {
        if entry_at(plan, id) is Some {
            let i = choose|i: int|
                0 <= i < plan.history.len() && (#[trigger] plan.history[i]).activity_id == id;
            let entry = plan.history[i];
            reveal_strlit("assignee_subject");
            reveal_strlit("mode");
            assert("assignee_subject"@.len() == 16);
            assert("mode"@.len() == 4);
            assert(entry.payload.len() == 1 && entry.payload[0].key == "mode"@);
        } else {
            lemma_activity_after(db, retention, findings, anonymized, drawn, plan, id);
            if activity_at(plan, id) is Some {
                lemma_payload_is_sanitized(
                    activity_part(db.activities[id]),
                    subject,
                    anonymized,
                    retention.delete_content,
                );
            }
        }
    }
}

/// A retention action removes no case, no message, no receipt and no activity, and
/// leaves the records of other organizations as they are, but for an activity under an
/// identifier that was drawn again.
pub proof fn law_retention_keeps_shared_records(
    db: Database,
    retention: RetentionView,
    findings: Findings,
    anonymized: Seq<char>,
    drawn: Seq<u128>,
    plan: RetentionPlanView,
)
    requires
        decided(db, retention, findings, anonymized, drawn, plan),
    ensures
        ({
            let after = applied(db, retention, plan);
            &&& forall|id: u128| #[trigger]
                after.cases.contains_key(id) <==> db.cases.contains_key(id)
            &&& forall|id: u128| #[trigger]
                after.messages.contains_key(id) <==> db.messages.contains_key(id)
            &&& forall|key: (Seq<char>, Seq<char>)| #[trigger]
                after.receipts.contains_key(key) <==> db.receipts.contains_key(key)
            &&& forall|id: u128| #[trigger]
                db.cases.contains_key(id) && db.cases[id].organization_id
                    != retention.organization_id ==> after.cases[id] == db.cases[id]
            &&& forall|id: u128| #[trigger]
                db.messages.contains_key(id) && !message_in(
                    db,
                    db.messages[id],
                    retention.organization_id,
                ) ==> after.messages[id] == db.messages[id]
            &&& forall|key: (Seq<char>, Seq<char>)| #[trigger]
                db.receipts.contains_key(key) && db.receipts[key].organization_id
                    != retention.organization_id ==> after.receipts[key] == db.receipts[key]
            &&& forall|id: u128| #[trigger]
                db.activities.contains_key(id) ==> after.activities.contains_key(id)
            &&& forall|id: u128| #[trigger]
                db.activities.contains_key(id) && entry_at(plan, id) is None
                    && db.activities[id].organization_id != retention.organization_id
                    ==> after.activities[id] == db.activities[id]
        }),
{
    let after = applied(db, retention, plan);
    assert forall|id: u128| #[trigger]
        db.cases.contains_key(id) && db.cases[id].organization_id
            != retention.organization_id implies after.cases[id] == db.cases[id] by {
        lemma_case_after(db, retention, findings, anonymized, drawn, plan, id);
    }
    assert forall|id: u128| #[trigger]
        db.messages.contains_key(id) && !message_in(
            db,
            db.messages[id],
            retention.organization_id,
        ) implies after.messages[id] == db.messages[id] by {
        lemma_message_after(db, retention, findings, anonymized, drawn, plan, id);
    }
    assert forall|key: (Seq<char>, Seq<char>)| #[trigger]
        db.receipts.contains_key(key) && db.receipts[key].organization_id
            != retention.organization_id implies after.receipts[key] == db.receipts[key] by {
        lemma_receipt_after(db, retention, findings, anonymized, drawn, plan, key);
    }
    assert forall|id: u128| #[trigger]
        db.activities.contains_key(id) && entry_at(plan, id) is None
            && db.activities[id].organization_id
            != retention.organization_id implies after.activities[id] == db.activities[id] by {
        lemma_activity_after(db, retention, findings, anonymized, drawn, plan, id);
    }
}

/// Whether every finding names the subject: nothing else was found.
pub open spec fn found_only(db: Database, retention: RetentionView, findings: Findings) -> bool {
    let subject = retention.subject;
    &&& forall|i: int|
        0 <= i < findings.cases@.len() ==> {
            let id = (#[trigger] findings.cases@[i]).case_id->0;
            model::related(db.cases[id], subject) || wrote_in(db, id, subject)
        }
    &&& forall|i: int|
        0 <= i < findings.messages@.len() ==> (#[trigger] findings.messages@[i])@.author_subject
            == subject
    &&& forall|i: int|
        0 <= i < findings.receipts@.len() ==> response_names(
            (#[trigger] findings.receipts@[i])@.response,
            subject,
        )
    &&& forall|i: int|
        0 <= i < findings.activities@.len() ==> {
            let activity = (#[trigger] findings.activities@[i])@;
            activity.actor_subject == subject || payload_names(activity.payload, subject)
        }
}

/// A retention action raises the revision of every case that concerns the subject by
/// one, and leaves every record of the organization that does not as it is.
pub proof fn law_retention_touches_only_what_concerns_the_subject(
    db: Database,
    retention: RetentionView,
    findings: Findings,
    anonymized: Seq<char>,
    drawn: Seq<u128>,
    plan: RetentionPlanView,
)
    requires
        decided(db, retention, findings, anonymized, drawn, plan),
        found_only(db, retention, findings),
    ensures
        ({
            let after = applied(db, retention, plan);
            let subject = retention.subject;
            &&& forall|id: u128| #[trigger]
                db.cases.contains_key(id) && db.cases[id].organization_id
                    == retention.organization_id ==> if model::related(db.cases[id], subject)
                    || wrote_in(db, id, subject) {
                    after.cases[id].revision == db.cases[id].revision + 1
                } else {
                    after.cases[id] == db.cases[id]
                }
            &&& forall|id: u128| #[trigger]
                db.messages.contains_key(id) && db.messages[id].author_subject != subject
                    ==> after.messages[id] == db.messages[id]
            &&& forall|key: (Seq<char>, Seq<char>)| #[trigger]
                db.receipts.contains_key(key) && !response_names(
                    db.receipts[key].response,
                    subject,
                ) ==> after.receipts[key] == db.receipts[key]
            &&& forall|id: u128| #[trigger]
                db.activities.contains_key(id) && entry_at(plan, id) is None && !activity_names(
                    db.activities[id],
                    subject,
                ) ==> after.activities[id] == db.activities[id]
        }),
{
    let after = applied(db, retention, plan);
    let subject = retention.subject;
    assert forall|id: u128| #[trigger]
        db.cases.contains_key(id) && db.cases[id].organization_id
            == retention.organization_id implies if model::related(db.cases[id], subject)
        || wrote_in(db, id, subject) {
        after.cases[id].revision == db.cases[id].revision + 1
    } else {
        after.cases[id] == db.cases[id]
    } by {
        lemma_case_after(db, retention, findings, anonymized, drawn, plan, id);
        if case_at(plan, id) is Some {
            let i = choose|i: int|
                0 <= i < plan.cases.len() && (#[trigger] plan.cases[i]).case_id == id;
            assert(findings.cases@[i].case_id == Some(id));
        } else if wrote_in(db, id, subject) {
            let i = choose|i: int|
                0 <= i < findings.cases@.len() && (#[trigger] findings.cases@[i]).case_id == Some(
                    id,
                );
            assert(plan.cases[i].case_id == id);
        }
    }
    assert forall|id: u128| #[trigger]
        db.messages.contains_key(id) && db.messages[id].author_subject
            != subject implies after.messages[id] == db.messages[id] by {
        if message_at(plan, id) is Some {
            let i = choose|i: int|
                0 <= i < plan.messages.len() && (#[trigger] plan.messages[i]).message_id == id;
            assert(plan.messages[i].message_id == findings.messages@[i]@.message_id);
        }
    }
    assert forall|key: (Seq<char>, Seq<char>)| #[trigger]
        db.receipts.contains_key(key) && !response_names(
            db.receipts[key].response,
            subject,
        ) implies after.receipts[key] == db.receipts[key] by {
        if receipt_at(plan, key) is Some {
            let i = choose|i: int|
                0 <= i < plan.receipts.len() && has_key(#[trigger] plan.receipts[i], key);
            assert(has_key(findings.receipts@[i]@, key));
        }
    }
    assert forall|id: u128| #[trigger]
        db.activities.contains_key(id) && entry_at(plan, id) is None && !activity_names(
            db.activities[id],
            subject,
        ) implies after.activities[id] == db.activities[id] by {
        if activity_at(plan, id) is Some {
            let i = choose|i: int|
                0 <= i < plan.activities.len() && (#[trigger] plan.activities[i]).activity_id == id;
            assert(plan.activities[i].activity_id == findings.activities@[i]@.activity_id);
        }
    }
}

/// Whether a case differs from an earlier one, in its subjects, by a new name alone:
/// it stands wherever the old one stood.
pub open spec fn only_renamed(
    before: CaseView,
    after: CaseView,
    subject: Seq<char>,
    anonymized: Seq<char>,
) -> bool {
    &&& after.requester_subject == retention::renamed(before.requester_subject, subject, anonymized)
    &&& after.creator_subject == retention::renamed(before.creator_subject, subject, anonymized)
    &&& after.assignee_subject == match before.assignee_subject {
        Some(assignee) => Some(retention::renamed(assignee, subject, anonymized)),
        None => None,
    }
}

/// Whether a payload differs from an earlier one by a new name alone: it stands where
/// the old one stood as the assignee.
pub open spec fn only_reassigned(
    before: Seq<EntryView>,
    after: Seq<EntryView>,
    subject: Seq<char>,
    anonymized: Seq<char>,
) -> bool {
    &&& after.len() == before.len()
    &&& forall|i: int|
        0 <= i < before.len() ==> (#[trigger] after[i]) == if before[i].key == "assignee_subject"@
            && before[i].value == Some(subject) {
            EntryView { key: before[i].key, value: Some(anonymized) }
        } else {
            before[i]
        }
}

/// Anonymizing keeps what was written, and puts the one drawn name wherever the
/// subject stood: as requester, creator or assignee of a case, as author of a message,
/// as actor or assignee of an activity, and in stored responses. Activities that the
/// action itself enters are not meant.
pub proof fn law_anonymizing_keeps_content(
    db: Database,
    retention: RetentionView,
    findings: Findings,
    anonymized: Seq<char>,
    drawn: Seq<u128>,
    plan: RetentionPlanView,
)
    requires
        decided(db, retention, findings, anonymized, drawn, plan),
        !retention.delete_content,
    ensures
        ({
            let after = applied(db, retention, plan);
            let organization = retention.organization_id;
            let subject = retention.subject;
            &&& forall|id: u128| #[trigger]
                db.cases.contains_key(id) ==> after.cases[id].title == db.cases[id].title
                    && after.cases[id].description == db.cases[id].description
                    && after.cases[id].priority == db.cases[id].priority && after.cases[id].state
                    == db.cases[id].state
            &&& forall|id: u128| #[trigger]
                db.cases.contains_key(id) && db.cases[id].organization_id == organization
                    ==> only_renamed(db.cases[id], after.cases[id], subject, anonymized)
            &&& forall|id: u128| #[trigger]
                db.messages.contains_key(id) ==> after.messages[id].body == db.messages[id].body
            &&& forall|id: u128| #[trigger]
                db.messages.contains_key(id) && message_in(db, db.messages[id], organization)
                    ==> after.messages[id].author_subject == retention::renamed(
                    db.messages[id].author_subject,
                    subject,
                    anonymized,
                )
            &&& forall|id: u128| #[trigger]
                db.activities.contains_key(id) && entry_at(plan, id) is None
                    && db.activities[id].organization_id == organization
                    ==> after.activities[id].actor_subject == retention::renamed(
                    db.activities[id].actor_subject,
                    subject,
                    anonymized,
                ) && only_reassigned(
                    db.activities[id].payload,
                    after.activities[id].payload,
                    subject,
                    anonymized,
                )
            &&& forall|key: (Seq<char>, Seq<char>)| #[trigger]
                db.receipts.contains_key(key) && db.receipts[key].organization_id == organization
                    ==> match (db.receipts[key].response, after.receipts[key].response) {
                    (ResponseView::Case(before), ResponseView::Case(case)) => case == CaseView {
                        requester_subject: case.requester_subject,
                        creator_subject: case.creator_subject,
                        assignee_subject: case.assignee_subject,
                        ..before
                    } && only_renamed(before, case, subject, anonymized),
                    (ResponseView::Message(before), ResponseView::Message(message)) => message
                        == MessageView {
                        author_subject: retention::renamed(
                            before.author_subject,
                            subject,
                            anonymized,
                        ),
                        ..before
                    },
                    _ => false,
                }
        }),
{
    let after = applied(db, retention, plan);
    let organization = retention.organization_id;
    let subject = retention.subject;
    assert forall|id: u128| #[trigger] db.cases.contains_key(id) implies after.cases[id].title
        == db.cases[id].title && after.cases[id].description == db.cases[id].description
        && after.cases[id].priority == db.cases[id].priority && after.cases[id].state
        == db.cases[id].state && (db.cases[id].organization_id == organization ==> only_renamed(
        db.cases[id],
        after.cases[id],
        subject,
        anonymized,
    )) by {
        lemma_case_after(db, retention, findings, anonymized, drawn, plan, id);
    }
    assert forall|id: u128| #[trigger] db.messages.contains_key(id) implies after.messages[id].body
        == db.messages[id].body && (message_in(db, db.messages[id], organization)
        ==> after.messages[id].author_subject == retention::renamed(
        db.messages[id].author_subject,
        subject,
        anonymized,
    )) by {
        lemma_message_after(db, retention, findings, anonymized, drawn, plan, id);
    }
    assert forall|id: u128| #[trigger]
        db.activities.contains_key(id) && entry_at(plan, id) is None
            && db.activities[id].organization_id
            == organization implies after.activities[id].actor_subject == retention::renamed(
        db.activities[id].actor_subject,
        subject,
        anonymized,
    ) && only_reassigned(
        db.activities[id].payload,
        after.activities[id].payload,
        subject,
        anonymized,
    ) by {
        lemma_activity_after(db, retention, findings, anonymized, drawn, plan, id);
    }
    assert forall|key: (Seq<char>, Seq<char>)| #[trigger]
        db.receipts.contains_key(key) && db.receipts[key].organization_id
            == organization implies after.receipts[key].response == retention::sanitized_response(
        db.receipts[key].response,
        subject,
        anonymized,
        false,
    ) by {
        lemma_receipt_after(db, retention, findings, anonymized, drawn, plan, key);
    }
}

/// Deleting redacts every case that the subject requested or created and every message
/// that it wrote, and clears its assignments.
pub proof fn law_deleting_redacts_content(
    db: Database,
    retention: RetentionView,
    findings: Findings,
    anonymized: Seq<char>,
    drawn: Seq<u128>,
    plan: RetentionPlanView,
)
    requires
        decided(db, retention, findings, anonymized, drawn, plan),
        retention.delete_content,
    ensures
        ({
            let after = applied(db, retention, plan);
            &&& forall|id: u128| #[trigger]
                db.cases.contains_key(id) && db.cases[id].organization_id
                    == retention.organization_id && (db.cases[id].requester_subject
                    == retention.subject || db.cases[id].creator_subject == retention.subject)
                    ==> after.cases[id].title == retention::DELETED_TITLE@
                    && after.cases[id].description == retention::DELETED_CONTENT@
            &&& forall|id: u128| #[trigger]
                db.cases.contains_key(id) && db.cases[id].organization_id
                    == retention.organization_id && db.cases[id].assignee_subject == Some(
                    retention.subject,
                ) ==> after.cases[id].assignee_subject is None
            &&& forall|id: u128| #[trigger]
                db.messages.contains_key(id) && message_in(
                    db,
                    db.messages[id],
                    retention.organization_id,
                ) && db.messages[id].author_subject == retention.subject ==> after.messages[id].body
                    == retention::DELETED_CONTENT@
        }),
{
    let after = applied(db, retention, plan);
    assert forall|id: u128| #[trigger]
        db.cases.contains_key(id) && db.cases[id].organization_id == retention.organization_id && (
        db.cases[id].requester_subject == retention.subject || db.cases[id].creator_subject
            == retention.subject) implies after.cases[id].title == retention::DELETED_TITLE@
        && after.cases[id].description == retention::DELETED_CONTENT@ by {
        lemma_case_after(db, retention, findings, anonymized, drawn, plan, id);
    }
    assert forall|id: u128| #[trigger]
        db.cases.contains_key(id) && db.cases[id].organization_id == retention.organization_id
            && db.cases[id].assignee_subject == Some(
            retention.subject,
        ) implies after.cases[id].assignee_subject is None by {
        lemma_case_after(db, retention, findings, anonymized, drawn, plan, id);
    }
    assert forall|id: u128| #[trigger]
        db.messages.contains_key(id) && message_in(db, db.messages[id], retention.organization_id)
            && db.messages[id].author_subject
            == retention.subject implies after.messages[id].body == retention::DELETED_CONTENT@ by {
        lemma_message_after(db, retention, findings, anonymized, drawn, plan, id);
    }
}

/// Deleting keeps what others wrote: the title and description of a case that the
/// subject neither requested nor created, and the body of a message that it did not
/// write. States, priorities and identifiers stay in any case.
pub proof fn law_deleting_keeps_the_content_of_others(
    db: Database,
    retention: RetentionView,
    findings: Findings,
    anonymized: Seq<char>,
    drawn: Seq<u128>,
    plan: RetentionPlanView,
)
    requires
        decided(db, retention, findings, anonymized, drawn, plan),
        retention.delete_content,
    ensures
        ({
            let after = applied(db, retention, plan);
            let subject = retention.subject;
            &&& forall|id: u128| #[trigger]
                db.cases.contains_key(id) && db.cases[id].requester_subject != subject
                    && db.cases[id].creator_subject != subject ==> after.cases[id].title
                    == db.cases[id].title && after.cases[id].description
                    == db.cases[id].description
            &&& forall|id: u128| #[trigger]
                db.messages.contains_key(id) && db.messages[id].author_subject != subject
                    ==> after.messages[id].body == db.messages[id].body
            &&& forall|id: u128| #[trigger]
                db.cases.contains_key(id) ==> after.cases[id].state == db.cases[id].state
                    && after.cases[id].priority == db.cases[id].priority
                    && after.cases[id].identifier == db.cases[id].identifier
        }),
{
    let after = applied(db, retention, plan);
    let subject = retention.subject;
    assert forall|id: u128| #[trigger]
        db.cases.contains_key(id) && db.cases[id].requester_subject != subject
            && db.cases[id].creator_subject != subject implies after.cases[id].title
        == db.cases[id].title && after.cases[id].description == db.cases[id].description by {
        lemma_case_after(db, retention, findings, anonymized, drawn, plan, id);
    }
    assert forall|id: u128| #[trigger]
        db.messages.contains_key(id) && db.messages[id].author_subject
            != subject implies after.messages[id].body == db.messages[id].body by {
        lemma_message_after(db, retention, findings, anonymized, drawn, plan, id);
    }
}

/// Whether an export of a subject tells of a case: one that the subject is related to
/// or wrote in.
pub open spec fn exports_case(
    db: Database,
    id: u128,
    organization_id: Seq<char>,
    subject: Seq<char>,
) -> bool {
    &&& db.cases.contains_key(id)
    &&& db.cases[id].organization_id == organization_id
    &&& model::related(db.cases[id], subject) || wrote_in(db, id, subject)
}

/// Whether an export of a subject tells of a message: one that the subject wrote.
pub open spec fn exports_message(
    db: Database,
    id: u128,
    organization_id: Seq<char>,
    subject: Seq<char>,
) -> bool {
    &&& db.messages.contains_key(id)
    &&& message_in(db, db.messages[id], organization_id)
    &&& db.messages[id].author_subject == subject
}

/// Whether an export of a subject tells of an activity: one of the subject's own.
pub open spec fn exports_activity(
    db: Database,
    id: u128,
    organization_id: Seq<char>,
    subject: Seq<char>,
) -> bool {
    &&& db.activities.contains_key(id)
    &&& db.activities[id].organization_id == organization_id
    &&& db.activities[id].actor_subject == subject
}

/// Once a subject is forgotten, its export tells of nothing.
pub proof fn law_nothing_is_exported_of_the_forgotten(
    db: Database,
    organization_id: Seq<char>,
    subject: Seq<char>,
    id: u128,
)
    requires
        forgotten(db, organization_id, subject),
    ensures
        !exports_case(db, id, organization_id, subject),
        !exports_message(db, id, organization_id, subject),
        !exports_activity(db, id, organization_id, subject),
{
    if exports_case(db, id, organization_id, subject) && wrote_in(db, id, subject) {
        let message = choose|message: u128|
            #![trigger db.messages.contains_key(message)]
            db.messages.contains_key(message) && db.messages[message].case_id == id
                && db.messages[message].author_subject == subject;
        assert(message_in(db, db.messages[message], organization_id));
    }
}

/// The activities of an export name no assignee but the subject.
pub proof fn law_export_names_no_other_assignee(row: ActivityRow, subject: Seq<char>)
    ensures
        privacy::exported_activity(row, subject) matches Ok(activity) ==> forall|i: int|
            0 <= i < activity.payload.len() && (#[trigger] activity.payload[i]).key
                == "assignee_subject"@ ==> activity.payload[i].value == Some(subject),
{
    if let Ok(activity) = privacy::exported_activity(row, subject) {
        let entries = model::entries_view((row.payload->0)@);
        let shown = |entry: EntryView| privacy::disclosed(entry, subject);
        assert forall|i: int|
            0 <= i < activity.payload.len() && (#[trigger] activity.payload[i]).key
                == "assignee_subject"@ implies activity.payload[i].value == Some(subject) by {
            entries.lemma_filter_pred(shown, i);
        }
    }
}

/// A retention action keeps the records consistent: identifiers, states and their
/// times stay, and revisions stay positive.
pub proof fn law_retention_keeps_consistency(
    db: Database,
    retention: RetentionView,
    findings: Findings,
    anonymized: Seq<char>,
    drawn: Seq<u128>,
    plan: RetentionPlanView,
)
    requires
        database::consistent(db),
        decided(db, retention, findings, anonymized, drawn, plan),
    ensures
        database::consistent(applied(db, retention, plan)),
{
    let after = applied(db, retention, plan);
    assert forall|organization_id: Seq<char>| #[trigger]
        database::next_number(after, organization_id) == database::next_number(
            db,
            organization_id,
        ) by {}
    assert forall|id: u128| #[trigger] after.cases.contains_key(id) implies {
        let case = after.cases[id];
        &&& case.case_id == id
        &&& case.revision > 0
        &&& lifecycle::times_agree(case.state, case.resolved_at, case.closed_at)
        &&& exists|n: int|
            0 < n < database::next_number(after, case.organization_id) && case.identifier
                == #[trigger] command::numbered(n)
    } by {
        assert(db.cases.contains_key(id));
        lemma_case_after(db, retention, findings, anonymized, drawn, plan, id);
        let case = db.cases[id];
        let n = choose|n: int|
            0 < n < database::next_number(db, case.organization_id) && case.identifier
                == #[trigger] command::numbered(n);
        assert(n < database::next_number(after, case.organization_id));
    }
    assert forall|a: u128, b: u128| #[trigger]
        after.cases.contains_key(a) && #[trigger] after.cases.contains_key(b) && a != b
            && after.cases[a].organization_id == after.cases[b].organization_id implies after.cases[a].identifier
        != after.cases[b].identifier by {
        assert(db.cases.contains_key(a) && db.cases.contains_key(b));
    }
}

/// Where a retention action stands after a number of steps that were done.
pub open spec fn stage_after_steps(
    retention: RetentionView,
    stage: RetentionStageView,
    steps: nat,
    anonymized: Seq<char>,
    drawn: Seq<u128>,
) -> RetentionStageView
    decreases steps,
{
    if steps == 0 {
        stage
    } else {
        retention_run::next_retention_stage(
            retention,
            stage_after_steps(retention, stage, (steps - 1) as nat, anonymized, drawn),
            RetentionEvent::Done,
            anonymized,
            drawn,
        )
    }
}

/// A plan is written step by step: first the receipts, then what is redacted where
/// content is deleted, and last the receipt of the action. Only then it is committed.
pub proof fn law_every_step_is_taken(
    retention: RetentionView,
    plan: RetentionPlanView,
    anonymized: Seq<char>,
    drawn: Seq<u128>,
)
    ensures
        ({
            let start = RetentionStageView::Apply { plan, step: RetentionStep::SanitizeReceipts };
            let taken = retention_steps(retention.delete_content);
            &&& forall|i: nat|
                i < taken.len() ==> #[trigger] stage_after_steps(
                    retention,
                    start,
                    i,
                    anonymized,
                    drawn,
                ) == (RetentionStageView::Apply { plan, step: taken[i as int] })
            &&& stage_after_steps(retention, start, taken.len(), anonymized, drawn) == (
            RetentionStageView::Commit { receipt: plan.receipt.receipt, replay: false })
        }),
{
    let start = RetentionStageView::Apply { plan, step: RetentionStep::SanitizeReceipts };
    let taken = retention_steps(retention.delete_content);
    assert forall|i: nat| i < taken.len() implies #[trigger] stage_after_steps(
        retention,
        start,
        i,
        anonymized,
        drawn,
    ) == (RetentionStageView::Apply { plan, step: taken[i as int] }) by {
        lemma_step_is_taken(retention, plan, i, anonymized, drawn);
    }
    lemma_step_is_taken(retention, plan, (taken.len() - 1) as nat, anonymized, drawn);
}

/// The steps of writing a plan, in their order.
pub open spec fn retention_steps(delete_content: bool) -> Seq<RetentionStep> {
    if delete_content {
        seq![
            RetentionStep::SanitizeReceipts,
            RetentionStep::RedactMessages,
            RetentionStep::RedactCases,
            RetentionStep::AnonymizeCases,
            RetentionStep::AnonymizeAuthors,
            RetentionStep::SanitizePayloads,
            RetentionStep::AnonymizeActors,
            RetentionStep::EnterHistory,
            RetentionStep::StoreReceipt,
        ]
    } else {
        seq![
            RetentionStep::SanitizeReceipts,
            RetentionStep::AnonymizeCases,
            RetentionStep::AnonymizeAuthors,
            RetentionStep::SanitizePayloads,
            RetentionStep::AnonymizeActors,
            RetentionStep::EnterHistory,
            RetentionStep::StoreReceipt,
        ]
    }
}

proof fn lemma_step_is_taken(
    retention: RetentionView,
    plan: RetentionPlanView,
    index: nat,
    anonymized: Seq<char>,
    drawn: Seq<u128>,
)
    requires
        index < retention_steps(retention.delete_content).len(),
    ensures
        stage_after_steps(
            retention,
            RetentionStageView::Apply { plan, step: RetentionStep::SanitizeReceipts },
            index,
            anonymized,
            drawn,
        ) == (RetentionStageView::Apply {
            plan,
            step: retention_steps(retention.delete_content)[index as int],
        }),
    decreases index,
{
    if index > 0 {
        lemma_step_is_taken(retention, plan, (index - 1) as nat, anonymized, drawn);
    }
}

/// An action whose receipt is stored is answered with that receipt, and nothing is
/// read or written again; under another intent it is refused.
pub proof fn law_retention_happens_once(
    retention: RetentionView,
    row: RetentionRow,
    anonymized: Seq<char>,
    drawn: Seq<u128>,
)
    requires
        row.request_hash is Some,
        row.receipt is Some,
    ensures
        ({
            let stage = retention_run::next_retention_stage(
                retention,
                RetentionStageView::ReadReceipt,
                RetentionEvent::Receipt(Some(row)),
                anonymized,
                drawn,
            );
            if (row.request_hash->0)@ == retention.request_hash {
                stage == (RetentionStageView::Commit { receipt: (row.receipt->0)@, replay: true })
            } else {
                stage == RetentionStageView::Finished(
                    Ok(RetentionAnswerView::Refused(DomainFailure::RetentionConflict)),
                )
            }
        }),
{
}

} // verus!
