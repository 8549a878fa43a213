//! What a retention action leaves of each stored record, field by field.

use vstd::prelude::*;
use vstd::string::*;

use crate::database::Database;
use crate::erasure;
use crate::errors::StorageErrorView;
use crate::model::{
    ActivityView, CaseView, DomainFailure, EntryView, MessageView, ReceiptView, ResponseView,
};
use crate::outside;
use crate::retention;
use crate::retention::RetentionView;
use crate::retention_run;
use crate::retention_run::{
    ConcernedCase, Findings, RetentionAnswerView, RetentionEvent, RetentionPart, RetentionPlanView, RetentionRow,
    RetentionStageView, RetentionStep,
};

verus! {

/// Whether a name is what is left of an earlier one: the drawn name in the place of the
/// subject, and any other name as it was.
pub open spec fn left_of_name(
    before: Seq<char>,
    after: Seq<char>,
    retention: RetentionView,
    anonymized: Seq<char>,
) -> bool {
    &&& before == retention.subject ==> after == anonymized
    &&& before != retention.subject ==> after == before
}

/// Whether an assignment is what is left of an earlier one: none or the drawn name in
/// the place of the subject, and any other assignment as it was.
pub open spec fn left_of_assignee(
    before: Option<Seq<char>>,
    after: Option<Seq<char>>,
    retention: RetentionView,
    anonymized: Seq<char>,
) -> bool {
    &&& before == Some(retention.subject) && retention.delete_content ==> after is None
    &&& before == Some(retention.subject) && !retention.delete_content ==> after == Some(anonymized)
    &&& before != Some(retention.subject) ==> after == before
}

/// Whether a text is what is left of an earlier one: a note in the place of what the
/// subject wrote, where that is deleted, and any other text as it was.
pub open spec fn left_of_text(
    before: Seq<char>,
    after: Seq<char>,
    note: Seq<char>,
    retention: RetentionView,
    own: bool,
) -> bool {
    &&& retention.delete_content && own ==> after == note
    &&& !retention.delete_content || !own ==> after == before
}

/// Whether a case is what is left of an earlier one, whatever its revision and time.
pub open spec fn left_of_case(
    before: CaseView,
    after: CaseView,
    retention: RetentionView,
    anonymized: Seq<char>,
) -> bool {
    let own = before.requester_subject == retention.subject || before.creator_subject
        == retention.subject;
    &&& left_of_name(before.requester_subject, after.requester_subject, retention, anonymized)
    &&& left_of_name(before.creator_subject, after.creator_subject, retention, anonymized)
    &&& left_of_assignee(before.assignee_subject, after.assignee_subject, retention, anonymized)
    &&& left_of_text(before.title, after.title, "[deleted support case]"@, retention, own)
    &&& left_of_text(
        before.description,
        after.description,
        "[deleted by privacy request]"@,
        retention,
        own,
    )
    &&& after.case_id == before.case_id
    &&& after.organization_id == before.organization_id
    &&& after.identifier == before.identifier
    &&& after.priority == before.priority
    &&& after.state == before.state
    &&& after.created_at == before.created_at
    &&& after.resolved_at == before.resolved_at
    &&& after.closed_at == before.closed_at
}

/// Whether a message is what is left of an earlier one.
pub open spec fn left_of_message(
    before: MessageView,
    after: MessageView,
    retention: RetentionView,
    anonymized: Seq<char>,
) -> bool {
    &&& left_of_name(before.author_subject, after.author_subject, retention, anonymized)
    &&& left_of_text(
        before.body,
        after.body,
        "[deleted by privacy request]"@,
        retention,
        before.author_subject == retention.subject,
    )
    &&& after.message_id == before.message_id
    &&& after.case_id == before.case_id
    &&& after.visibility == before.visibility
    &&& after.case_revision == before.case_revision
    &&& after.created_at == before.created_at
}

/// Whether an entry of a payload is what is left of an earlier one: an assignee as in a
/// case, the reason that the subject gave deleted, and anything else as it was.
pub open spec fn left_of_entry(
    before: EntryView,
    after: EntryView,
    retention: RetentionView,
    anonymized: Seq<char>,
    own: bool,
) -> bool {
    &&& after.key == before.key
    &&& before.key == "assignee_subject"@ ==> left_of_assignee(
        before.value,
        after.value,
        retention,
        anonymized,
    )
    &&& before.key == "reason"@ && retention.delete_content && own ==> after.value == Some(
        "[deleted by privacy request]"@,
    )
    &&& before.key != "assignee_subject"@ && !(before.key == "reason"@ && retention.delete_content
        && own) ==> after.value == before.value
}

/// Whether an activity is what is left of an earlier one.
pub open spec fn left_of_activity(
    before: ActivityView,
    after: ActivityView,
    retention: RetentionView,
    anonymized: Seq<char>,
) -> bool {
    &&& left_of_name(before.actor_subject, after.actor_subject, retention, anonymized)
    &&& after.payload.len() == before.payload.len()
    &&& forall|i: int|
        0 <= i < before.payload.len() ==> left_of_entry(
            before.payload[i],
            #[trigger] after.payload[i],
            retention,
            anonymized,
            before.actor_subject == retention.subject,
        )
    &&& after.activity_id == before.activity_id
    &&& after.organization_id == before.organization_id
    &&& after.case_id == before.case_id
    &&& after.kind == before.kind
    &&& after.case_revision == before.case_revision
    &&& after.created_at == before.created_at
}

/// Whether a receipt is what is left of an earlier one: its response without the
/// subject, and nothing else changed.
pub open spec fn left_of_receipt(
    before: ReceiptView,
    after: ReceiptView,
    retention: RetentionView,
    anonymized: Seq<char>,
) -> bool {
    &&& after == ReceiptView { response: after.response, ..before }
    &&& match (before.response, after.response) {
        (ResponseView::Case(old), ResponseView::Case(new)) => left_of_case(
            old,
            new,
            retention,
            anonymized,
        ) && new.revision == old.revision && new.updated_at == old.updated_at,
        (ResponseView::Message(old), ResponseView::Message(new)) => left_of_message(
            old,
            new,
            retention,
            anonymized,
        ),
        _ => false,
    }
}

/// In either mode, an action leaves the names of everyone else where they stand: every
/// stored case keeps an assignee, a requester and a creator that are not the subject,
/// every message its author and every activity its actor, but for the entries that the
/// action itself makes.
pub proof fn law_retention_keeps_other_names(
    db: Database,
    retention: RetentionView,
    findings: Findings,
    anonymized: Seq<char>,
    drawn: Seq<u128>,
    plan: RetentionPlanView,
)
    requires
        erasure::decided(db, retention, findings, anonymized, drawn, plan),
    ensures
        ({
            let after = erasure::applied(db, retention, plan);
            &&& forall|id: u128| #[trigger]
                db.cases.contains_key(id) ==> {
                    &&& db.cases[id].assignee_subject != Some(retention.subject)
                        ==> after.cases[id].assignee_subject == db.cases[id].assignee_subject
                    &&& db.cases[id].requester_subject != retention.subject
                        ==> after.cases[id].requester_subject == db.cases[id].requester_subject
                    &&& db.cases[id].creator_subject != retention.subject
                        ==> after.cases[id].creator_subject == db.cases[id].creator_subject
                }
            &&& forall|id: u128| #[trigger]
                db.messages.contains_key(id) && db.messages[id].author_subject != retention.subject
                    ==> after.messages[id].author_subject == db.messages[id].author_subject
            &&& forall|id: u128| #[trigger]
                db.activities.contains_key(id) && erasure::entry_at(plan, id) is None
                    && db.activities[id].actor_subject != retention.subject
                    ==> after.activities[id].actor_subject == db.activities[id].actor_subject
        }),
{
    let after = erasure::applied(db, retention, plan);
    assert forall|id: u128| #[trigger] db.cases.contains_key(id) implies {
        &&& db.cases[id].assignee_subject != Some(retention.subject)
            ==> after.cases[id].assignee_subject == db.cases[id].assignee_subject
        &&& db.cases[id].requester_subject != retention.subject
            ==> after.cases[id].requester_subject == db.cases[id].requester_subject
        &&& db.cases[id].creator_subject != retention.subject ==> after.cases[id].creator_subject
            == db.cases[id].creator_subject
    } by {
        erasure::lemma_case_after(db, retention, findings, anonymized, drawn, plan, id);
    }
    assert forall|id: u128| #[trigger]
        db.messages.contains_key(id) && db.messages[id].author_subject
            != retention.subject implies after.messages[id].author_subject
        == db.messages[id].author_subject by {
        erasure::lemma_message_after(db, retention, findings, anonymized, drawn, plan, id);
    }
    assert forall|id: u128| #[trigger]
        db.activities.contains_key(id) && erasure::entry_at(plan, id) is None
            && db.activities[id].actor_subject
            != retention.subject implies after.activities[id].actor_subject
        == db.activities[id].actor_subject by {
        erasure::lemma_activity_after(db, retention, findings, anonymized, drawn, plan, id);
    }
}

/// Every case of the organization is left with the drawn name in the place of the
/// subject and, where content is deleted, without the subject's title, description and
/// assignment; nothing else of it changes but its revision, which is raised by one, and
/// then its time.
pub proof fn law_cases_are_left_without_the_subject(
    db: Database,
    retention: RetentionView,
    findings: Findings,
    anonymized: Seq<char>,
    drawn: Seq<u128>,
    plan: RetentionPlanView,
    id: u128,
)
    requires
        erasure::decided(db, retention, findings, anonymized, drawn, plan),
        db.cases.contains_key(id),
        db.cases[id].organization_id == retention.organization_id,
    ensures
        ({
            let before = db.cases[id];
            let after = erasure::applied(db, retention, plan).cases[id];
            &&& left_of_case(before, after, retention, anonymized)
            &&& after.revision == before.revision + 1 && after.updated_at == findings.now || (
            after.revision == before.revision && after.updated_at == before.updated_at)
            &&& before.requester_subject == retention.subject || before.creator_subject
                == retention.subject || before.assignee_subject == Some(retention.subject)
                ==> after.revision == before.revision + 1
        }),
{
    erasure::lemma_case_after(db, retention, findings, anonymized, drawn, plan, id);
}

/// Every message of the organization is left with the drawn name in the place of the
/// subject and, where content is deleted, without what the subject wrote.
pub proof fn law_messages_are_left_without_the_subject(
    db: Database,
    retention: RetentionView,
    findings: Findings,
    anonymized: Seq<char>,
    drawn: Seq<u128>,
    plan: RetentionPlanView,
    id: u128,
)
    requires
        erasure::decided(db, retention, findings, anonymized, drawn, plan),
        db.messages.contains_key(id),
        erasure::message_in(db, db.messages[id], retention.organization_id),
    ensures
        left_of_message(
            db.messages[id],
            erasure::applied(db, retention, plan).messages[id],
            retention,
            anonymized,
        ),
{
    erasure::lemma_message_after(db, retention, findings, anonymized, drawn, plan, id);
}

/// Every activity of the organization is left with the drawn name in the place of the
/// subject, as actor and as assignee, and where content is deleted without the
/// assignment and without the reason that the subject gave.
pub proof fn law_activities_are_left_without_the_subject(
    db: Database,
    retention: RetentionView,
    findings: Findings,
    anonymized: Seq<char>,
    drawn: Seq<u128>,
    plan: RetentionPlanView,
    id: u128,
)
    requires
        erasure::decided(db, retention, findings, anonymized, drawn, plan),
        db.activities.contains_key(id),
        db.activities[id].organization_id == retention.organization_id,
        erasure::entry_at(plan, id) is None,
        db.activities[id].actor_subject == retention.subject || erasure::payload_names(
            db.activities[id].payload,
            retention.subject,
        ),
    ensures
        left_of_activity(
            db.activities[id],
            erasure::applied(db, retention, plan).activities[id],
            retention,
            anonymized,
        ),
{
    erasure::lemma_activity_after(db, retention, findings, anonymized, drawn, plan, id);
    reveal_strlit("assignee_subject");
    reveal_strlit("reason");
    assert("assignee_subject"@.len() == 16);
    assert("reason"@.len() == 6);
}

/// Every receipt of the organization is left with its response as the case or message
/// in it is left.
pub proof fn law_receipts_are_left_without_the_subject(
    db: Database,
    retention: RetentionView,
    findings: Findings,
    anonymized: Seq<char>,
    drawn: Seq<u128>,
    plan: RetentionPlanView,
    key: (Seq<char>, Seq<char>),
)
    requires
        erasure::decided(db, retention, findings, anonymized, drawn, plan),
        db.receipts.contains_key(key),
        db.receipts[key].organization_id == retention.organization_id,
    ensures
        left_of_receipt(
            db.receipts[key],
            erasure::applied(db, retention, plan).receipts[key],
            retention,
            anonymized,
        ),
{
    erasure::lemma_receipt_after(db, retention, findings, anonymized, drawn, plan, key);
}

/// An action enters itself in the history of every case that it changes, under the new
/// revision and with its mode, and leaves a receipt that says what it did.
pub proof fn law_retention_is_recorded(
    db: Database,
    retention: RetentionView,
    findings: Findings,
    anonymized: Seq<char>,
    drawn: Seq<u128>,
    plan: RetentionPlanView,
)
    requires
        erasure::decided(db, retention, findings, anonymized, drawn, plan),
    ensures
        plan.history.len() == findings.cases@.len(),
        forall|i: int|
            0 <= i < plan.history.len() ==> {
                let entry = #[trigger] plan.history[i];
                let case = db.cases[findings.cases@[i].case_id->0];
                &&& entry.activity_id == drawn[i]
                &&& entry.organization_id == retention.organization_id
                &&& entry.case_id == case.case_id
                &&& entry.kind == "privacy.retention_applied"@
                &&& entry.actor_subject == "retention:"@ + retention.action_id
                &&& entry.case_revision == case.revision + 1
                &&& entry.payload.len() == 1
                &&& entry.payload[0].key == "mode"@
                &&& retention.delete_content ==> entry.payload[0].value == Some("delete"@)
                &&& !retention.delete_content ==> entry.payload[0].value == Some("anonymize"@)
                &&& entry.created_at == findings.now
            },
        ({
            let receipt = erasure::applied(db, retention, plan).retentions[retention.action_id];
            &&& receipt.action_id == retention.action_id
            &&& receipt.request_hash == retention.request_hash
            &&& receipt.anonymized_subject == anonymized
            &&& retention.delete_content ==> receipt.receipt == "support-case:"@
                + retention.action_id + ":deleted"@
            &&& !retention.delete_content ==> receipt.receipt == "support-case:"@
                + retention.action_id + ":anonymized"@
        }),
{
    assert forall|i: int| 0 <= i < plan.history.len() implies {
        let entry = #[trigger] plan.history[i];
        let case = db.cases[findings.cases@[i].case_id->0];
        &&& entry.case_id == case.case_id
        &&& entry.case_revision == case.revision + 1
    } by {
        let finding = findings.cases@[i];
        assert(db.cases.contains_key(finding.case_id->0));
        assert(finding.revision != Some(i64::MAX));
        assert(erasure::case_part(db.cases[finding.case_id->0]).revision == finding.revision->0);
    }
}

/// The name that stands for a subject from now on is made of what was drawn, and of
/// nothing that is known of the subject.
pub proof fn law_drawn_names_are_anonymous(drawn: u128)
    ensures
        retention::anonymous_name(drawn) == "anon_"@ + outside::simple_uuid(drawn),
{
}

/// Once everything is found, all of it goes into a plan, which is applied beginning with
/// the receipts. A case without a next revision, or one that cannot be read, ends the
/// action instead.
pub proof fn law_retention_is_decided_or_ended(
    retention: RetentionView,
    findings: Findings,
    anonymized: Seq<char>,
    drawn: Seq<u128>,
)
    ensures
        ({
            let stage = retention_run::next_retention_stage(
                retention,
                RetentionStageView::Gather,
                RetentionEvent::Gathered(findings),
                anonymized,
                drawn,
            );
            let exhausted = exists|i: int|
                0 <= i < findings.cases@.len() && #[trigger] findings.cases@[i].revision == Some(
                    i64::MAX,
                );
            let readable = forall|i: int|
                0 <= i < findings.cases@.len() ==> (#[trigger] findings.cases@[i]).case_id is Some
                    && findings.cases@[i].revision is Some;
            &&& exhausted ==> stage == RetentionStageView::Finished(
                Err(StorageErrorView::Database("anonymize support cases"@)),
            )
            &&& !exhausted && !readable ==> stage == RetentionStageView::Finished(
                Err(StorageErrorView::Database("decode retained case id"@)),
            ) || stage == RetentionStageView::Finished(
                Err(StorageErrorView::Database("decode retained case revision"@)),
            )
            &&& !exhausted && readable ==> stage is Apply && stage->step
                == RetentionStep::SanitizeReceipts && stage->plan.cases.len()
                == findings.cases@.len() && stage->plan.messages.len() == findings.messages@.len()
                && stage->plan.activities.len() == findings.activities@.len()
                && stage->plan.receipts.len() == findings.receipts@.len() && stage->plan.now
                == findings.now
        }),
{
    lemma_first_unreadable(findings.cases@);
}

proof fn lemma_first_unreadable(cases: Seq<ConcernedCase>)
    ensures
        retention_run::first_unreadable(cases) is None <==> forall|i: int|
            0 <= i < cases.len() ==> (#[trigger] cases[i]).case_id is Some
                && cases[i].revision is Some,
        retention_run::first_unreadable(cases) matches Some(error) ==> error
            == StorageErrorView::Database("decode retained case id"@) || error
            == StorageErrorView::Database("decode retained case revision"@),
    decreases cases.len(),
{
    if cases.len() > 0 {
        lemma_first_unreadable(cases.drop_last());
        assert(cases[cases.len() - 1] == cases.last());
        assert forall|i: int| 0 <= i < cases.len() - 1 implies #[trigger] cases[i]
            == cases.drop_last()[i] by {}
        if retention_run::first_unreadable(cases) is None {
            assert forall|i: int| 0 <= i < cases.len() implies (#[trigger] cases[i]).case_id is Some
                && cases[i].revision is Some by {
                if i < cases.len() - 1 {
                    assert(cases.drop_last()[i].case_id is Some);
                }
            }
        } else if retention_run::first_unreadable(cases.drop_last()) is Some {
            let i = choose|i: int|
                0 <= i < cases.drop_last().len() && ((#[trigger] cases.drop_last()[i]).case_id is None
                    || cases.drop_last()[i].revision is None);
            assert(cases[i] == cases.drop_last()[i]);
        }
    }
}

/// An action is taken under its own lock, looks for its own receipt, and only where
/// there is none gathers the records; what is committed is answered.
pub proof fn law_retention_goes_its_way(
    retention: RetentionView,
    receipt: Seq<char>,
    replay: bool,
    anonymized: Seq<char>,
    drawn: Seq<u128>,
)
    ensures
        ({
            let next = |stage: RetentionStageView, event: RetentionEvent|
                retention_run::next_retention_stage(retention, stage, event, anonymized, drawn);
            &&& next(RetentionStageView::Begin, RetentionEvent::Done) == RetentionStageView::Lock
            &&& next(RetentionStageView::Lock, RetentionEvent::Done)
                == RetentionStageView::ReadReceipt
            &&& next(RetentionStageView::ReadReceipt, RetentionEvent::Receipt(None))
                == RetentionStageView::Gather
            &&& next(RetentionStageView::Commit { receipt, replay }, RetentionEvent::Done)
                == RetentionStageView::Finished(Ok(RetentionAnswerView::Applied(receipt)))
        }),
{
}

/// A statement that the database refuses ends the action, and the error names that
/// statement; so does a receipt that cannot be read.
pub proof fn law_refused_retention_statements_are_named(
    retention: RetentionView,
    plan: RetentionPlanView,
    receipt: Seq<char>,
    row: RetentionRow,
    anonymized: Seq<char>,
    drawn: Seq<u128>,
)
    ensures
        ({
            let next = |stage: RetentionStageView, event: RetentionEvent|
                retention_run::next_retention_stage(retention, stage, event, anonymized, drawn);
            let ended = |label: Seq<char>|
                RetentionStageView::Finished(Err(StorageErrorView::Database(label)));
            let refused = |stage: RetentionStageView| next(stage, RetentionEvent::Failed);
            let step = |step: RetentionStep| refused(RetentionStageView::Apply { plan, step });
            let part = |part: RetentionPart|
                next(RetentionStageView::Gather, RetentionEvent::FailedAt(part));
            &&& refused(RetentionStageView::Begin) == ended("begin support retention"@)
            &&& refused(RetentionStageView::Lock) == ended("acquire idempotency lock"@)
            &&& refused(RetentionStageView::ReadReceipt) == ended("read retention receipt"@)
            &&& refused(RetentionStageView::Gather) == ended("lock retention cases"@)
            &&& refused(RetentionStageView::Commit { receipt, replay: true }) == ended(
                "commit retention replay"@,
            )
            &&& refused(RetentionStageView::Commit { receipt, replay: false }) == ended(
                "commit support retention"@,
            )
            &&& step(RetentionStep::SanitizeReceipts) == ended(
                "sanitize personal command receipts"@,
            )
            &&& step(RetentionStep::RedactMessages) == ended("redact retained messages"@)
            &&& step(RetentionStep::RedactCases) == ended("redact retained cases"@)
            &&& step(RetentionStep::AnonymizeCases) == ended("anonymize support cases"@)
            &&& step(RetentionStep::AnonymizeAuthors) == ended("anonymize message authors"@)
            &&& step(RetentionStep::SanitizePayloads) == ended("sanitize support activity payload"@)
            &&& step(RetentionStep::AnonymizeActors) == ended("anonymize support activity"@)
            &&& step(RetentionStep::EnterHistory) == ended("insert support case activity"@)
            &&& step(RetentionStep::StoreReceipt) == ended("store retention receipt"@)
            &&& part(RetentionPart::Cases) == ended("lock retention cases"@)
            &&& part(RetentionPart::Receipts) == ended("sanitize personal command receipts"@)
            &&& retention.delete_content ==> part(RetentionPart::Messages) == ended(
                "redact retained messages"@,
            )
            &&& !retention.delete_content ==> part(RetentionPart::Messages) == ended(
                "anonymize message authors"@,
            )
            &&& part(RetentionPart::Activities) == ended("sanitize support activity payload"@)
            &&& row.request_hash is None ==> next(
                RetentionStageView::ReadReceipt,
                RetentionEvent::Receipt(Some(row)),
            ) == ended("decode retention request hash"@)
            &&& row.request_hash is Some && (row.request_hash->0)@ == retention.request_hash
                && row.receipt is None ==> next(
                RetentionStageView::ReadReceipt,
                RetentionEvent::Receipt(Some(row)),
            ) == ended("decode retention receipt"@)
            &&& row.request_hash is Some && (row.request_hash->0)@ != retention.request_hash
                ==> next(RetentionStageView::ReadReceipt, RetentionEvent::Receipt(Some(row)))
                == RetentionStageView::Finished(
                Ok(RetentionAnswerView::Refused(DomainFailure::RetentionConflict)),
            )
        }),
{
}

/// What is found of a case is what its cells hold, one by one.
pub proof fn law_findings_are_read_cell_by_cell(case: ConcernedCase)
    ensures
        ({
            let content = retention_run::concerned_content(case);
            &&& case.case_id matches Some(id) ==> content.case_id == id
            &&& content.requester_subject == case.requester_subject@
            &&& content.creator_subject == case.creator_subject@
            &&& case.assignee_subject is None ==> content.assignee_subject is None
            &&& case.assignee_subject matches Some(assignee) ==> content.assignee_subject == Some(
                assignee@,
            )
            &&& content.title == case.title@
            &&& content.description == case.description@
            &&& case.revision matches Some(revision) ==> content.revision == revision
        }),
{
}

/// Whether a stage of a retention action waits for an event.
pub open spec fn awaits(stage: RetentionStageView, event: RetentionEvent) -> bool {
    match stage {
        RetentionStageView::Begin => event is Done || event is Failed,
        RetentionStageView::Lock => event is Done || event is Failed,
        RetentionStageView::ReadReceipt => event is Receipt || event is Failed,
        RetentionStageView::Gather => event is Gathered || event is FailedAt || event is Failed,
        RetentionStageView::Apply { .. } => event is Done || event is Failed,
        RetentionStageView::Commit { .. } => event is Done || event is Failed,
        RetentionStageView::Finished(_) => false,
    }
}

/// An event that a stage does not wait for changes nothing, and nothing changes an action
/// that is finished.
pub proof fn law_stray_events_leave_a_retention(
    retention: RetentionView,
    stage: RetentionStageView,
    event: RetentionEvent,
    anonymized: Seq<char>,
    drawn: Seq<u128>,
)
    requires
        !awaits(stage, event),
    ensures
        retention_run::next_retention_stage(retention, stage, event, anonymized, drawn) == stage,
{
}

} // verus!
