//! The stored records as a whole, what a command does to them, and what holds of
//! every sequence of commands.

use vstd::prelude::*;
use vstd::string::*;
use vstd::utf8::*;

use crate::command;
use crate::command::{ChangeView, CommandView, Drawn, WriteView};
use crate::decimal;
use crate::errors::StorageErrorView;
use crate::lifecycle;
use crate::model;
use crate::model::{
    ActivityView, CaseView, DomainFailure, EntryView, MessageView, ReceiptView, ResponseView,
    RetentionReceiptView,
};
use crate::text;
use crate::transaction::AnswerView;
use crate::wire;

verus! {

/// Everything that Support Case stores.
#[verifier::ext_equal]
pub struct Database {
    pub cases: Map<u128, CaseView>,
    pub messages: Map<u128, MessageView>,
    pub activities: Map<u128, ActivityView>,
    pub receipts: Map<(Seq<char>, Seq<char>), ReceiptView>,
    pub sequences: Map<Seq<char>, int>,
    pub retentions: Map<Seq<char>, RetentionReceiptView>,
}

/// The number that the next case of an organization gets.
pub open spec fn next_number(db: Database, organization_id: Seq<char>) -> int {
    if db.sequences.contains_key(organization_id) {
        db.sequences[organization_id]
    } else {
        1
    }
}

/// The database after a number is allocated.
pub open spec fn allocated(db: Database, organization_id: Seq<char>) -> Database {
    Database {
        sequences: db.sequences.insert(organization_id, next_number(db, organization_id) + 1),
        ..db
    }
}

/// The key of a command's receipt.
pub open spec fn receipt_key(command: CommandView) -> (Seq<char>, Seq<char>) {
    (command.caller, command.idempotency_key)
}

/// The database after one row is written.
pub open spec fn written(db: Database, write: WriteView) -> Database {
    match write {
        WriteView::InsertCase(case) => Database { cases: db.cases.insert(case.case_id, case), ..db },
        WriteView::UpdateCase(case) => Database { cases: db.cases.insert(case.case_id, case), ..db },
        WriteView::InsertMessage(message) => Database {
            messages: db.messages.insert(message.message_id, message),
            ..db
        },
        WriteView::InsertActivity(activity) => Database {
            activities: db.activities.insert(activity.activity_id, activity),
            ..db
        },
        WriteView::SaveReceipt(receipt) => Database {
            receipts: db.receipts.insert(
                (receipt.caller_instance, receipt.idempotency_key),
                receipt,
            ),
            ..db
        },
    }
}

/// The database after rows are written, one after the other.
pub open spec fn all_written(db: Database, writes: Seq<WriteView>) -> Database
    decreases writes.len(),
{
    if writes.len() == 0 {
        db
    } else {
        written(all_written(db, writes.drop_last()), writes.last())
    }
}

/// The case that a change is about, where the organization has it.
pub open spec fn target(db: Database, command: CommandView) -> Option<CaseView> {
    let id = command::target_case(command.change);
    if db.cases.contains_key(id) && db.cases[id].organization_id == command.organization_id {
        Some(db.cases[id])
    } else {
        None
    }
}

/// What a command does, and what it answers. Under a key that has a receipt nothing
/// happens: the same command is answered as before, any other refused.
pub open spec fn execute(db: Database, command: CommandView, drawn: Drawn, now: i128) -> (
    Database,
    Result<AnswerView, StorageErrorView>,
) {
    if db.receipts.contains_key(receipt_key(command)) {
        let receipt = db.receipts[receipt_key(command)];
        if receipt.operation != command::operation_name(command.change) || receipt.request_hash
            != command.request_hash {
            (db, Ok(AnswerView::Refused(DomainFailure::IdempotencyConflict)))
        } else if command::answers(command.change, receipt.response) {
            (db, Ok(AnswerView::Done(receipt.response)))
        } else {
            (db, Err(StorageErrorView::Serialization))
        }
    } else if command.change is Create {
        let number = next_number(db, command.organization_id);
        if number <= 0 {
            (db, Err(StorageErrorView::InvalidStoredData("case sequence is not positive"@)))
        } else {
            let plan = command::creation_plan(command, number, drawn, now);
            (
                all_written(allocated(db, command.organization_id), plan.writes),
                Ok(AnswerView::Done(plan.response)),
            )
        }
    } else {
        match target(db, command) {
            None => (db, Ok(AnswerView::Refused(DomainFailure::CaseNotFound))),
            Some(current) => if current.revision <= 0 {
                (db, Err(StorageErrorView::InvalidStoredData("case revision is not positive"@)))
            } else {
                match command::refusal(command, current) {
                    Some(failure) => (db, Ok(AnswerView::Refused(failure))),
                    None => if current.revision == i64::MAX {
                        (db, Err(StorageErrorView::Database(command::update_label(command.change))))
                    } else {
                        let plan = command::change_plan(command, current, drawn, now);
                        (all_written(db, plan.writes), Ok(AnswerView::Done(plan.response)))
                    },
                }
            },
        }
    }
}

/// Whether a command was done for the first time, and not refused or replayed.
pub open spec fn takes_effect(db: Database, command: CommandView, drawn: Drawn, now: i128) -> bool {
    &&& !db.receipts.contains_key(receipt_key(command))
    &&& execute(db, command, drawn, now).1 matches Ok(AnswerView::Done(_))
}

/// What the database holds after the writes of a creation.
pub proof fn lemma_creation_effect(db: Database, command: CommandView, drawn: Drawn, now: i128)
    requires
        command.change is Create,
        takes_effect(db, command, drawn, now),
    ensures
        ({
            let number = next_number(db, command.organization_id);
            let case = command::created_case(command, number, drawn.record_id, now);
            let after = execute(db, command, drawn, now).0;
            &&& number > 0
            &&& after.cases == db.cases.insert(case.case_id, case)
            &&& after.messages == db.messages
            &&& after.activities == db.activities.insert(
                drawn.activity_id,
                command::command_activity(command, case, "open"@, drawn, now),
            )
            &&& after.receipts == db.receipts.insert(
                receipt_key(command),
                command::command_receipt(command, case.case_id, ResponseView::Case(case)),
            )
            &&& after.sequences == db.sequences.insert(command.organization_id, number + 1)
            &&& after.retentions == db.retentions
        }),
{
    let number = next_number(db, command.organization_id);
    let plan = command::creation_plan(command, number, drawn, now);
    let start = allocated(db, command.organization_id);
    let w = plan.writes;
    reveal_with_fuel(all_written, 4);
    assert(w.drop_last().drop_last().drop_last() =~= Seq::empty());
    assert(w.drop_last().drop_last().last() == w[0]);
    assert(w.drop_last().last() == w[1]);
    assert(w.last() == w[2]);
}

/// What the database holds after the writes of a change.
pub proof fn lemma_change_effect(db: Database, command: CommandView, drawn: Drawn, now: i128)
    requires
        !(command.change is Create),
        takes_effect(db, command, drawn, now),
    ensures
        ({
            let current = db.cases[command::target_case(command.change)];
            let case = command::changed_case(command.change, current, now);
            let after = execute(db, command, drawn, now).0;
            &&& target(db, command) == Some(current)
            &&& 0 < current.revision < i64::MAX
            &&& command::refusal(command, current) is None
            &&& after.cases == db.cases.insert(case.case_id, case)
            &&& after.activities == db.activities.insert(
                drawn.activity_id,
                command::command_activity(command, case, current.state, drawn, now),
            )
            &&& after.sequences == db.sequences
            &&& after.retentions == db.retentions
            &&& execute(db, command, drawn, now).1 == Ok::<_, StorageErrorView>(
                AnswerView::Done(command::change_plan(command, current, drawn, now).response),
            )
            &&& after.receipts == db.receipts.insert(
                receipt_key(command),
                command::command_receipt(
                    command,
                    case.case_id,
                    command::change_plan(command, current, drawn, now).response,
                ),
            )
            &&& after.messages == if command.change is AddMessage {
                db.messages.insert(
                    drawn.record_id,
                    command::added_message(
                        command,
                        drawn.record_id,
                        case.case_id,
                        case.revision,
                        now,
                    ),
                )
            } else {
                db.messages
            }
        }),
{
    let current = db.cases[command::target_case(command.change)];
    let plan = command::change_plan(command, current, drawn, now);
    let w = plan.writes;
    reveal_with_fuel(all_written, 5);
    if command.change is AddMessage {
        assert(w.drop_last().drop_last().drop_last().drop_last() =~= Seq::empty());
        assert(w.drop_last().drop_last().drop_last().last() == w[0]);
        assert(w.drop_last().drop_last().last() == w[1]);
        assert(w.drop_last().last() == w[2]);
        assert(w.last() == w[3]);
    } else {
        assert(w.drop_last().drop_last().drop_last() =~= Seq::empty());
        assert(w.drop_last().drop_last().last() == w[0]);
        assert(w.drop_last().last() == w[1]);
        assert(w.last() == w[2]);
    }
}

/// A command that was refused, or failed, or was answered from its receipt, changes
/// nothing.
pub proof fn law_only_effects_change_the_database(
    db: Database,
    command: CommandView,
    drawn: Drawn,
    now: i128,
)
    requires
        !takes_effect(db, command, drawn, now),
    ensures
        execute(db, command, drawn, now).0 == db,
{
}

/// A command that was done is answered in the same way ever after, and nothing more
/// happens, whatever identifiers and time the retry brings.
pub proof fn law_replay_answers_as_before(
    db: Database,
    command: CommandView,
    retry: CommandView,
    drawn: Drawn,
    now: i128,
    later_drawn: Drawn,
    later: i128,
)
    requires
        takes_effect(db, command, drawn, now),
        receipt_key(retry) == receipt_key(command),
        retry.request_hash == command.request_hash,
        command::operation_name(retry.change) == command::operation_name(command.change),
    ensures
        ({
            let (after, answer) = execute(db, command, drawn, now);
            execute(after, retry, later_drawn, later) == (after, answer)
        }),
{
    lemma_operations_differ(command.change, retry.change);
    if command.change is Create {
        lemma_creation_effect(db, command, drawn, now);
    } else {
        lemma_change_effect(db, command, drawn, now);
    }
}

/// The name of an operation tells what kind of change it makes.
proof fn lemma_operations_differ(left: ChangeView, right: ChangeView)
    ensures
        command::operation_name(left) == command::operation_name(right) ==> (left is AddMessage)
            == (right is AddMessage) && (left is Create) == (right is Create),
{
    reveal_strlit("create_case");
    reveal_strlit("update_case");
    reveal_strlit("assign_case");
    reveal_strlit("transition_case");
    reveal_strlit("add_message");
    assert("create_case"@[0] == 'c');
    assert("update_case"@[0] == 'u');
    assert("assign_case"@[0] == 'a' && "assign_case"@[1] == 's');
    assert("transition_case"@[0] == 't');
    assert("add_message"@[0] == 'a' && "add_message"@[1] == 'd');
}

/// Under a key that belongs to another operation, or to another request, a command
/// is refused and changes nothing.
pub proof fn law_key_reuse_fails_closed(
    db: Database,
    command: CommandView,
    drawn: Drawn,
    now: i128,
)
    requires
        db.receipts.contains_key(receipt_key(command)),
        db.receipts[receipt_key(command)].operation != command::operation_name(command.change)
            || db.receipts[receipt_key(command)].request_hash != command.request_hash,
    ensures
        execute(db, command, drawn, now) == (
            db,
            Ok::<AnswerView, StorageErrorView>(
                AnswerView::Refused(DomainFailure::IdempotencyConflict),
            ),
        ),
{
}

/// Two payloads of one operation that differ do not pass for each other: the second
/// is refused under the key of the first, as long as SHA-256 tells their texts apart.
pub proof fn law_another_payload_is_refused(
    db: Database,
    command: CommandView,
    other: CommandView,
    payload: Seq<EntryView>,
    other_payload: Seq<EntryView>,
    drawn: Drawn,
    now: i128,
    later_drawn: Drawn,
    later: i128,
)
    requires
        takes_effect(db, command, drawn, now),
        receipt_key(other) == receipt_key(command),
        command.request_hash == wire::fingerprint(payload),
        other.request_hash == wire::fingerprint(other_payload),
        payload.len() == other_payload.len(),
        payload != other_payload,
        encode_utf8(wire::json_object(payload)) != encode_utf8(wire::json_object(other_payload))
            ==> wire::fingerprint(payload) != wire::fingerprint(other_payload),
    ensures
        ({
            let after = execute(db, command, drawn, now).0;
            execute(after, other, later_drawn, later) == (
                after,
                Ok::<AnswerView, StorageErrorView>(
                    AnswerView::Refused(DomainFailure::IdempotencyConflict),
                ),
            )
        }),
{
    if encode_utf8(wire::json_object(payload)) == encode_utf8(wire::json_object(other_payload)) {
        text::lemma_encoding_is_injective(
            wire::json_object(payload),
            wire::json_object(other_payload),
        );
        wire::law_json_tells_requests_apart(payload, other_payload);
    }
    if command.change is Create {
        lemma_creation_effect(db, command, drawn, now);
    } else {
        lemma_change_effect(db, command, drawn, now);
    }
    let after = execute(db, command, drawn, now).0;
    assert(after.receipts[receipt_key(other)].request_hash == command.request_hash);
}

/// Who requested a case, created it or has it assigned may write in it without any
/// permission, and no one else may.
pub proof fn law_related_subjects_may_write(command: CommandView, current: CaseView)
    requires
        command.change is AddMessage,
        !command.change->can_comment_all,
    ensures
        command::refusal(command, current) == Some(DomainFailure::Forbidden) <==> !model::related(
            current,
            command.actor,
        ),
{
}

/// No command touches the receipt of another.
pub proof fn law_receipts_are_kept(
    db: Database,
    command: CommandView,
    drawn: Drawn,
    now: i128,
    key: (Seq<char>, Seq<char>),
)
    requires
        db.receipts.contains_key(key),
    ensures
        execute(db, command, drawn, now).0.receipts.contains_key(key),
        execute(db, command, drawn, now).0.receipts[key] == db.receipts[key],
{
    if takes_effect(db, command, drawn, now) {
        if command.change is Create {
            lemma_creation_effect(db, command, drawn, now);
        } else {
            lemma_change_effect(db, command, drawn, now);
        }
    }
}

/// A change takes effect only on the revision that it expects, and leaves the next.
pub proof fn law_changes_compare_and_swap(
    db: Database,
    command: CommandView,
    drawn: Drawn,
    now: i128,
)
    requires
        consistent(db),
        !(command.change is Create),
        takes_effect(db, command, drawn, now),
    ensures
        ({
            let id = command::target_case(command.change);
            let after = execute(db, command, drawn, now).0;
            &&& db.cases[id].revision == command::expected_revision(command.change)
            &&& after.cases.contains_key(id)
            &&& after.cases[id].revision == command::expected_revision(command.change) + 1
        }),
{
    lemma_change_effect(db, command, drawn, now);
}

/// Of two changes that expect the same revision of one case, under different keys,
/// at most one takes effect.
pub proof fn law_one_change_per_revision(
    db: Database,
    first: CommandView,
    second: CommandView,
    drawn: Drawn,
    now: i128,
    later_drawn: Drawn,
    later: i128,
)
    requires
        consistent(db),
        !(first.change is Create),
        !(second.change is Create),
        command::target_case(first.change) == command::target_case(second.change),
        first.organization_id == second.organization_id,
        command::expected_revision(first.change) == command::expected_revision(second.change),
        receipt_key(first) != receipt_key(second),
        !db.receipts.contains_key(receipt_key(second)),
        takes_effect(db, first, drawn, now),
    ensures
        ({
            let after = execute(db, first, drawn, now).0;
            let (end, answer) = execute(after, second, later_drawn, later);
            &&& end == after
            &&& answer == Ok::<AnswerView, StorageErrorView>(
                AnswerView::Refused(DomainFailure::RevisionConflict),
            ) || answer == Ok::<AnswerView, StorageErrorView>(
                AnswerView::Refused(DomainFailure::Forbidden),
            )
            &&& !(second.change is AddMessage) ==> answer == Ok::<AnswerView, StorageErrorView>(
                AnswerView::Refused(DomainFailure::RevisionConflict),
            )
        }),
{
    lemma_change_effect(db, first, drawn, now);
}

/// What holds of the stored records in every state.
pub open spec fn consistent(db: Database) -> bool {
    &&& forall|id: u128| #[trigger]
        db.cases.contains_key(id) ==> {
            let case = db.cases[id];
            &&& case.case_id == id
            &&& case.revision > 0
            &&& lifecycle::times_agree(case.state, case.resolved_at, case.closed_at)
            &&& exists|number: int|
                0 < number < next_number(db, case.organization_id) && case.identifier
                    == #[trigger] command::numbered(number)
        }
    &&& forall|a: u128, b: u128| #[trigger]
        db.cases.contains_key(a) && #[trigger] db.cases.contains_key(b) && a != b
            && db.cases[a].organization_id == db.cases[b].organization_id
            ==> db.cases[a].identifier != db.cases[b].identifier
    &&& forall|organization_id: Seq<char>|
        0 < #[trigger] next_number(db, organization_id)
}

/// Nothing stored is consistent.
pub proof fn law_empty_database_is_consistent()
    ensures
        consistent(
            Database {
                cases: Map::empty(),
                messages: Map::empty(),
                activities: Map::empty(),
                receipts: Map::empty(),
                sequences: Map::empty(),
                retentions: Map::empty(),
            },
        ),
{
}

proof fn lemma_numbers_differ(left: int, right: int)
    requires
        left > 0,
        right > 0,
        command::numbered(left) == command::numbered(right),
    ensures
        left == right,
{
    let prefix = "SUP-"@;
    assert(command::numbered(left).skip(prefix.len() as int) =~= decimal::decimal(left as nat));
    assert(command::numbered(right).skip(prefix.len() as int) =~= decimal::decimal(right as nat));
    decimal::law_decimal_is_injective(left as nat, right as nat);
}

/// Every command keeps the records consistent: revisions are positive, times agree
/// with states, and no two cases of an organization share an identifier. A new case
/// comes under an identifier that no case has.
pub proof fn law_commands_keep_consistency(
    db: Database,
    command: CommandView,
    drawn: Drawn,
    now: i128,
)
    requires
        consistent(db),
        command.change is Create ==> !db.cases.contains_key(drawn.record_id),
    ensures
        consistent(execute(db, command, drawn, now).0),
{
    let after = execute(db, command, drawn, now).0;
    if !takes_effect(db, command, drawn, now) {
    } else if command.change is Create {
        lemma_creation_effect(db, command, drawn, now);
        lemma_creation_is_consistent(db, command, drawn, now);
    } else {
        lemma_change_effect(db, command, drawn, now);
        lemma_change_is_consistent(db, command, drawn, now);
    }
}

proof fn lemma_creation_is_consistent(db: Database, command: CommandView, drawn: Drawn, now: i128)
    requires
        consistent(db),
        command.change is Create,
        !db.cases.contains_key(drawn.record_id),
        takes_effect(db, command, drawn, now),
    ensures
        consistent(execute(db, command, drawn, now).0),
{
    lemma_creation_effect(db, command, drawn, now);
    let after = execute(db, command, drawn, now).0;
    let number = next_number(db, command.organization_id);
    let fresh = drawn.record_id;
    assert forall|organization_id: Seq<char>| 0 < #[trigger] next_number(after, organization_id) by {
        assert(0 < next_number(db, organization_id));
    }
    assert forall|organization_id: Seq<char>| next_number(db, organization_id)
        <= #[trigger] next_number(after, organization_id) by {}
    lifecycle::lemma_state_names_differ();
    assert forall|id: u128| #[trigger] after.cases.contains_key(id) implies {
        let case = after.cases[id];
        &&& case.case_id == id
        &&& case.revision > 0
        &&& lifecycle::times_agree(case.state, case.resolved_at, case.closed_at)
        &&& exists|n: int|
            0 < n < next_number(after, case.organization_id) && case.identifier
                == #[trigger] command::numbered(n)
    } by {
        if id == fresh {
            assert(after.cases[id].identifier == command::numbered(number));
        } else {
            assert(db.cases.contains_key(id));
            let case = db.cases[id];
            let n = choose|n: int|
                0 < n < next_number(db, case.organization_id) && case.identifier
                    == #[trigger] command::numbered(n);
            assert(n < next_number(after, case.organization_id));
        }
    }
    assert forall|a: u128, b: u128| #[trigger]
        after.cases.contains_key(a) && #[trigger] after.cases.contains_key(b) && a != b
            && after.cases[a].organization_id == after.cases[b].organization_id implies after.cases[a].identifier
        != after.cases[b].identifier by {
        if a == fresh || b == fresh {
            let other = if a == fresh {
                b
            } else {
                a
            };
            assert(db.cases.contains_key(other));
            let case = db.cases[other];
            let n = choose|n: int|
                0 < n < next_number(db, case.organization_id) && case.identifier
                    == #[trigger] command::numbered(n);
            if command::numbered(n) == command::numbered(number) {
                lemma_numbers_differ(n, number);
            }
        } else {
            assert(db.cases.contains_key(a) && db.cases.contains_key(b));
        }
    }
}

proof fn lemma_change_is_consistent(db: Database, command: CommandView, drawn: Drawn, now: i128)
    requires
        consistent(db),
        !(command.change is Create),
        takes_effect(db, command, drawn, now),
    ensures
        consistent(execute(db, command, drawn, now).0),
{
    lemma_change_effect(db, command, drawn, now);
    let after = execute(db, command, drawn, now).0;
    let id = command::target_case(command.change);
    let current = db.cases[id];
    assert(db.cases.contains_key(id));
    if command.change is Transition {
        lifecycle::law_transitions_keep_times(
            current.state,
            command.change->target_state,
            now,
            current.resolved_at,
            current.closed_at,
        );
    }
    assert forall|organization_id: Seq<char>| #[trigger]
        next_number(after, organization_id) == next_number(db, organization_id) by {}
    assert forall|other: u128| #[trigger] after.cases.contains_key(other) implies {
        let case = after.cases[other];
        &&& case.case_id == other
        &&& case.revision > 0
        &&& lifecycle::times_agree(case.state, case.resolved_at, case.closed_at)
        &&& exists|n: int|
            0 < n < next_number(after, case.organization_id) && case.identifier
                == #[trigger] command::numbered(n)
    } by {
        assert(db.cases.contains_key(other));
        let case = db.cases[other];
        let n = choose|n: int|
            0 < n < next_number(db, case.organization_id) && case.identifier
                == #[trigger] command::numbered(n);
        assert(n < next_number(after, case.organization_id));
    }
    assert forall|a: u128, b: u128| #[trigger]
        after.cases.contains_key(a) && #[trigger] after.cases.contains_key(b) && a != b
            && after.cases[a].organization_id == after.cases[b].organization_id implies after.cases[a].identifier
        != after.cases[b].identifier by {
        assert(db.cases.contains_key(a) && db.cases.contains_key(b));
    }
}

/// A case keeps its organization, its identifier, its requester, its creator and the
/// time of its creation, whatever command comes, and its revision never falls.
pub proof fn law_identity_is_stable(
    db: Database,
    command: CommandView,
    drawn: Drawn,
    now: i128,
    id: u128,
)
    requires
        consistent(db),
        db.cases.contains_key(id),
        command.change is Create ==> !db.cases.contains_key(drawn.record_id),
    ensures
        ({
            let before = db.cases[id];
            let after = execute(db, command, drawn, now).0.cases;
            &&& after.contains_key(id)
            &&& after[id].case_id == before.case_id
            &&& after[id].organization_id == before.organization_id
            &&& after[id].identifier == before.identifier
            &&& after[id].requester_subject == before.requester_subject
            &&& after[id].creator_subject == before.creator_subject
            &&& after[id].created_at == before.created_at
            &&& before.revision <= after[id].revision <= before.revision + 1
        }),
{
    if takes_effect(db, command, drawn, now) {
        if command.change is Create {
            lemma_creation_effect(db, command, drawn, now);
        } else {
            lemma_change_effect(db, command, drawn, now);
        }
    }
}

/// A command touches no case but its own, and no message at all that is stored.
pub proof fn law_other_records_are_untouched(
    db: Database,
    command: CommandView,
    drawn: Drawn,
    now: i128,
    id: u128,
)
    requires
        consistent(db),
        db.cases.contains_key(id),
        if command.change is Create {
            id != drawn.record_id
        } else {
            id != command::target_case(command.change)
        },
    ensures
        execute(db, command, drawn, now).0.cases.contains_key(id),
        execute(db, command, drawn, now).0.cases[id] == db.cases[id],
        forall|message: u128| #[trigger]
            db.messages.contains_key(message) && message != drawn.record_id ==> execute(
                db,
                command,
                drawn,
                now,
            ).0.messages[message] == db.messages[message],
{
    if takes_effect(db, command, drawn, now) {
        if command.change is Create {
            lemma_creation_effect(db, command, drawn, now);
        } else {
            lemma_change_effect(db, command, drawn, now);
        }
    }
}

/// Every command that takes effect leaves one activity that names its actor and the
/// revision it made.
pub proof fn law_effects_enter_the_history(
    db: Database,
    command: CommandView,
    drawn: Drawn,
    now: i128,
)
    requires
        consistent(db),
        takes_effect(db, command, drawn, now),
    ensures
        ({
            let after = execute(db, command, drawn, now).0;
            let activity = after.activities[drawn.activity_id];
            &&& after.activities.contains_key(drawn.activity_id)
            &&& activity.actor_subject == command.actor
            &&& activity.kind == command::activity_kind(command.change)
            &&& after.cases.contains_key(activity.case_id)
            &&& activity.case_revision == after.cases[activity.case_id].revision
        }),
{
    if command.change is Create {
        lemma_creation_effect(db, command, drawn, now);
    } else {
        lemma_change_effect(db, command, drawn, now);
    }
}

} // verus!
