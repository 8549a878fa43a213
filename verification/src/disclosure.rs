//! What is told of the stored records, and to whom: rows as they are read, answers as
//! they are given, and exports.

use vstd::prelude::*;
use vstd::string::*;

use crate::decimal;
use crate::errors::StorageErrorView;
use crate::fault::CallErrorView;
use crate::identifiers;
use crate::model;
use crate::model::{CaseView, DomainFailure, EntryView, MessageView, ResponseView};
use crate::outside;
use crate::privacy;
use crate::privacy::{ActivityRow, ExportedActivityView};
use crate::reads;
use crate::reads::CaseKeyView;
use crate::responses;
use crate::responses::{CaseResponseView, MessageResponseView, WireErrorView};
use crate::rows;
use crate::rows::{CaseRow, MessageRow};
use crate::service;
use crate::transaction::AnswerView;

verus! {

/// Whether a cell holds a text.
pub open spec fn holds(cell: Option<String>, text: Seq<char>) -> bool {
    cell matches Some(value) && value@ == text
}

/// Whether a cell that may be empty holds a text, or nothing.
pub open spec fn holds_optional(cell: Option<Option<String>>, text: Option<Seq<char>>) -> bool {
    cell matches Some(value) && match (value, text) {
        (Some(value), Some(text)) => value@ == text,
        (None, None) => true,
        _ => false,
    }
}

/// Whether a case is what the cells of a row hold, cell by cell.
pub open spec fn case_of_cells(row: CaseRow, case: CaseView) -> bool {
    &&& row.case_id == Some(case.case_id)
    &&& holds(row.identifier, case.identifier)
    &&& holds(row.organization_id, case.organization_id)
    &&& holds(row.requester_subject, case.requester_subject)
    &&& holds(row.creator_subject, case.creator_subject)
    &&& holds(row.title, case.title)
    &&& holds(row.description, case.description)
    &&& holds(row.priority, case.priority)
    &&& holds(row.state, case.state)
    &&& holds_optional(row.assignee_subject, case.assignee_subject)
    &&& row.revision == Some(case.revision)
    &&& row.created_at == Some(case.created_at)
    &&& row.updated_at == Some(case.updated_at)
    &&& row.resolved_at == Some(case.resolved_at)
    &&& row.closed_at == Some(case.closed_at)
}

/// Whether every cell of a case's row could be read.
pub open spec fn case_cells_read(row: CaseRow) -> bool {
    &&& row.case_id is Some
    &&& row.identifier is Some
    &&& row.organization_id is Some
    &&& row.requester_subject is Some
    &&& row.creator_subject is Some
    &&& row.title is Some
    &&& row.description is Some
    &&& row.priority is Some
    &&& row.state is Some
    &&& row.assignee_subject is Some
    &&& row.revision is Some
    &&& row.created_at is Some
    &&& row.updated_at is Some
    &&& row.resolved_at is Some
    &&& row.closed_at is Some
}

/// Whether a message is what the cells of a row hold, apart from the revision.
pub open spec fn message_of_cells(row: MessageRow, message: MessageView) -> bool {
    &&& row.message_id == Some(message.message_id)
    &&& row.case_id == Some(message.case_id)
    &&& holds(row.visibility, message.visibility)
    &&& holds(row.author_subject, message.author_subject)
    &&& holds(row.body, message.body)
    &&& row.created_at == Some(message.created_at)
}

/// Whether every cell of a message's row could be read.
pub open spec fn message_cells_read(row: MessageRow) -> bool {
    &&& row.message_id is Some
    &&& row.case_id is Some
    &&& row.visibility is Some
    &&& row.author_subject is Some
    &&& row.body is Some
    &&& row.created_at is Some
}

/// A case is read from its row, cell by cell, just where every cell can be read and
/// the revision is positive.
pub proof fn law_cases_are_read_cell_by_cell(row: CaseRow)
    ensures
        rows::case_in(row) is Ok <==> case_cells_read(row) && row.revision->0 > 0,
        rows::case_in(row) matches Ok(case) ==> case_of_cells(row, case),
{
}

/// A message is read from its row, cell by cell, just where every cell can be read. A
/// row without a revision counts as revision zero.
pub proof fn law_messages_are_read_cell_by_cell(row: MessageRow)
    ensures
        rows::message_in(row) is Ok <==> message_cells_read(row),
        rows::message_in(row) matches Ok(message) ==> {
            &&& message_of_cells(row, message)
            &&& row.case_revision matches Some(revision) ==> message.case_revision == revision
            &&& row.case_revision is None ==> message.case_revision == 0
        },
{
}

/// A list reads every row, in order, or fails as a whole.
pub proof fn law_lists_read_every_case(rows: Seq<CaseRow>)
    ensures
        reads::cases_in(rows) is Ok <==> forall|i: int|
            0 <= i < rows.len() ==> case_cells_read(#[trigger] rows[i]) && rows[i].revision->0 > 0,
        reads::cases_in(rows) matches Ok(cases) ==> cases.len() == rows.len() && forall|i: int|
            0 <= i < rows.len() ==> case_of_cells(#[trigger] rows[i], cases[i]),
    decreases rows.len(),
{
    if rows.len() > 0 {
        let before = rows.drop_last();
        law_lists_read_every_case(before);
        law_cases_are_read_cell_by_cell(rows.last());
        assert(rows[rows.len() - 1] == rows.last());
        assert forall|i: int| 0 <= i < before.len() implies #[trigger] before[i] == rows[i] by {}
        if reads::cases_in(rows) is Ok {
            assert forall|i: int| 0 <= i < rows.len() implies case_cells_read(#[trigger] rows[i])
                && rows[i].revision->0 > 0 by {
                if i < before.len() {
                    assert(before[i] == rows[i]);
                }
            }
            let cases = reads::cases_in(rows)->Ok_0;
            assert forall|i: int| 0 <= i < rows.len() implies case_of_cells(
                #[trigger] rows[i],
                cases[i],
            ) by {
                if i < before.len() {
                    assert(before[i] == rows[i]);
                }
            }
        }
    }
}

/// A list reads every row, in order, or fails as a whole.
pub proof fn law_lists_read_every_message(rows: Seq<MessageRow>)
    ensures
        reads::messages_in(rows) is Ok <==> forall|i: int|
            0 <= i < rows.len() ==> message_cells_read(#[trigger] rows[i]),
        reads::messages_in(rows) matches Ok(messages) ==> messages.len() == rows.len() && forall|
            i: int,
        |
            0 <= i < rows.len() ==> message_of_cells(#[trigger] rows[i], messages[i]),
    decreases rows.len(),
{
    if rows.len() > 0 {
        let before = rows.drop_last();
        law_lists_read_every_message(before);
        law_messages_are_read_cell_by_cell(rows.last());
        assert(rows[rows.len() - 1] == rows.last());
        assert forall|i: int| 0 <= i < before.len() implies #[trigger] before[i] == rows[i] by {}
        if reads::messages_in(rows) is Ok {
            assert forall|i: int| 0 <= i < rows.len() implies message_cells_read(
                #[trigger] rows[i],
            ) by {
                if i < before.len() {
                    assert(before[i] == rows[i]);
                }
            }
            let messages = reads::messages_in(rows)->Ok_0;
            assert forall|i: int| 0 <= i < rows.len() implies message_of_cells(
                #[trigger] rows[i],
                messages[i],
            ) by {
                if i < before.len() {
                    assert(before[i] == rows[i]);
                }
            }
        }
    }
}

/// A reader gets a case just where there is one, and the reader may read every case or
/// is named by the row as requester, creator or assignee. What is read is what the row
/// holds; a case that is not for the reader is as good as none.
pub proof fn law_cases_are_for_their_readers(row: CaseRow, actor: Seq<char>, can_read_all: bool)
    requires
        case_cells_read(row),
        row.revision->0 > 0,
    ensures
        reads::case_seen(None, actor, can_read_all) matches Ok(None),
        ({
            let named = holds(row.requester_subject, actor) || holds(row.creator_subject, actor)
                || holds_optional(row.assignee_subject, Some(actor));
            if can_read_all || named {
                reads::case_seen(Some(row), actor, can_read_all) matches Ok(Some(case))
                    && case_of_cells(row, case)
            } else {
                reads::case_seen(Some(row), actor, can_read_all) matches Ok(None)
            }
        }),
        reads::row_visible(row, actor, can_read_all) <==> can_read_all || holds(
            row.requester_subject,
            actor,
        ) || holds(row.creator_subject, actor) || holds_optional(
            row.assignee_subject,
            Some(actor),
        ),
{
}

/// The canonical text of a UUID looks up that UUID, and a text that is no UUID the case
/// with that identifier.
pub proof fn law_references_look_up_what_they_name(id: u128, text: Seq<char>)
    ensures
        reads::key_of(outside::uuid_text(id)) == CaseKeyView::Id(id),
        outside::uuid_of(text) is None ==> reads::key_of(text) == CaseKeyView::Identifier(text),
        reads::key_of(text) matches CaseKeyView::Id(named) ==> outside::uuid_of(text) == Some(
            named,
        ),
{
    identifiers::law_uuid_round_trip(id);
}

/// Whether a text is that of an instant, where there is one.
pub open spec fn tells_time(text: Option<Seq<char>>, instant: Option<i128>) -> bool {
    match (text, instant) {
        (Some(text), Some(instant)) => text == outside::rfc3339_text(instant as int),
        (None, None) => true,
        _ => false,
    }
}

/// Whether an optional time can be written.
pub open spec fn can_be_told(instant: Option<i128>) -> bool {
    instant is None || outside::written_instant(instant->0 as int)
}

/// The back office sees every field of a case: its texts and subjects as they are, its
/// identifier and revision in texts from which they can be read back. A case is kept
/// back only where a time, its priority or its state cannot be told.
pub proof fn law_back_office_sees_the_case(case: CaseView)
    ensures
        responses::case_on_wire(case) is Ok <==> {
            &&& outside::written_instant(case.created_at as int)
            &&& outside::written_instant(case.updated_at as int)
            &&& can_be_told(case.resolved_at)
            &&& can_be_told(case.closed_at)
            &&& case.priority == "low"@ || case.priority == "normal"@ || case.priority == "high"@
                || case.priority == "urgent"@
            &&& case.state == "open"@ || case.state == "in_progress"@ || case.state
                == "waiting_customer"@ || case.state == "resolved"@ || case.state == "closed"@
        },
        responses::case_on_wire(case) matches Ok(seen) ==> {
            &&& outside::uuid_of(seen.case_id) == Some(case.case_id)
            &&& seen.identifier == case.identifier
            &&& seen.organization_id == case.organization_id
            &&& seen.requester_subject == case.requester_subject
            &&& seen.creator_subject == case.creator_subject
            &&& seen.assignee_subject == case.assignee_subject
            &&& seen.title == case.title
            &&& seen.description == case.description
            &&& model::priority_name(seen.priority) == case.priority
            &&& model::state_name(seen.state) == case.state
            &&& case.revision > 0 ==> decimal::positive_value(seen.revision) == Some(case.revision)
            &&& seen.created_at == outside::rfc3339_text(case.created_at as int)
            &&& seen.updated_at == outside::rfc3339_text(case.updated_at as int)
            &&& tells_time(seen.resolved_at, case.resolved_at)
            &&& tells_time(seen.closed_at, case.closed_at)
        },
{
    identifiers::law_uuid_round_trip(case.case_id);
    if case.revision > 0 {
        decimal::law_decimal_round_trip(case.revision);
    }
}

/// A requester sees of a case what the back office sees, without the times at which it
/// was resolved and closed, its creator and its assignee.
pub proof fn law_requesters_see_their_case(case: CaseView)
    ensures
        responses::requester_case_on_wire(case) is Ok <==> responses::case_on_wire(case) is Ok,
        responses::requester_case_on_wire(case) matches Ok(seen) ==> {
            &&& outside::uuid_of(seen.case_id) == Some(case.case_id)
            &&& seen.identifier == case.identifier
            &&& seen.organization_id == case.organization_id
            &&& seen.requester_subject == case.requester_subject
            &&& seen.title == case.title
            &&& seen.description == case.description
            &&& model::priority_name(seen.priority) == case.priority
            &&& model::state_name(seen.state) == case.state
            &&& case.revision > 0 ==> decimal::positive_value(seen.revision) == Some(case.revision)
            &&& seen.created_at == outside::rfc3339_text(case.created_at as int)
            &&& seen.updated_at == outside::rfc3339_text(case.updated_at as int)
        },
{
    law_back_office_sees_the_case(case);
}

/// The back office sees every field of a message. A message is kept back only where
/// its time or its visibility cannot be told. On a list the revision is left out.
pub proof fn law_back_office_sees_the_message(message: MessageView)
    ensures
        responses::message_on_wire(message) is Ok <==> outside::written_instant(
            message.created_at as int,
        ) && (message.visibility == "public"@ || message.visibility == "internal"@),
        responses::message_on_wire(message) matches Ok(seen) ==> {
            &&& outside::uuid_of(seen.message_id) == Some(message.message_id)
            &&& outside::uuid_of(seen.case_id) == Some(message.case_id)
            &&& seen.author_subject == message.author_subject
            &&& seen.body == message.body
            &&& model::visibility_name(seen.visibility) == message.visibility
            &&& seen.created_at == outside::rfc3339_text(message.created_at as int)
            &&& message.case_revision > 0 ==> decimal::positive_value(seen.case_revision) == Some(
                message.case_revision,
            )
        },
        responses::item_on_wire(message) is Ok <==> responses::message_on_wire(message) is Ok,
        responses::item_on_wire(message) matches Ok(seen) ==> {
            &&& outside::uuid_of(seen.message_id) == Some(message.message_id)
            &&& outside::uuid_of(seen.case_id) == Some(message.case_id)
            &&& seen.author_subject == message.author_subject
            &&& seen.body == message.body
            &&& model::visibility_name(seen.visibility) == message.visibility
            &&& seen.created_at == outside::rfc3339_text(message.created_at as int)
        },
{
    identifiers::law_uuid_round_trip(message.message_id);
    identifiers::law_uuid_round_trip(message.case_id);
    if message.case_revision > 0 {
        decimal::law_decimal_round_trip(message.case_revision);
    }
}

/// A requester sees who wrote a message, what and when. A message is kept back only
/// where its time cannot be told. On a list the revision is left out.
pub proof fn law_requesters_see_the_message(message: MessageView)
    ensures
        responses::requester_message_on_wire(message) is Ok <==> outside::written_instant(
            message.created_at as int,
        ),
        responses::requester_message_on_wire(message) matches Ok(seen) ==> {
            &&& outside::uuid_of(seen.message_id) == Some(message.message_id)
            &&& outside::uuid_of(seen.case_id) == Some(message.case_id)
            &&& seen.author_subject == message.author_subject
            &&& seen.body == message.body
            &&& seen.created_at == outside::rfc3339_text(message.created_at as int)
            &&& message.case_revision > 0 ==> decimal::positive_value(seen.case_revision) == Some(
                message.case_revision,
            )
        },
        responses::requester_item_on_wire(message) is Ok <==> outside::written_instant(
            message.created_at as int,
        ),
        responses::requester_item_on_wire(message) matches Ok(seen) ==> {
            &&& outside::uuid_of(seen.message_id) == Some(message.message_id)
            &&& outside::uuid_of(seen.case_id) == Some(message.case_id)
            &&& seen.author_subject == message.author_subject
            &&& seen.body == message.body
            &&& seen.created_at == outside::rfc3339_text(message.created_at as int)
        },
{
    identifiers::law_uuid_round_trip(message.message_id);
    identifiers::law_uuid_round_trip(message.case_id);
    if message.case_revision > 0 {
        decimal::law_decimal_round_trip(message.case_revision);
    }
}

/// A list shows every record, in order, or fails as a whole.
pub proof fn law_lists_show_every_record<R, W>(
    records: Seq<R>,
    wire: spec_fn(R) -> Result<W, WireErrorView>,
)
    ensures
        responses::all_on_wire(records, wire) is Ok <==> forall|i: int|
            0 <= i < records.len() ==> wire(#[trigger] records[i]) is Ok,
        responses::all_on_wire(records, wire) matches Ok(shown) ==> shown.len() == records.len()
            && forall|i: int|
            0 <= i < records.len() ==> wire(#[trigger] records[i]) == Ok::<W, WireErrorView>(
                shown[i],
            ),
    decreases records.len(),
{
    if records.len() > 0 {
        let before = records.drop_last();
        law_lists_show_every_record(before, wire);
        assert(records[records.len() - 1] == records.last());
        assert forall|i: int| 0 <= i < before.len() implies #[trigger] before[i] == records[i] by {}
        if responses::all_on_wire(records, wire) is Ok {
            let shown = responses::all_on_wire(records, wire)->Ok_0;
            assert forall|i: int| 0 <= i < records.len() implies wire(#[trigger] records[i]) == Ok::<
                W,
                WireErrorView,
            >(shown[i]) by {
                if i < before.len() {
                    assert(before[i] == records[i]);
                }
            }
        }
    }
}

/// What a command left behind is answered as it is seen: a case or message that was
/// done is shown, a refusal is told as the domain's error, and a failure of the storage
/// never passes for either.
pub proof fn law_answers_tell_what_was_done<E, F>(
    case: CaseView,
    message: MessageView,
    refused: DomainFailure,
    error: StorageErrorView,
    failure: spec_fn(DomainFailure) -> E,
)
    ensures
        responses::case_on_wire(case) matches Ok(seen) ==> service::case_call::<E, F>(
            Ok(AnswerView::Done(ResponseView::Case(case))),
            failure,
        ) == Ok::<CaseResponseView, CallErrorView<E, F>>(seen),
        responses::message_on_wire(message) matches Ok(seen) ==> service::message_call::<E, F>(
            Ok(AnswerView::Done(ResponseView::Message(message))),
            failure,
        ) == Ok::<MessageResponseView, CallErrorView<E, F>>(seen),
        service::case_call::<E, F>(Ok(AnswerView::Refused(refused)), failure) == Err::<
            CaseResponseView,
            _,
        >(CallErrorView::<E, F>::Domain(failure(refused))),
        service::message_call::<E, F>(Ok(AnswerView::Refused(refused)), failure) == Err::<
            MessageResponseView,
            _,
        >(CallErrorView::<E, F>::Domain(failure(refused))),
        service::case_call::<E, F>(Err(error), failure) matches Err(CallErrorView::Runtime(_)),
        service::message_call::<E, F>(Err(error), failure) matches Err(CallErrorView::Runtime(_)),
{
}

/// An exported case is the stored one in every field. It is exported just where the
/// row can be read and its times can be told.
pub proof fn law_cases_are_exported_whole(row: CaseRow)
    ensures
        privacy::exported_case(row) is Ok <==> {
            &&& case_cells_read(row)
            &&& row.revision->0 > 0
            &&& outside::written_instant(row.created_at->0 as int)
            &&& outside::written_instant(row.updated_at->0 as int)
            &&& can_be_told(row.resolved_at->0)
            &&& can_be_told(row.closed_at->0)
        },
        privacy::exported_case(row) matches Ok(case) ==> case_of_cells(row, case),
{
}

/// An exported message is the stored one in every field but its case revision. It is
/// exported just where the row can be read and its time can be told.
pub proof fn law_messages_are_exported_whole(row: MessageRow)
    ensures
        privacy::exported_message(row) is Ok <==> message_cells_read(row)
            && outside::written_instant(row.created_at->0 as int),
        privacy::exported_message(row) matches Ok(message) ==> message_of_cells(row, message)
            && message.case_revision == 0,
{
}

/// Whether an exported activity is what the cells of a row hold, apart from the
/// payload.
pub open spec fn activity_of_cells(row: ActivityRow, activity: ExportedActivityView) -> bool {
    &&& row.activity_id == Some(activity.activity_id)
    &&& row.case_id == Some(activity.case_id)
    &&& holds(row.kind, activity.kind)
    &&& holds(row.actor_subject, activity.actor_subject)
    &&& row.case_revision matches Some(revision) && activity.case_revision == decimal::integer_text(
        revision as int,
    )
    &&& row.created_at matches Some(instant) && activity.created_at == outside::rfc3339_text(
        instant as int,
    )
}

/// Whether a payload tells just what another holds, but for assignees other than a
/// subject.
pub open spec fn tells_but_others(
    held: Seq<EntryView>,
    told: Seq<EntryView>,
    subject: Seq<char>,
) -> bool {
    &&& forall|i: int| 0 <= i < told.len() ==> held.contains(#[trigger] told[i])
    &&& forall|i: int|
        0 <= i < held.len() ==> ((#[trigger] held[i]).key != "assignee_subject"@ || held[i].value
            == Some(subject) <==> told.contains(held[i]))
    &&& told.len() <= held.len()
    &&& (forall|i: int|
        0 <= i < held.len() ==> (#[trigger] held[i]).key != "assignee_subject"@ || held[i].value
            == Some(subject)) ==> told == held
}

proof fn lemma_disclosed(held: Seq<EntryView>, subject: Seq<char>)
    ensures
        tells_but_others(
            held,
            held.filter(|entry: EntryView| privacy::disclosed(entry, subject)),
            subject,
        ),
    decreases held.len(),
{
    let shown = |entry: EntryView| privacy::disclosed(entry, subject);
    let told = held.filter(shown);
    reveal_with_fuel(Seq::filter, 1);
    if held.len() > 0 {
        let before = held.drop_last();
        let kept = before.filter(shown);
        let last = held.last();
        lemma_disclosed(before, subject);
        assert(told == if shown(last) {
            kept.push(last)
        } else {
            kept
        });
        assert(held[held.len() - 1] == last);
        assert forall|i: int| 0 <= i < told.len() implies held.contains(#[trigger] told[i]) by {
            if i < kept.len() {
                assert(before.contains(kept[i]));
                let at = choose|at: int| 0 <= at < before.len() && before[at] == kept[i];
                assert(held[at] == told[i]);
            } else {
                assert(held[held.len() - 1] == told[i]);
            }
        }
        assert forall|i: int| 0 <= i < held.len() implies ((#[trigger] held[i]).key
            != "assignee_subject"@ || held[i].value == Some(subject) <==> told.contains(held[i])) by {
            if shown(held[i]) {
                if i < before.len() {
                    assert(before[i] == held[i]);
                    assert(kept.contains(before[i]));
                    let at = choose|at: int| 0 <= at < kept.len() && kept[at] == before[i];
                    assert(told[at] == held[i]);
                } else {
                    assert(told[told.len() - 1] == held[i]);
                }
            } else if told.contains(held[i]) {
                let at = choose|at: int| 0 <= at < told.len() && told[at] == held[i];
                held.lemma_filter_pred(shown, at);
            }
        }
        if forall|i: int|
            0 <= i < held.len() ==> (#[trigger] held[i]).key != "assignee_subject"@ || held[i].value
                == Some(subject) {
            assert forall|i: int| 0 <= i < before.len() implies (#[trigger] before[i]).key
                != "assignee_subject"@ || before[i].value == Some(subject) by {
                assert(before[i] == held[i]);
            }
            assert(kept == before);
            assert(told =~= held);
        }
    }
}

/// An exported activity is the stored one in every field, and its payload tells all
/// that is stored but for assignees other than the subject. It is exported just where
/// the row can be read and its time can be told.
pub proof fn law_activities_are_exported_whole(row: ActivityRow, subject: Seq<char>)
    ensures
        privacy::exported_activity(row, subject) is Ok <==> {
            &&& row.activity_id is Some
            &&& row.case_id is Some
            &&& row.kind is Some
            &&& row.actor_subject is Some
            &&& row.case_revision is Some
            &&& row.payload is Some
            &&& row.created_at matches Some(instant) && outside::written_instant(instant as int)
        },
        privacy::exported_activity(row, subject) matches Ok(activity) ==> activity_of_cells(
            row,
            activity,
        ) && tells_but_others(
            model::entries_view((row.payload->0)@),
            activity.payload,
            subject,
        ),
{
    if row.payload is Some {
        lemma_disclosed(model::entries_view((row.payload->0)@), subject);
    }
}

proof fn lemma_exported_cases(rows: Seq<CaseRow>)
    ensures
        privacy::exported_cases_in(rows) matches Ok(cases) ==> cases.len() == rows.len() && forall|
            i: int,
        |
            0 <= i < rows.len() ==> case_of_cells(#[trigger] rows[i], cases[i]),
        (forall|i: int|
            0 <= i < rows.len() ==> privacy::exported_case(#[trigger] rows[i]) is Ok)
            ==> privacy::exported_cases_in(rows) is Ok,
    decreases rows.len(),
{
    if rows.len() > 0 {
        let before = rows.drop_last();
        lemma_exported_cases(before);
        law_cases_are_exported_whole(rows.last());
        assert(rows[rows.len() - 1] == rows.last());
        assert forall|i: int| 0 <= i < before.len() implies #[trigger] before[i] == rows[i] by {}
        if privacy::exported_cases_in(rows) is Ok {
            let cases = privacy::exported_cases_in(rows)->Ok_0;
            assert forall|i: int| 0 <= i < rows.len() implies case_of_cells(
                #[trigger] rows[i],
                cases[i],
            ) by {
                if i < before.len() {
                    assert(before[i] == rows[i]);
                }
            }
        }
    }
}

proof fn lemma_exported_messages(rows: Seq<MessageRow>)
    ensures
        privacy::exported_messages_in(rows) matches Ok(messages) ==> messages.len() == rows.len()
            && forall|i: int|
            0 <= i < rows.len() ==> message_of_cells(#[trigger] rows[i], messages[i]),
        (forall|i: int|
            0 <= i < rows.len() ==> privacy::exported_message(#[trigger] rows[i]) is Ok)
            ==> privacy::exported_messages_in(rows) is Ok,
    decreases rows.len(),
{
    if rows.len() > 0 {
        let before = rows.drop_last();
        lemma_exported_messages(before);
        law_messages_are_exported_whole(rows.last());
        assert(rows[rows.len() - 1] == rows.last());
        assert forall|i: int| 0 <= i < before.len() implies #[trigger] before[i] == rows[i] by {}
        if privacy::exported_messages_in(rows) is Ok {
            let messages = privacy::exported_messages_in(rows)->Ok_0;
            assert forall|i: int| 0 <= i < rows.len() implies message_of_cells(
                #[trigger] rows[i],
                messages[i],
            ) by {
                if i < before.len() {
                    assert(before[i] == rows[i]);
                }
            }
        }
    }
}

proof fn lemma_exported_activities(rows: Seq<ActivityRow>, subject: Seq<char>)
    ensures
        privacy::exported_activities_in(rows, subject) matches Ok(activities) ==> activities.len()
            == rows.len() && forall|i: int|
            0 <= i < rows.len() ==> activity_of_cells(#[trigger] rows[i], activities[i])
                && tells_but_others(
                model::entries_view((rows[i].payload->0)@),
                activities[i].payload,
                subject,
            ),
        (forall|i: int|
            0 <= i < rows.len() ==> privacy::exported_activity(#[trigger] rows[i], subject) is Ok)
            ==> privacy::exported_activities_in(rows, subject) is Ok,
    decreases rows.len(),
{
    if rows.len() > 0 {
        let before = rows.drop_last();
        lemma_exported_activities(before, subject);
        law_activities_are_exported_whole(rows.last(), subject);
        assert(rows[rows.len() - 1] == rows.last());
        assert forall|i: int| 0 <= i < before.len() implies #[trigger] before[i] == rows[i] by {}
        if privacy::exported_activities_in(rows, subject) is Ok {
            let activities = privacy::exported_activities_in(rows, subject)->Ok_0;
            assert forall|i: int| 0 <= i < rows.len() implies activity_of_cells(
                #[trigger] rows[i],
                activities[i],
            ) && tells_but_others(
                model::entries_view((rows[i].payload->0)@),
                activities[i].payload,
                subject,
            ) by {
                if i < before.len() {
                    assert(before[i] == rows[i]);
                }
            }
        }
    }
}

/// An export tells of every row that was found, one for one and in order, under the
/// subject and the organization that were asked for. It fails only where a statement
/// failed or some row cannot be exported.
pub proof fn law_exports_are_complete(
    organization_id: Seq<char>,
    subject: Seq<char>,
    cases: Vec<CaseRow>,
    messages: Vec<MessageRow>,
    activities: Vec<ActivityRow>,
)
    ensures
        privacy::export_of(organization_id, subject, Ok(cases), Ok(messages), Ok(activities))
            matches Ok(export) ==> {
            &&& export.subject == subject
            &&& export.organization_id == organization_id
            &&& export.cases.len() == cases@.len()
            &&& forall|i: int|
                0 <= i < cases@.len() ==> case_of_cells(#[trigger] cases@[i], export.cases[i])
            &&& export.authored_messages.len() == messages@.len()
            &&& forall|i: int|
                0 <= i < messages@.len() ==> message_of_cells(
                    #[trigger] messages@[i],
                    export.authored_messages[i],
                )
            &&& export.actor_activity.len() == activities@.len()
            &&& forall|i: int|
                0 <= i < activities@.len() ==> activity_of_cells(
                    #[trigger] activities@[i],
                    export.actor_activity[i],
                ) && tells_but_others(
                    model::entries_view((activities@[i].payload->0)@),
                    export.actor_activity[i].payload,
                    subject,
                )
        },
        (forall|i: int|
            0 <= i < cases@.len() ==> privacy::exported_case(#[trigger] cases@[i]) is Ok) && (
        forall|i: int|
            0 <= i < messages@.len() ==> privacy::exported_message(#[trigger] messages@[i]) is Ok)
            && (forall|i: int|
            0 <= i < activities@.len() ==> privacy::exported_activity(
                #[trigger] activities@[i],
                subject,
            ) is Ok) ==> privacy::export_of(
            organization_id,
            subject,
            Ok(cases),
            Ok(messages),
            Ok(activities),
        ) is Ok,
{
    lemma_exported_cases(cases@);
    lemma_exported_messages(messages@);
    lemma_exported_activities(activities@, subject);
}

} // verus!
