//! What a list selects, in which order, and that its pages make it up.

use vstd::prelude::*;
use vstd::string::*;

use crate::cursor;
use crate::cursor::{CaseCursor, MessageCursor};
use crate::failures::{ListCasesError, ListMessagesError, ListRequesterMessagesError};
use crate::fault::CallErrorView;
use crate::intake;
use crate::model;
use crate::model::{CaseView, MessageView};
use crate::reads;
use crate::reads::{CaseFiltersView, MessageQueryView};
use crate::requests;
use crate::responses;
use crate::responses::{CaseResponseView, MessageItemView, RequesterItemView, WireErrorView};
use crate::service;
use crate::service::PageView;

verus! {

/// The place of a record in a list: an instant, and an identifier to tell records of
/// one instant apart.
pub struct Place {
    pub instant: i128,
    pub id: u128,
}

/// Whether a place comes before another in a list.
pub open spec fn precedes(newest_first: bool, first: Place, second: Place) -> bool {
    let earlier = first.instant < second.instant || (first.instant == second.instant && first.id
        < second.id);
    let later = second.instant < first.instant || (second.instant == first.instant && second.id
        < first.id);
    if newest_first {
        later
    } else {
        earlier
    }
}

/// The place of a case: the case touched last comes first.
pub open spec fn case_place(case: CaseView) -> Place {
    Place { instant: case.updated_at, id: case.case_id }
}

/// The place of a message: messages come in the order of their creation.
pub open spec fn message_place(message: MessageView) -> Place {
    Place { instant: message.created_at, id: message.message_id }
}

/// How cases stand in a list.
pub open spec fn case_order() -> spec_fn(CaseView) -> Place {
    |case: CaseView| case_place(case)
}

/// How messages stand in a list.
pub open spec fn message_order() -> spec_fn(MessageView) -> Place {
    |message: MessageView| message_place(message)
}

/// Whether a filter, where there is one, lets a value through.
pub open spec fn lets_through(filter: Option<Seq<char>>, value: Option<Seq<char>>) -> bool {
    filter matches Some(wanted) ==> value == Some(wanted)
}

/// Whether a list of cases selects a case: one of the organization that every filter
/// lets through, behind the cursor, and visible to the reader.
pub open spec fn lists_case(filters: CaseFiltersView, case: CaseView) -> bool {
    &&& case.organization_id == filters.organization_id
    &&& lets_through(filters.state, Some(case.state))
    &&& lets_through(filters.assignee_subject, case.assignee_subject)
    &&& lets_through(filters.requester_subject, Some(case.requester_subject))
    &&& filters.cursor matches Some(cursor) ==> precedes(
        true,
        Place { instant: cursor.updated_at, id: cursor.case_id },
        case_place(case),
    )
    &&& filters.can_read_all || model::related(case, filters.actor)
}

/// Whether a list of messages selects a message: one of the case, behind the cursor,
/// and public unless the reader may see internal notes.
pub open spec fn lists_message(query: MessageQueryView, message: MessageView) -> bool {
    &&& message.case_id == query.case_id
    &&& query.can_read_internal || message.visibility == "public"@
    &&& query.cursor matches Some(cursor) ==> precedes(
        false,
        Place { instant: cursor.created_at, id: cursor.message_id },
        message_place(message),
    )
}

/// A reader without the permission for internal notes is listed public messages only.
pub proof fn law_internal_notes_are_withheld(query: MessageQueryView, message: MessageView)
    requires
        lists_message(query, message),
        message.visibility != "public"@,
    ensures
        query.can_read_internal,
{
}

/// A reader without the permission to read every case is listed related cases only.
pub proof fn law_only_related_cases_are_listed(filters: CaseFiltersView, case: CaseView)
    requires
        lists_case(filters, case),
        !model::related(case, filters.actor),
    ensures
        filters.can_read_all,
{
}

/// Whether records stand in the order of a list, each in a place of its own.
pub open spec fn in_order<R>(newest_first: bool, records: Seq<R>, place: spec_fn(R) -> Place) -> bool {
    forall|i: int, j: int|
        0 <= i < j < records.len() ==> precedes(
            newest_first,
            place(#[trigger] records[i]),
            place(#[trigger] records[j]),
        )
}

/// The first records of a list.
pub open spec fn first<R>(records: Seq<R>, count: int) -> Seq<R> {
    if records.len() <= count {
        records
    } else {
        records.take(count)
    }
}

/// The records of a list behind a place.
pub open spec fn behind<R>(
    newest_first: bool,
    records: Seq<R>,
    place: spec_fn(R) -> Place,
    start: Option<Place>,
) -> Seq<R> {
    match start {
        None => records,
        Some(start) => records.filter(|record: R| precedes(newest_first, start, place(record))),
    }
}

/// One request for a page and its answer.
pub struct Turn<W> {
    pub limit: int,
    pub cursor: Option<Seq<char>>,
    pub answer: PageView<W>,
}

/// The place that a request's cursor names.
pub open spec fn start_of<W>(turn: Turn<W>) -> Option<Place> {
    match turn.cursor {
        None => None,
        Some(text) => match cursor::place_named(text) {
            None => None,
            Some((instant, id)) => Some(Place { instant: instant as i128, id }),
        },
    }
}

/// Whether requests follow the cursors: the first has none, and each of the others has
/// the one that came with the answer before it.
pub open spec fn followed<W>(turns: Seq<Turn<W>>) -> bool {
    &&& turns.len() > 0
    &&& turns[0].cursor is None
    &&& forall|i: int|
        0 < i < turns.len() ==> (#[trigger] turns[i]).cursor is Some && turns[i].cursor
            == turns[i - 1].answer.next_cursor
}

/// What was listed on all the pages together.
pub open spec fn listed<W>(turns: Seq<Turn<W>>) -> Seq<W>
    decreases turns.len(),
{
    if turns.len() == 0 {
        Seq::empty()
    } else {
        listed(turns.drop_last()) + turns.last().answer.items
    }
}

/// Whether a turn is answered from a list: with a page of the records behind its
/// cursor, of which one more than the page holds is found.
pub open spec fn answered_from<R, W, E, F>(
    newest_first: bool,
    records: Seq<R>,
    place: spec_fn(R) -> Place,
    wire: spec_fn(R) -> Result<W, WireErrorView>,
    turn: Turn<W>,
) -> bool {
    let found = first(behind(newest_first, records, place, start_of(turn)), turn.limit + 1);
    &&& turn.limit >= 1
    &&& service::page_answer::<R, W, E, F>(turn.limit, found, place, wire) == Ok::<
        _,
        CallErrorView<E, F>,
    >(turn.answer)
    &&& service::leads_on(turn.limit, found, place, turn.answer.next_cursor)
}

/// Behind the place of a record stand the records that follow it.
proof fn lemma_behind_a_place<R>(
    newest_first: bool,
    records: Seq<R>,
    place: spec_fn(R) -> Place,
    at: int,
    count: int,
)
    requires
        in_order(newest_first, records, place),
        0 <= at < records.len(),
        0 <= count <= records.len(),
    ensures
        records.take(count).filter(
            |record: R| precedes(newest_first, place(records[at]), place(record)),
        ) == if count <= at + 1 {
            Seq::empty()
        } else {
            records.subrange(at + 1, count)
        },
    decreases count,
{
    let keep = |record: R| precedes(newest_first, place(records[at]), place(record));
    reveal_with_fuel(Seq::filter, 1);
    if count == 0 {
        assert(records.take(0) =~= Seq::empty());
        assert(records.take(count).filter(keep) =~= Seq::empty());
    } else {
        lemma_behind_a_place(newest_first, records, place, at, count - 1);
        assert(records.take(count).drop_last() =~= records.take(count - 1));
        let last = records[count - 1];
        assert(records.take(count).last() == last);
        if count - 1 > at {
            assert(keep(last));
            assert(records.subrange(at + 1, count) =~= (if count - 1 <= at + 1 {
                Seq::empty()
            } else {
                records.subrange(at + 1, count - 1)
            }).push(last));
        } else {
            assert(!keep(last));
        }
    }
}

/// What the turns so far have listed is the beginning of the list, as far as the last
/// cursor says.
proof fn lemma_turns<R, W, E, F>(
    newest_first: bool,
    records: Seq<R>,
    place: spec_fn(R) -> Place,
    wire: spec_fn(R) -> Result<W, WireErrorView>,
    turns: Seq<Turn<W>>,
)
    requires
        in_order(newest_first, records, place),
        followed(turns),
        forall|i: int|
            0 <= i < turns.len() ==> answered_from::<R, W, E, F>(
                newest_first,
                records,
                place,
                wire,
                #[trigger] turns[i],
            ),
    ensures
        ({
            let count = listed(turns).len() as int;
            &&& count <= records.len()
            &&& responses::all_on_wire(records.take(count), wire) == Ok::<_, WireErrorView>(
                listed(turns),
            )
            &&& match turns.last().answer.next_cursor {
                None => count == records.len() && turns.len() <= count + 1,
                Some(text) => turns.len() <= count < records.len() && cursor::place_named(text)
                    == Some((place(records[count - 1]).instant as int, place(records[count - 1]).id)),
            }
        }),
    decreases turns.len(),
{
    let before = turns.drop_last();
    let turn = turns.last();
    assert(turns[turns.len() - 1] == turn);
    let start = listed(before).len() as int;
    if before.len() == 0 {
        assert(records.take(0) =~= Seq::empty());
        assert(listed(before) =~= Seq::empty());
        assert(start_of(turn) is None);
        assert(behind(newest_first, records, place, start_of(turn)) =~= records.skip(0));
    } else {
        assert forall|i: int| 0 <= i < before.len() implies answered_from::<R, W, E, F>(
            newest_first,
            records,
            place,
            wire,
            #[trigger] before[i],
        ) by {
            assert(before[i] == turns[i]);
        }
        assert(followed(before)) by {
            assert forall|i: int| 0 < i < before.len() implies (#[trigger] before[i]).cursor is Some
                && before[i].cursor == before[i - 1].answer.next_cursor by {
                assert(before[i] == turns[i]);
            }
        }
        lemma_turns::<R, W, E, F>(newest_first, records, place, wire, before);
        assert(before.last() == turns[turns.len() - 2]);
        assert(turn.cursor is Some && turn.cursor == before.last().answer.next_cursor);
        assert(start_of(turn) == Some(place(records[start - 1])));
        lemma_behind_a_place(
            newest_first,
            records,
            place,
            start - 1,
            records.len() as int,
        );
        assert(records.take(records.len() as int) =~= records);
        assert(records.skip(start) =~= records.subrange(start, records.len() as int));
        assert(behind(newest_first, records, place, start_of(turn)) == records.skip(start));
    }
    let rest = records.skip(start);
    let found = first(rest, turn.limit + 1);
    let page = reads::page_of(found, turn.limit);
    let items = turn.answer.items;
    assert(responses::all_on_wire(page, wire) == Ok::<_, WireErrorView>(items));
    lemma_wire_length(page, wire);
    let end = start + page.len();
    assert(page =~= records.subrange(start, end));
    assert(records.take(start) + page =~= records.take(end));
    responses::lemma_wire_parts(records.take(start), page, wire);
    if turn.answer.next_cursor is Some {
        assert(page.last() == records[end - 1]);
    }
}

proof fn lemma_wire_length<R, W>(
    records: Seq<R>,
    wire: spec_fn(R) -> Result<W, WireErrorView>,
)
    requires
        responses::all_on_wire(records, wire) is Ok,
    ensures
        responses::all_on_wire(records, wire)->Ok_0.len() == records.len(),
    decreases records.len(),
{
    if records.len() > 0 {
        lemma_wire_length(records.drop_last(), wire);
    }
}

/// Selecting twice is selecting by both.
proof fn lemma_selected_twice<R>(
    records: Seq<R>,
    wide: spec_fn(R) -> bool,
    narrow: spec_fn(R) -> bool,
    both: spec_fn(R) -> bool,
)
    requires
        forall|record: R| #[trigger] both(record) <==> wide(record) && narrow(record),
    ensures
        records.filter(wide).filter(narrow) == records.filter(both),
    decreases records.len(),
{
    reveal_with_fuel(Seq::filter, 1);
    if records.len() > 0 {
        let before = records.drop_last();
        let last = records.last();
        lemma_selected_twice(before, wide, narrow, both);
        assert(both(last) <==> wide(last) && narrow(last));
        if wide(last) {
            let selected = before.filter(wide);
            assert(selected.push(last).drop_last() =~= selected);
        }
    }
}

/// What is selected from an ordered list is in order.
proof fn lemma_selection_is_ordered<R>(
    newest_first: bool,
    records: Seq<R>,
    place: spec_fn(R) -> Place,
    keep: spec_fn(R) -> bool,
)
    requires
        in_order(newest_first, records, place),
    ensures
        in_order(newest_first, records.filter(keep), place),
        forall|i: int|
            0 <= i < records.filter(keep).len() ==> records.contains(
                #[trigger] records.filter(keep)[i],
            ),
    decreases records.len(),
{
    reveal_with_fuel(Seq::filter, 1);
    if records.len() > 0 {
        let before = records.drop_last();
        let selected = before.filter(keep);
        let last = records.last();
        assert(in_order(newest_first, before, place)) by {
            assert forall|i: int, j: int| 0 <= i < j < before.len() implies precedes(
                newest_first,
                place(#[trigger] before[i]),
                place(#[trigger] before[j]),
            ) by {
                assert(before[i] == records[i] && before[j] == records[j]);
            }
        }
        lemma_selection_is_ordered(newest_first, before, place, keep);
        assert forall|i: int| 0 <= i < selected.len() implies records.contains(
            #[trigger] selected[i],
        ) && precedes(newest_first, place(selected[i]), place(last)) by {
            assert(before.contains(selected[i]));
            let at = choose|at: int| 0 <= at < before.len() && before[at] == selected[i];
            assert(records[at] == selected[i]);
            assert(records[records.len() - 1] == last);
        }
        assert(records[records.len() - 1] == last);
    }
}

/// The filters of a list without a cursor.
pub open spec fn from_the_start(filters: CaseFiltersView) -> CaseFiltersView {
    CaseFiltersView { cursor: None, ..filters }
}

/// The filters with which a turn's page is asked for.
pub open spec fn turn_filters<W>(filters: CaseFiltersView, turn: Turn<W>) -> CaseFiltersView {
    CaseFiltersView {
        cursor: match start_of(turn) {
            None => None,
            Some(place) => Some(CaseCursor { updated_at: place.instant, case_id: place.id }),
        },
        limit: (turn.limit + 1) as i64,
        ..filters
    }
}

/// The cases that filters find among the stored ones, which stand in the order of the
/// list.
pub open spec fn found_cases(filters: CaseFiltersView, stored: Seq<CaseView>) -> Seq<CaseView> {
    first(stored.filter(|case: CaseView| lists_case(filters, case)), filters.limit as int)
}

/// Whether `list_cases` gave a turn its answer, from the stored cases.
pub open spec fn case_turn<F>(
    filters: CaseFiltersView,
    stored: Seq<CaseView>,
    turn: Turn<CaseResponseView>,
) -> bool {
    let found = found_cases(turn_filters(filters, turn), stored);
    &&& 1 <= turn.limit <= requests::MAX_PAGE
    &&& service::cases_answer::<F>(turn.limit, Ok(found)) == Ok::<
        _,
        CallErrorView<ListCasesError, F>,
    >(turn.answer)
    &&& service::leads_on(turn.limit, found, case_order(), turn.answer.next_cursor)
}

/// Following the cursors of `list_cases` to the end, with whatever limits, lists every
/// case that the filters select exactly once, the one touched last first, and takes at
/// most one page more than there are cases.
pub proof fn law_case_pages_make_up_the_list<F>(
    filters: CaseFiltersView,
    stored: Seq<CaseView>,
    turns: Seq<Turn<CaseResponseView>>,
)
    requires
        in_order(true, stored, case_order()),
        followed(turns),
        forall|i: int|
            0 <= i < turns.len() ==> case_turn::<F>(filters, stored, #[trigger] turns[i]),
        turns.last().answer.next_cursor is None,
    ensures
        ({
            let selected = stored.filter(
                |case: CaseView| lists_case(from_the_start(filters), case),
            );
            &&& service::cases_on_wire(selected) == Ok::<_, WireErrorView>(listed(turns))
            &&& in_order(true, selected, case_order())
            &&& turns.len() <= selected.len() + 1
        }),
{
    let wide = |case: CaseView| lists_case(from_the_start(filters), case);
    let selected = stored.filter(wide);
    lemma_selection_is_ordered(true, stored, case_order(), wide);
    assert forall|i: int| 0 <= i < turns.len() implies answered_from::<
        CaseView,
        CaseResponseView,
        ListCasesError,
        F,
    >(true, selected, case_order(), service::case_wire(), #[trigger] turns[i]) by {
        let turn = turns[i];
        let asked = turn_filters(filters, turn);
        let both = |case: CaseView| lists_case(asked, case);
        match start_of(turn) {
            None => {
                assert forall|case: CaseView| #[trigger] both(case) == wide(case) by {}
                assert(both =~= wide);
            },
            Some(start) => {
                let narrow = |case: CaseView| precedes(true, start, case_order()(case));
                lemma_selected_twice(stored, wide, narrow, both);
                assert(behind(true, selected, case_order(), Some(start)) == selected.filter(narrow));
            },
        }
    }
    lemma_turns::<CaseView, CaseResponseView, ListCasesError, F>(
        true,
        selected,
        case_order(),
        service::case_wire(),
        turns,
    );
    assert(selected.take(selected.len() as int) =~= selected);
}

/// The query for messages without a cursor.
pub open spec fn all_messages(query: MessageQueryView) -> MessageQueryView {
    MessageQueryView { cursor: None, ..query }
}

/// The query with which a turn's page is asked for.
pub open spec fn turn_query<W>(query: MessageQueryView, turn: Turn<W>) -> MessageQueryView {
    MessageQueryView {
        cursor: match start_of(turn) {
            None => None,
            Some(place) => Some(MessageCursor { created_at: place.instant, message_id: place.id }),
        },
        limit: (turn.limit + 1) as i64,
        ..query
    }
}

/// The messages that a query finds among the stored ones, which stand in the order of
/// the list.
pub open spec fn found_messages(query: MessageQueryView, stored: Seq<MessageView>) -> Seq<MessageView> {
    first(stored.filter(|message: MessageView| lists_message(query, message)), query.limit as int)
}

/// Whether `list_messages` gave a turn its answer, from the stored messages of a case
/// that the reader sees.
pub open spec fn message_turn<F>(
    query: MessageQueryView,
    stored: Seq<MessageView>,
    turn: Turn<MessageItemView>,
) -> bool {
    let found = found_messages(turn_query(query, turn), stored);
    &&& 1 <= turn.limit <= requests::MAX_PAGE
    &&& service::messages_answer::<F>(turn.limit, Ok(Some(found))) == Ok::<
        _,
        CallErrorView<ListMessagesError, F>,
    >(turn.answer)
    &&& service::leads_on(turn.limit, found, message_order(), turn.answer.next_cursor)
}

/// Whether `list_requester_messages` gave a turn its answer, from the stored messages
/// of a case that the requester sees.
pub open spec fn requester_turn<F>(
    query: MessageQueryView,
    stored: Seq<MessageView>,
    turn: Turn<RequesterItemView>,
) -> bool {
    let found = found_messages(turn_query(query, turn), stored);
    &&& 1 <= turn.limit <= requests::MAX_PAGE
    &&& intake::requester_messages_answer::<F>(turn.limit, Ok(Some(found))) == Ok::<
        _,
        CallErrorView<ListRequesterMessagesError, F>,
    >(turn.answer)
    &&& service::leads_on(turn.limit, found, message_order(), turn.answer.next_cursor)
}

/// What a turn's query finds is what stands behind its cursor.
proof fn lemma_messages_behind<W>(
    query: MessageQueryView,
    stored: Seq<MessageView>,
    turn: Turn<W>,
)
    requires
        1 <= turn.limit <= requests::MAX_PAGE,
    ensures
        found_messages(turn_query(query, turn), stored) == first(
            behind(
                false,
                stored.filter(|message: MessageView| lists_message(all_messages(query), message)),
                message_order(),
                start_of(turn),
            ),
            turn.limit + 1,
        ),
{
    let asked = turn_query(query, turn);
    let wide = |message: MessageView| lists_message(all_messages(query), message);
    let both = |message: MessageView| lists_message(asked, message);
    match start_of(turn) {
        None => {
            assert forall|message: MessageView| #[trigger] both(message) == wide(message) by {}
            assert(both =~= wide);
        },
        Some(start) => {
            let narrow = |message: MessageView| precedes(false, start, message_order()(message));
            lemma_selected_twice(stored, wide, narrow, both);
            assert(behind(false, stored.filter(wide), message_order(), Some(start))
                == stored.filter(wide).filter(narrow));
        },
    }
}

/// Following the cursors of `list_messages` to the end, with whatever limits, lists
/// every message that the query selects exactly once, in the order of their creation,
/// and takes at most one page more than there are messages.
pub proof fn law_message_pages_make_up_the_list<F>(
    query: MessageQueryView,
    stored: Seq<MessageView>,
    turns: Seq<Turn<MessageItemView>>,
)
    requires
        in_order(false, stored, message_order()),
        followed(turns),
        forall|i: int|
            0 <= i < turns.len() ==> message_turn::<F>(query, stored, #[trigger] turns[i]),
        turns.last().answer.next_cursor is None,
    ensures
        ({
            let selected = stored.filter(
                |message: MessageView| lists_message(all_messages(query), message),
            );
            &&& service::items_on_wire(selected) == Ok::<_, WireErrorView>(listed(turns))
            &&& in_order(false, selected, message_order())
            &&& turns.len() <= selected.len() + 1
        }),
{
    let wide = |message: MessageView| lists_message(all_messages(query), message);
    let selected = stored.filter(wide);
    lemma_selection_is_ordered(false, stored, message_order(), wide);
    assert forall|i: int| 0 <= i < turns.len() implies answered_from::<
        MessageView,
        MessageItemView,
        ListMessagesError,
        F,
    >(false, selected, message_order(), service::item_wire(), #[trigger] turns[i]) by {
        lemma_messages_behind(query, stored, turns[i]);
    }
    lemma_turns::<MessageView, MessageItemView, ListMessagesError, F>(
        false,
        selected,
        message_order(),
        service::item_wire(),
        turns,
    );
    assert(selected.take(selected.len() as int) =~= selected);
}

/// Following the cursors of `list_requester_messages` to the end, with whatever limits,
/// lists every message that the query selects exactly once, in the order of their
/// creation, and takes at most one page more than there are messages.
pub proof fn law_requester_pages_make_up_the_list<F>(
    query: MessageQueryView,
    stored: Seq<MessageView>,
    turns: Seq<Turn<RequesterItemView>>,
)
    requires
        in_order(false, stored, message_order()),
        followed(turns),
        forall|i: int|
            0 <= i < turns.len() ==> requester_turn::<F>(query, stored, #[trigger] turns[i]),
        turns.last().answer.next_cursor is None,
    ensures
        ({
            let selected = stored.filter(
                |message: MessageView| lists_message(all_messages(query), message),
            );
            &&& intake::requester_items_on_wire(selected) == Ok::<_, WireErrorView>(listed(turns))
            &&& in_order(false, selected, message_order())
            &&& turns.len() <= selected.len() + 1
        }),
{
    let wide = |message: MessageView| lists_message(all_messages(query), message);
    let selected = stored.filter(wide);
    lemma_selection_is_ordered(false, stored, message_order(), wide);
    assert forall|i: int| 0 <= i < turns.len() implies answered_from::<
        MessageView,
        RequesterItemView,
        ListRequesterMessagesError,
        F,
    >(false, selected, message_order(), intake::requester_wire(), #[trigger] turns[i]) by {
        lemma_messages_behind(query, stored, turns[i]);
    }
    lemma_turns::<MessageView, RequesterItemView, ListRequesterMessagesError, F>(
        false,
        selected,
        message_order(),
        intake::requester_wire(),
        turns,
    );
    assert(selected.take(selected.len() as int) =~= selected);
}

} // verus!
