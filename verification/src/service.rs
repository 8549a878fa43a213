//! What the back office is answered once the storage has done its work.

use vstd::prelude::*;
use vstd::string::*;

use crate::cursor;
use crate::errors;
use crate::errors::{storage_runtime, StorageError, StorageErrorView};
use crate::failures;
use crate::failures::{
    map_assign_failure, map_create_failure, map_message_failure, map_transition_failure,
    map_update_failure, AddMessageError, AssignCaseError, CreateCaseError, GetCaseError,
    ListCasesError, ListMessagesError, TransitionCaseError, UpdateCaseError,
};
use crate::fault::{CallError, CallErrorView, FaultView};
use crate::model::{
    CaseRecord, CaseView, DomainFailure, MessageRecord, MessageView, ResponseView, StoredResponse,
};
use crate::outside;
use crate::paging;
use crate::paging::Place;
use crate::reads;
use crate::reads::{case_page, message_page};
use crate::responses;
use crate::responses::{
    case_response, message_item, message_response, serialization_runtime, CaseResponse,
    CaseResponseView, MessageItem, MessageItemView, MessageResponse, MessageResponseView, WireError,
    WireErrorView,
};
use crate::rows;
use crate::text;
use crate::transaction::{Answer, AnswerView};

verus! {

/// The failure that a storage error is.
pub open spec fn storage_fault<E, F>(error: StorageErrorView) -> CallErrorView<E, F> {
    CallErrorView::Runtime(FaultView::PluginFailure(errors::storage_text(error)))
}

/// The failure that a wire error is.
pub open spec fn wire_fault<E, F>(error: WireErrorView) -> CallErrorView<E, F> {
    CallErrorView::Runtime(
        FaultView::Internal(
            "Support Case wire serialization failed: "@ + responses::wire_text(error),
        ),
    )
}

/// What a command that ends with a case left behind, or why it did not.
pub open spec fn case_answer(outcome: Result<AnswerView, StorageErrorView>) -> Result<
    Result<CaseView, DomainFailure>,
    StorageErrorView,
> {
    match outcome {
        Err(error) => Err(error),
        Ok(AnswerView::Refused(failure)) => Ok(Err(failure)),
        Ok(AnswerView::Done(ResponseView::Case(case))) => Ok(Ok(case)),
        Ok(AnswerView::Done(ResponseView::Message(_))) => Err(StorageErrorView::Serialization),
    }
}

/// What a command that ends with a message left behind, or why it did not.
pub open spec fn message_answer(outcome: Result<AnswerView, StorageErrorView>) -> Result<
    Result<MessageView, DomainFailure>,
    StorageErrorView,
> {
    match outcome {
        Err(error) => Err(error),
        Ok(AnswerView::Refused(failure)) => Ok(Err(failure)),
        Ok(AnswerView::Done(ResponseView::Message(message))) => Ok(Ok(message)),
        Ok(AnswerView::Done(ResponseView::Case(_))) => Err(StorageErrorView::Serialization),
    }
}

/// What a call that ends with a case is answered.
pub open spec fn case_call<E, F>(
    outcome: Result<AnswerView, StorageErrorView>,
    failure: spec_fn(DomainFailure) -> E,
) -> Result<CaseResponseView, CallErrorView<E, F>> {
    match case_answer(outcome) {
        Err(error) => Err(storage_fault(error)),
        Ok(Err(refused)) => Err(CallErrorView::Domain(failure(refused))),
        Ok(Ok(case)) => match responses::case_on_wire(case) {
            Err(error) => Err(wire_fault(error)),
            Ok(response) => Ok(response),
        },
    }
}

/// What a call that ends with a message is answered.
pub open spec fn message_call<E, F>(
    outcome: Result<AnswerView, StorageErrorView>,
    failure: spec_fn(DomainFailure) -> E,
) -> Result<MessageResponseView, CallErrorView<E, F>> {
    match message_answer(outcome) {
        Err(error) => Err(storage_fault(error)),
        Ok(Err(refused)) => Err(CallErrorView::Domain(failure(refused))),
        Ok(Ok(message)) => match responses::message_on_wire(message) {
            Err(error) => Err(wire_fault(error)),
            Ok(response) => Ok(response),
        },
    }
}

/// What a command that ends with a case left behind.
pub fn answered_case(outcome: Result<Answer, StorageError>) -> (result: Result<
    Result<CaseRecord, DomainFailure>,
    StorageError,
>)
    ensures
        match result {
            Err(error) => case_answer(rows::viewed(outcome)) == Err::<Result<CaseView, DomainFailure>, _>(error@),
            Ok(Err(failure)) => case_answer(rows::viewed(outcome)) == Ok::<_, StorageErrorView>(Err::<CaseView, _>(failure)),
            Ok(Ok(case)) => case_answer(rows::viewed(outcome)) == Ok::<_, StorageErrorView>(Ok::<_, DomainFailure>(case@)),
        },
{
    match outcome {
        Err(error) => Err(error),
        Ok(Answer::Refused(failure)) => Ok(Err(failure)),
        Ok(Answer::Done(StoredResponse::Case(case))) => Ok(Ok(case)),
        Ok(Answer::Done(StoredResponse::Message(_))) => Err(StorageError::Serialization),
    }
}

/// What a command that ends with a message left behind.
pub fn answered_message(outcome: Result<Answer, StorageError>) -> (result: Result<
    Result<MessageRecord, DomainFailure>,
    StorageError,
>)
    ensures
        match result {
            Err(error) => message_answer(rows::viewed(outcome)) == Err::<Result<MessageView, DomainFailure>, _>(error@),
            Ok(Err(failure)) => message_answer(rows::viewed(outcome)) == Ok::<_, StorageErrorView>(Err::<MessageView, _>(failure)),
            Ok(Ok(message)) => message_answer(rows::viewed(outcome)) == Ok::<_, StorageErrorView>(Ok::<_, DomainFailure>(message@)),
        },
{
    match outcome {
        Err(error) => Err(error),
        Ok(Answer::Refused(failure)) => Ok(Err(failure)),
        Ok(Answer::Done(StoredResponse::Message(message))) => Ok(Ok(message)),
        Ok(Answer::Done(StoredResponse::Case(_))) => Err(StorageError::Serialization),
    }
}

fn case_or_fault<E, F>(record: &CaseRecord) -> (result: Result<CaseResponse, CallError<E, F>>)
    ensures
        rows::viewed(result) == match responses::case_on_wire(record@) {
            Err(error) => Err(wire_fault::<E, F>(error)),
            Ok(response) => Ok(response),
        },
{
    match case_response(record) {
        Ok(response) => Ok(response),
        Err(error) => Err(CallError::Runtime(serialization_runtime(&error))),
    }
}

/// What `create_case` is answered.
pub fn create_case<F>(outcome: Result<Answer, StorageError>) -> (result: Result<
    CaseResponse,
    CallError<CreateCaseError, F>,
>)
    ensures
        rows::viewed(result) == case_call::<CreateCaseError, F>(
            rows::viewed(outcome),
            |failure: DomainFailure| failures::create_failure(failure),
        ),
{
    match answered_case(outcome) {
        Err(error) => Err(CallError::Runtime(storage_runtime(&error))),
        Ok(Err(failure)) => Err(CallError::Domain(map_create_failure(failure))),
        Ok(Ok(record)) => case_or_fault(&record),
    }
}

/// What `update_case` is answered.
pub fn update_case<F>(outcome: Result<Answer, StorageError>) -> (result: Result<
    CaseResponse,
    CallError<UpdateCaseError, F>,
>)
    ensures
        rows::viewed(result) == case_call::<UpdateCaseError, F>(
            rows::viewed(outcome),
            |failure: DomainFailure| failures::update_failure(failure),
        ),
{
    match answered_case(outcome) {
        Err(error) => Err(CallError::Runtime(storage_runtime(&error))),
        Ok(Err(failure)) => Err(CallError::Domain(map_update_failure(failure))),
        Ok(Ok(record)) => case_or_fault(&record),
    }
}

/// What `assign_case` is answered.
pub fn assign_case<F>(outcome: Result<Answer, StorageError>) -> (result: Result<
    CaseResponse,
    CallError<AssignCaseError, F>,
>)
    ensures
        rows::viewed(result) == case_call::<AssignCaseError, F>(
            rows::viewed(outcome),
            |failure: DomainFailure| failures::assign_failure(failure),
        ),
{
    match answered_case(outcome) {
        Err(error) => Err(CallError::Runtime(storage_runtime(&error))),
        Ok(Err(failure)) => Err(CallError::Domain(map_assign_failure(failure))),
        Ok(Ok(record)) => case_or_fault(&record),
    }
}

/// What `transition_case` is answered.
pub fn transition_case<F>(outcome: Result<Answer, StorageError>) -> (result: Result<
    CaseResponse,
    CallError<TransitionCaseError, F>,
>)
    ensures
        rows::viewed(result) == case_call::<TransitionCaseError, F>(
            rows::viewed(outcome),
            |failure: DomainFailure| failures::transition_failure(failure),
        ),
{
    match answered_case(outcome) {
        Err(error) => Err(CallError::Runtime(storage_runtime(&error))),
        Ok(Err(failure)) => Err(CallError::Domain(map_transition_failure(failure))),
        Ok(Ok(record)) => case_or_fault(&record),
    }
}

/// What `add_message` is answered.
pub fn add_message<F>(outcome: Result<Answer, StorageError>) -> (result: Result<
    MessageResponse,
    CallError<AddMessageError, F>,
>)
    ensures
        rows::viewed(result) == message_call::<AddMessageError, F>(
            rows::viewed(outcome),
            |failure: DomainFailure| failures::message_failure(failure),
        ),
{
    match answered_message(outcome) {
        Err(error) => Err(CallError::Runtime(storage_runtime(&error))),
        Ok(Err(failure)) => Err(CallError::Domain(map_message_failure(failure))),
        Ok(Ok(record)) => match message_response(&record) {
            Ok(response) => Ok(response),
            Err(error) => Err(CallError::Runtime(serialization_runtime(&error))),
        },
    }
}

/// What `get_case` is answered. A case that is not there, or not seen, is not found.
pub fn get_case<F>(found: Result<Option<CaseRecord>, StorageError>) -> (result: Result<
    CaseResponse,
    CallError<GetCaseError, F>,
>)
    ensures
        rows::viewed(result) == match reads::read_view(found) {
            Err(error) => Err(storage_fault::<GetCaseError, F>(error)),
            Ok(None) => Err(CallErrorView::Domain(GetCaseError::CaseNotFound)),
            Ok(Some(case)) => match responses::case_on_wire(case) {
                Err(error) => Err(wire_fault::<GetCaseError, F>(error)),
                Ok(response) => Ok(response),
            },
        },
{
    match found {
        Err(error) => Err(CallError::Runtime(storage_runtime(&error))),
        Ok(None) => Err(CallError::Domain(GetCaseError::CaseNotFound)),
        Ok(Some(record)) => case_or_fault(&record),
    }
}

/// One page of cases.
#[derive(Debug, Eq, PartialEq)]
pub struct ListCasesResponse {
    pub cases: Vec<CaseResponse>,
    pub next_cursor: Option<String>,
}

/// One page of messages.
#[derive(Debug, Eq, PartialEq)]
pub struct ListMessagesResponse {
    pub messages: Vec<MessageItem>,
    pub next_cursor: Option<String>,
}

impl View for ListCasesResponse {
    type V = PageView<CaseResponseView>;

    open spec fn view(&self) -> PageView<CaseResponseView> {
        PageView {
            items: self.cases@.map_values(|shown: CaseResponse| shown@),
            next_cursor: text::optional_text(self.next_cursor),
        }
    }
}

impl View for ListMessagesResponse {
    type V = PageView<MessageItemView>;

    open spec fn view(&self) -> PageView<MessageItemView> {
        PageView {
            items: self.messages@.map_values(|shown: MessageItem| shown@),
            next_cursor: text::optional_text(self.next_cursor),
        }
    }
}

/// How the back office sees a listed case.
pub open spec fn case_wire() -> spec_fn(CaseView) -> Result<CaseResponseView, WireErrorView> {
    |record: CaseView| responses::case_on_wire(record)
}

/// What the back office sees of listed cases, or the first that cannot be shown.
pub open spec fn cases_on_wire(records: Seq<CaseView>) -> Result<Seq<CaseResponseView>, WireErrorView> {
    responses::all_on_wire(records, case_wire())
}

fn show_cases(records: &Vec<CaseRecord>) -> (result: Result<Vec<CaseResponse>, WireError>)
    ensures
        cases_on_wire(reads::case_views(records@)) == match result {
            Ok(shown) => Ok(shown@.map_values(|shown: CaseResponse| shown@)),
            Err(error) => Err(error@),
        },
{
    let ghost views = reads::case_views(records@);
    let mut shown: Vec<CaseResponse> = Vec::new();
    let mut index: usize = 0;
    assert(views.take(0) =~= Seq::empty());
    assert(shown@.map_values(|shown: CaseResponse| shown@) =~= Seq::empty());
    while index < records.len()
        invariant
            index <= records@.len(),
            views == reads::case_views(records@),
            cases_on_wire(views.take(index as int)) == Ok::<_, WireErrorView>(
                shown@.map_values(|shown: CaseResponse| shown@),
            ),
        decreases records@.len() - index,
    {
        proof {
            assert(views.take(index + 1).drop_last() =~= views.take(index as int));
            assert(views.take(index + 1).last() == records@[index as int]@);
            if cases_on_wire(views.take(index + 1)) is Err {
                responses::lemma_wire_failure_stays(views, case_wire(), index + 1);
            }
        }
        let response = case_response(&records[index])?;
        let ghost before = shown@.map_values(|shown: CaseResponse| shown@);
        shown.push(response);
        assert(shown@.map_values(|shown: CaseResponse| shown@) =~= before.push(response@));
        index += 1;
    }
    assert(views.take(index as int) =~= views);
    Ok(shown)
}

/// How the back office sees a listed message.
pub open spec fn item_wire() -> spec_fn(MessageView) -> Result<MessageItemView, WireErrorView> {
    |record: MessageView| responses::item_on_wire(record)
}

/// What the back office sees of listed messages, or the first that cannot be shown.
pub open spec fn items_on_wire(records: Seq<MessageView>) -> Result<Seq<MessageItemView>, WireErrorView> {
    responses::all_on_wire(records, item_wire())
}

fn show_items(records: &Vec<MessageRecord>) -> (result: Result<Vec<MessageItem>, WireError>)
    ensures
        items_on_wire(reads::message_views(records@)) == match result {
            Ok(shown) => Ok(shown@.map_values(|shown: MessageItem| shown@)),
            Err(error) => Err(error@),
        },
{
    let ghost views = reads::message_views(records@);
    let mut shown: Vec<MessageItem> = Vec::new();
    let mut index: usize = 0;
    assert(views.take(0) =~= Seq::empty());
    assert(shown@.map_values(|shown: MessageItem| shown@) =~= Seq::empty());
    while index < records.len()
        invariant
            index <= records@.len(),
            views == reads::message_views(records@),
            items_on_wire(views.take(index as int)) == Ok::<_, WireErrorView>(
                shown@.map_values(|shown: MessageItem| shown@),
            ),
        decreases records@.len() - index,
    {
        proof {
            assert(views.take(index + 1).drop_last() =~= views.take(index as int));
            assert(views.take(index + 1).last() == records@[index as int]@);
            if items_on_wire(views.take(index + 1)) is Err {
                responses::lemma_wire_failure_stays(views, item_wire(), index + 1);
            }
        }
        let response = message_item(&records[index])?;
        let ghost before = shown@.map_values(|shown: MessageItem| shown@);
        shown.push(response);
        assert(shown@.map_values(|shown: MessageItem| shown@) =~= before.push(response@));
        index += 1;
    }
    assert(views.take(index as int) =~= views);
    Ok(shown)
}

/// One page of a list on the wire, with the cursor of the next one where there is
/// more.
#[verifier::ext_equal]
pub struct PageView<W> {
    pub items: Seq<W>,
    pub next_cursor: Option<Seq<char>>,
}

/// What a list is answered, given the records found: a page of them. Where there is
/// more, the cursor names the place of the last record on the page.
pub open spec fn page_answer<R, W, E, F>(
    limit: int,
    found: Seq<R>,
    place: spec_fn(R) -> Place,
    wire: spec_fn(R) -> Result<W, WireErrorView>,
) -> Result<PageView<W>, CallErrorView<E, F>> {
    let page = reads::page_of(found, limit);
    let last = place(page.last());
    let more = found.len() > limit;
    if more && !outside::written_instant(last.instant as int) {
        Err(storage_fault(StorageErrorView::InvalidStoredData(cursor::unwritten_instant_text())))
    } else {
        match responses::all_on_wire(page, wire) {
            Err(error) => Err(wire_fault(error)),
            Ok(items) => Ok(
                PageView {
                    items,
                    next_cursor: if more {
                        Some(cursor::place_text(last.instant as int, last.id))
                    } else {
                        None
                    },
                },
            ),
        }
    }
}

/// Whether the cursor of an answer, where there is one, is read back as the place of
/// the last record on the page.
pub open spec fn leads_on<R>(
    limit: int,
    found: Seq<R>,
    place: spec_fn(R) -> Place,
    next_cursor: Option<Seq<char>>,
) -> bool {
    next_cursor matches Some(text) ==> {
        let last = place(reads::page_of(found, limit).last());
        cursor::place_named(text) == Some((last.instant as int, last.id))
    }
}

/// What `list_cases` is answered, given the cases found.
pub open spec fn cases_answer<F>(
    limit: int,
    found: Result<Seq<CaseView>, StorageErrorView>,
) -> Result<PageView<CaseResponseView>, CallErrorView<ListCasesError, F>> {
    match found {
        Err(error) => Err(storage_fault(error)),
        Ok(cases) => page_answer(limit, cases, paging::case_order(), case_wire()),
    }
}

/// What `list_messages` is answered, given the messages found, if the reader sees the
/// case at all.
pub open spec fn messages_answer<F>(
    limit: int,
    found: Result<Option<Seq<MessageView>>, StorageErrorView>,
) -> Result<PageView<MessageItemView>, CallErrorView<ListMessagesError, F>> {
    match found {
        Err(error) => Err(storage_fault(error)),
        Ok(None) => Err(CallErrorView::Domain(ListMessagesError::CaseNotFound)),
        Ok(Some(messages)) => page_answer(limit, messages, paging::message_order(), item_wire()),
    }
}

/// The page of the views is made up of the views of the page.
pub proof fn lemma_page_views<R, V>(records: Seq<R>, view: spec_fn(R) -> V, limit: int)
    requires
        limit >= 1,
    ensures
        reads::page_of(records.map_values(view), limit) == reads::page_of(records, limit).map_values(
            view,
        ),
        records.len() > limit ==> reads::page_of(records.map_values(view), limit).last() == view(
            reads::page_of(records, limit).last(),
        ),
{
    assert(reads::page_of(records.map_values(view), limit) =~= reads::page_of(
        records,
        limit,
    ).map_values(view));
}

/// What `list_cases` is answered: a page, with the cursor of the next one where
/// there is more.
pub fn list_cases<F>(limit: i64, found: Result<Vec<CaseRecord>, StorageError>) -> (result: Result<
    ListCasesResponse,
    CallError<ListCasesError, F>,
>)
    requires
        limit >= 1,
    ensures
        rows::viewed(result) == cases_answer::<F>(limit as int, reads::cases_view(found)),
        result matches Ok(response) ==> leads_on(
            limit as int,
            reads::case_views(found->Ok_0@),
            paging::case_order(),
            response@.next_cursor,
        ),
{
    let records = match found {
        Err(error) => {
            return Err(CallError::Runtime(storage_runtime(&error)));
        },
        Ok(records) => records,
    };
    proof {
        lemma_page_views(records@, |record: CaseRecord| record@, limit as int);
    }
    match case_page(records, limit) {
        Err(error) => Err(CallError::Runtime(storage_runtime(&error))),
        Ok((page, next_cursor)) => match show_cases(&page) {
            Err(error) => Err(CallError::Runtime(serialization_runtime(&error))),
            Ok(cases) => Ok(ListCasesResponse { cases, next_cursor }),
        },
    }
}

/// What `list_messages` is answered: a page, with the cursor of the next one where
/// there is more. No list was found where the reader does not see the case.
pub fn list_messages<F>(limit: i64, found: Result<Option<Vec<MessageRecord>>, StorageError>) -> (result:
    Result<ListMessagesResponse, CallError<ListMessagesError, F>>)
    requires
        limit >= 1,
    ensures
        rows::viewed(result) == messages_answer::<F>(
            limit as int,
            reads::optional_messages_view(found),
        ),
        result matches Ok(response) ==> leads_on(
            limit as int,
            reads::message_views((found->Ok_0->0)@),
            paging::message_order(),
            response@.next_cursor,
        ),
{
    let records = match found {
        Err(error) => {
            return Err(CallError::Runtime(storage_runtime(&error)));
        },
        Ok(None) => {
            return Err(CallError::Domain(ListMessagesError::CaseNotFound));
        },
        Ok(Some(records)) => records,
    };
    proof {
        lemma_page_views(records@, |record: MessageRecord| record@, limit as int);
    }
    match message_page(records, limit) {
        Err(error) => Err(CallError::Runtime(storage_runtime(&error))),
        Ok((page, next_cursor)) => match show_items(&page) {
            Err(error) => Err(CallError::Runtime(serialization_runtime(&error))),
            Ok(messages) => Ok(ListMessagesResponse { messages, next_cursor }),
        },
    }
}

} // verus!
