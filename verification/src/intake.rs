//! The intake of requester-facing channels: every request is bound to one requester.

use vstd::prelude::*;
use vstd::string::*;

use crate::access;
use crate::access::allowed_caller;
use crate::command;
use crate::command::{Change, ChangeView, Command, CommandView, DecisionView, Drawn};
use crate::cursor::{parse_optional_message_cursor, MessageCursor};
use crate::errors::{storage_runtime, StorageError, StorageErrorView};
use crate::failures;
use crate::failures::{
    map_intake_message_failure, map_intake_open_failure, AppendChannelMessageError,
    GetRequesterCaseError, ListRequesterMessagesError, OpenCaseFromChannelError,
};
use crate::fault::{CallError, CallErrorView};
use crate::model;
use crate::model::{
    priority_text, CaseRecord, CaseView, EntryView, MessageRecord, MessageView, PayloadEntry,
    Priority, ResponseView,
};
use crate::outside;
use crate::outside::parse_uuid;
use crate::paging;
use crate::reads;
use crate::reads::{
    case_key, message_page, CaseQuery, CaseQueryView, MessageQuery, MessageQueryView,
};
use crate::requests;
use crate::requests::MAX_PAGE;
use crate::responses;
use crate::responses::{
    requester_case_value, requester_list_message_value, requester_message_value,
    serialization_runtime, RequesterCaseResponse, RequesterItemView, RequesterMessageItem,
    RequesterMessageResponse, WireError, WireErrorView,
};
use crate::rows;
use crate::rows::CaseRow;
use crate::service;
use crate::service::{answered_case, answered_message, PageView};
use crate::text;
use crate::transaction::Answer;
use crate::validate;
use crate::validate::{
    parse_mutation_request, valid_case_ref, valid_idempotency_key, valid_opaque_id, valid_text,
    MAX_DESCRIPTION_BYTES, MAX_IDEMPOTENCY_BYTES, MAX_ID_BYTES, MAX_MESSAGE_BYTES, MAX_TITLE_BYTES,
};
use crate::wire;
use crate::wire::{request_hash, text_entry};

verus! {

/// Opens a case for a requester.
#[derive(Debug, Eq, PartialEq)]
pub struct OpenCaseFromChannelRequest {
    pub description: String,
    pub idempotency_key: String,
    pub organization_id: String,
    pub priority: Priority,
    pub requester_subject: String,
    pub title: String,
}

/// Adds a public message of a requester.
#[derive(Debug, Eq, PartialEq)]
pub struct AppendChannelMessageRequest {
    pub body: String,
    pub case_ref: String,
    pub expected_revision: String,
    pub idempotency_key: String,
    pub organization_id: String,
    pub requester_subject: String,
}

/// Reads a case of a requester.
#[derive(Debug, Eq, PartialEq)]
pub struct GetRequesterCaseRequest {
    pub case_ref: String,
    pub organization_id: String,
    pub requester_subject: String,
}

/// Lists the public messages of a requester's case.
#[derive(Debug, Eq, PartialEq)]
pub struct ListRequesterMessagesRequest {
    pub case_ref: String,
    pub cursor: Option<String>,
    pub limit: i64,
    pub organization_id: String,
    pub requester_subject: String,
}

/// Whether a call comes from one of the exact callers allowed.
pub open spec fn caller_allowed(allowed: Seq<String>, caller: Option<&str>) -> bool {
    caller matches Some(name) && access::names_caller(allowed, name@)
}

// ---- Opening a case ----

/// The members of the request's JSON.
pub open spec fn open_entries(request: OpenCaseFromChannelRequest) -> Seq<EntryView> {
    seq![
        EntryView { key: "description"@, value: Some(request.description@) },
        EntryView { key: "idempotency_key"@, value: Some(request.idempotency_key@) },
        EntryView { key: "organization_id"@, value: Some(request.organization_id@) },
        EntryView { key: "priority"@, value: Some(model::priority_name(request.priority)) },
        EntryView { key: "requester_subject"@, value: Some(request.requester_subject@) },
        EntryView { key: "title"@, value: Some(request.title@) },
    ]
}

fn open_hash(request: &OpenCaseFromChannelRequest) -> (hash: Vec<u8>)
    ensures
        hash@ == wire::fingerprint(open_entries(*request)),
{
    let mut entries: Vec<PayloadEntry> = Vec::new();
    entries.push(text_entry("description", request.description.as_str()));
    entries.push(text_entry("idempotency_key", request.idempotency_key.as_str()));
    entries.push(text_entry("organization_id", request.organization_id.as_str()));
    entries.push(text_entry("priority", priority_text(request.priority)));
    entries.push(text_entry("requester_subject", request.requester_subject.as_str()));
    entries.push(text_entry("title", request.title.as_str()));
    assert(model::entries_view(entries@) =~= open_entries(*request));
    request_hash(&entries)
}

/// Whether the request obeys its rules.
pub open spec fn open_valid(request: OpenCaseFromChannelRequest) -> bool {
    &&& validate::opaque_id(request.organization_id@, MAX_ID_BYTES as nat)
    &&& validate::opaque_id(request.requester_subject@, MAX_ID_BYTES as nat)
    &&& validate::plain_text(request.title@, MAX_TITLE_BYTES as nat, false)
    &&& validate::plain_text(request.description@, MAX_DESCRIPTION_BYTES as nat, true)
    &&& validate::opaque_id(request.idempotency_key@, MAX_IDEMPOTENCY_BYTES as nat)
}

/// Admits the request: it becomes the command that opens the requester's case.
pub fn open_case_from_channel(
    allowed: &Vec<String>,
    caller: Option<&str>,
    request: OpenCaseFromChannelRequest,
) -> (result: Result<Command, OpenCaseFromChannelError>)
    ensures
        if !caller_allowed(allowed@, caller) {
            result == Err::<Command, _>(OpenCaseFromChannelError::Forbidden)
        } else if !open_valid(request) {
            result == Err::<Command, _>(OpenCaseFromChannelError::InvalidRequest)
        } else {
            result matches Ok(command) && command@ == (CommandView {
                caller: caller->0@,
                idempotency_key: request.idempotency_key@,
                request_hash: wire::fingerprint(open_entries(request)),
                organization_id: request.organization_id@,
                actor: request.requester_subject@,
                change: ChangeView::Create {
                    title: request.title@,
                    description: request.description@,
                    priority: model::priority_name(request.priority),
                },
            })
        },
{
    let caller = match allowed_caller(caller, allowed) {
        Some(caller) => caller,
        None => {
            return Err(OpenCaseFromChannelError::Forbidden);
        },
    };
    if !valid_opaque_id(request.organization_id.as_str(), MAX_ID_BYTES) || !valid_opaque_id(
        request.requester_subject.as_str(),
        MAX_ID_BYTES,
    ) || !valid_text(request.title.as_str(), MAX_TITLE_BYTES, false) || !valid_text(
        request.description.as_str(),
        MAX_DESCRIPTION_BYTES,
        true,
    ) || !valid_idempotency_key(request.idempotency_key.as_str()) {
        return Err(OpenCaseFromChannelError::InvalidRequest);
    }
    let request_hash = open_hash(&request);
    Ok(
        Command {
            caller,
            idempotency_key: request.idempotency_key,
            request_hash,
            organization_id: request.organization_id,
            actor: request.requester_subject,
            change: Change::Create {
                title: request.title,
                description: request.description,
                priority: priority_text(request.priority).to_owned(),
            },
        },
    )
}

/// What the channel is answered once the command has run.
pub fn opened_case<F>(outcome: Result<Answer, StorageError>) -> (result: Result<
    RequesterCaseResponse,
    CallError<OpenCaseFromChannelError, F>,
>)
    ensures
        rows::viewed(result) == match service::case_answer(rows::viewed(outcome)) {
            Err(error) => Err(service::storage_fault::<OpenCaseFromChannelError, F>(error)),
            Ok(Err(failure)) => Err(CallErrorView::Domain(failures::intake_open_failure(failure))),
            Ok(Ok(case)) => match responses::requester_case_on_wire(case) {
                Err(error) => Err(service::wire_fault::<OpenCaseFromChannelError, F>(error)),
                Ok(response) => Ok(response),
            },
        },
{
    match answered_case(outcome) {
        Err(error) => Err(CallError::Runtime(storage_runtime(&error))),
        Ok(Err(failure)) => Err(CallError::Domain(map_intake_open_failure(failure))),
        Ok(Ok(record)) => match requester_case_value(&record) {
            Ok(response) => Ok(response),
            Err(error) => Err(CallError::Runtime(serialization_runtime(&error))),
        },
    }
}

// ---- Adding a message ----

/// The members of the fingerprint of a channel message. The revision guards the
/// first attempt only: a retry reads the current one, and still is the same message.
pub open spec fn channel_message_entries(request: AppendChannelMessageRequest) -> Seq<EntryView> {
    seq![
        EntryView { key: "body"@, value: Some(request.body@) },
        EntryView { key: "case_ref"@, value: Some(request.case_ref@) },
        EntryView { key: "organization_id"@, value: Some(request.organization_id@) },
        EntryView { key: "requester_subject"@, value: Some(request.requester_subject@) },
    ]
}

fn channel_message_hash(request: &AppendChannelMessageRequest) -> (hash: Vec<u8>)
    ensures
        hash@ == wire::fingerprint(channel_message_entries(*request)),
{
    let mut entries: Vec<PayloadEntry> = Vec::new();
    entries.push(text_entry("body", request.body.as_str()));
    entries.push(text_entry("case_ref", request.case_ref.as_str()));
    entries.push(text_entry("organization_id", request.organization_id.as_str()));
    entries.push(text_entry("requester_subject", request.requester_subject.as_str()));
    assert(model::entries_view(entries@) =~= channel_message_entries(*request));
    request_hash(&entries)
}

/// Whether the request obeys its rules.
pub open spec fn append_valid(request: AppendChannelMessageRequest) -> bool {
    &&& validate::mutation_revision(
        request.organization_id@,
        request.case_ref@,
        request.expected_revision@,
        request.idempotency_key@,
    ) is Some
    &&& validate::opaque_id(request.requester_subject@, MAX_ID_BYTES as nat)
    &&& validate::plain_text(request.body@, MAX_MESSAGE_BYTES as nat, false)
}

/// The command that adds a public message in the requester's name.
pub open spec fn channel_command(
    caller: Seq<char>,
    request: AppendChannelMessageRequest,
) -> CommandView {
    CommandView {
        caller,
        idempotency_key: request.idempotency_key@,
        request_hash: wire::fingerprint(channel_message_entries(request)),
        organization_id: request.organization_id@,
        actor: request.requester_subject@,
        change: ChangeView::AddMessage {
            case_id: outside::uuid_of(request.case_ref@)->0,
            expected_revision: validate::mutation_revision(
                request.organization_id@,
                request.case_ref@,
                request.expected_revision@,
                request.idempotency_key@,
            )->0,
            can_comment_all: false,
            visibility: "public"@,
            body: request.body@,
        },
    }
}

/// Admits the request: it becomes the command that adds a public message in the
/// requester's name, to a case that the requester is related to.
pub fn append_channel_message(
    allowed: &Vec<String>,
    caller: Option<&str>,
    request: AppendChannelMessageRequest,
) -> (result: Result<Command, AppendChannelMessageError>)
    ensures
        if !caller_allowed(allowed@, caller) {
            result == Err::<Command, _>(AppendChannelMessageError::Forbidden)
        } else if !append_valid(request) {
            result == Err::<Command, _>(AppendChannelMessageError::InvalidRequest)
        } else {
            result matches Ok(command) && command@ == channel_command(caller->0@, request)
        },
{
    let caller = match allowed_caller(caller, allowed) {
        Some(caller) => caller,
        None => {
            return Err(AppendChannelMessageError::Forbidden);
        },
    };
    let expected_revision: i64 = match parse_mutation_request(
        request.organization_id.as_str(),
        request.case_ref.as_str(),
        request.expected_revision.as_str(),
        request.idempotency_key.as_str(),
    ) {
        Some(revision) => revision,
        None => {
            return Err(AppendChannelMessageError::InvalidRequest);
        },
    };
    if !valid_opaque_id(request.requester_subject.as_str(), MAX_ID_BYTES) || !valid_text(
        request.body.as_str(),
        MAX_MESSAGE_BYTES,
        false,
    ) {
        return Err(AppendChannelMessageError::InvalidRequest);
    }
    let case_id: u128 = match parse_uuid(request.case_ref.as_str()) {
        Some(id) => id,
        None => {
            return Err(AppendChannelMessageError::InvalidRequest);
        },
    };
    let request_hash = channel_message_hash(&request);
    Ok(
        Command {
            caller,
            idempotency_key: request.idempotency_key,
            request_hash,
            organization_id: request.organization_id,
            actor: request.requester_subject,
            change: Change::AddMessage {
                case_id,
                expected_revision,
                can_comment_all: false,
                visibility: "public".to_owned(),
                body: request.body,
            },
        },
    )
}

/// What the channel is answered once the command has run.
pub fn appended_message<F>(outcome: Result<Answer, StorageError>) -> (result: Result<
    RequesterMessageResponse,
    CallError<AppendChannelMessageError, F>,
>)
    ensures
        rows::viewed(result) == match service::message_answer(rows::viewed(outcome)) {
            Err(error) => Err(service::storage_fault::<AppendChannelMessageError, F>(error)),
            Ok(Err(failure)) => Err(
                CallErrorView::Domain(failures::intake_message_failure(failure)),
            ),
            Ok(Ok(message)) => match responses::requester_message_on_wire(message) {
                Err(error) => Err(service::wire_fault::<AppendChannelMessageError, F>(error)),
                Ok(response) => Ok(response),
            },
        },
{
    match answered_message(outcome) {
        Err(error) => Err(CallError::Runtime(storage_runtime(&error))),
        Ok(Err(failure)) => Err(CallError::Domain(map_intake_message_failure(failure))),
        Ok(Ok(record)) => match requester_message_value(&record) {
            Ok(response) => Ok(response),
            Err(error) => Err(CallError::Runtime(serialization_runtime(&error))),
        },
    }
}

// ---- Reading a case ----

/// Whether the request obeys its rules.
pub open spec fn get_valid(request: GetRequesterCaseRequest) -> bool {
    &&& validate::opaque_id(request.organization_id@, MAX_ID_BYTES as nat)
    &&& validate::opaque_id(request.requester_subject@, MAX_ID_BYTES as nat)
    &&& validate::case_reference(request.case_ref@)
}

/// The query for a case in the requester's name.
pub open spec fn requester_case_query(request: GetRequesterCaseRequest) -> CaseQueryView {
    CaseQueryView {
        organization_id: request.organization_id@,
        key: reads::key_of(request.case_ref@),
        actor: request.requester_subject@,
        can_read_all: false,
    }
}

/// Admits the request: it becomes a query that sees only cases related to the
/// requester.
pub fn get_requester_case(
    allowed: &Vec<String>,
    caller: Option<&str>,
    request: GetRequesterCaseRequest,
) -> (result: Result<CaseQuery, GetRequesterCaseError>)
    ensures
        if !caller_allowed(allowed@, caller) {
            result == Err::<CaseQuery, _>(GetRequesterCaseError::Forbidden)
        } else if !get_valid(request) {
            result == Err::<CaseQuery, _>(GetRequesterCaseError::InvalidRequest)
        } else {
            result matches Ok(query) && query@ == requester_case_query(request)
        },
{
    if allowed_caller(caller, allowed).is_none() {
        return Err(GetRequesterCaseError::Forbidden);
    }
    if !valid_opaque_id(request.organization_id.as_str(), MAX_ID_BYTES) || !valid_opaque_id(
        request.requester_subject.as_str(),
        MAX_ID_BYTES,
    ) || !valid_case_ref(request.case_ref.as_str()) {
        return Err(GetRequesterCaseError::InvalidRequest);
    }
    Ok(
        CaseQuery {
            organization_id: request.organization_id,
            key: case_key(request.case_ref.as_str()),
            actor: request.requester_subject,
            can_read_all: false,
        },
    )
}

/// What the channel is answered once the case is looked up.
pub fn found_requester_case<F>(found: Result<Option<CaseRecord>, StorageError>) -> (result: Result<
    RequesterCaseResponse,
    CallError<GetRequesterCaseError, F>,
>)
    ensures
        rows::viewed(result) == match reads::read_view(found) {
            Err(error) => Err(service::storage_fault::<GetRequesterCaseError, F>(error)),
            Ok(None) => Err(CallErrorView::Domain(GetRequesterCaseError::CaseNotFound)),
            Ok(Some(case)) => match responses::requester_case_on_wire(case) {
                Err(error) => Err(service::wire_fault::<GetRequesterCaseError, F>(error)),
                Ok(response) => Ok(response),
            },
        },
{
    match found {
        Err(error) => Err(CallError::Runtime(storage_runtime(&error))),
        Ok(None) => Err(CallError::Domain(GetRequesterCaseError::CaseNotFound)),
        Ok(Some(record)) => match requester_case_value(&record) {
            Ok(response) => Ok(response),
            Err(error) => Err(CallError::Runtime(serialization_runtime(&error))),
        },
    }
}

// ---- Listing messages ----

/// Whether the request obeys its rules.
pub open spec fn list_valid(request: ListRequesterMessagesRequest) -> bool {
    &&& requests::optional_cursor(request.cursor)
    &&& validate::opaque_id(request.organization_id@, MAX_ID_BYTES as nat)
    &&& validate::opaque_id(request.requester_subject@, MAX_ID_BYTES as nat)
    &&& 1 <= request.limit <= MAX_PAGE
    &&& outside::uuid_of(request.case_ref@) is Some
}

/// The query for messages in the requester's name, behind a cursor.
pub open spec fn requester_message_query(
    request: ListRequesterMessagesRequest,
    cursor: Option<MessageCursor>,
) -> MessageQueryView {
    MessageQueryView {
        organization_id: request.organization_id@,
        case_id: outside::uuid_of(request.case_ref@)->0,
        actor: request.requester_subject@,
        can_read_all: false,
        can_read_internal: false,
        cursor,
        limit: (request.limit + 1) as i64,
    }
}

/// Admits the request: it becomes a query for the public messages of a case that is
/// related to the requester.
pub fn list_requester_messages(
    allowed: &Vec<String>,
    caller: Option<&str>,
    request: &ListRequesterMessagesRequest,
) -> (result: Result<MessageQuery, ListRequesterMessagesError>)
    ensures
        if !caller_allowed(allowed@, caller) {
            result == Err::<MessageQuery, _>(ListRequesterMessagesError::Forbidden)
        } else if !list_valid(*request) {
            result == Err::<MessageQuery, _>(ListRequesterMessagesError::InvalidRequest)
        } else {
            &&& result matches Ok(query)
            &&& query@ == requester_message_query(*request, query.cursor)
            &&& requests::optional_place(request.cursor) == match query.cursor {
                Some(place) => Some((place.created_at as int, place.message_id)),
                None => None,
            }
        },
{
    if allowed_caller(caller, allowed).is_none() {
        return Err(ListRequesterMessagesError::Forbidden);
    }
    let cursor = match parse_optional_message_cursor(&request.cursor) {
        Ok(cursor) => cursor,
        Err(()) => {
            return Err(ListRequesterMessagesError::InvalidRequest);
        },
    };
    if !valid_opaque_id(request.organization_id.as_str(), MAX_ID_BYTES) || !valid_opaque_id(
        request.requester_subject.as_str(),
        MAX_ID_BYTES,
    ) || !(1 <= request.limit && request.limit <= MAX_PAGE) {
        return Err(ListRequesterMessagesError::InvalidRequest);
    }
    let case_id: u128 = match parse_uuid(request.case_ref.as_str()) {
        Some(id) => id,
        None => {
            return Err(ListRequesterMessagesError::InvalidRequest);
        },
    };
    Ok(
        MessageQuery {
            organization_id: request.organization_id.clone(),
            case_id,
            actor: request.requester_subject.clone(),
            can_read_all: false,
            can_read_internal: false,
            cursor,
            limit: request.limit + 1,
        },
    )
}

/// One page of a requester's messages.
#[derive(Debug, Eq, PartialEq)]
pub struct ListRequesterMessagesResponse {
    pub messages: Vec<RequesterMessageItem>,
    pub next_cursor: Option<String>,
}

impl View for ListRequesterMessagesResponse {
    type V = PageView<RequesterItemView>;

    open spec fn view(&self) -> PageView<RequesterItemView> {
        PageView {
            items: self.messages@.map_values(|shown: RequesterMessageItem| shown@),
            next_cursor: text::optional_text(self.next_cursor),
        }
    }
}

/// How a requester sees a listed message.
pub open spec fn requester_wire() -> spec_fn(MessageView) -> Result<RequesterItemView, WireErrorView> {
    |record: MessageView| responses::requester_item_on_wire(record)
}

/// What a requester sees of listed messages, or the first that cannot be shown.
pub open spec fn requester_items_on_wire(records: Seq<MessageView>) -> Result<Seq<RequesterItemView>, WireErrorView> {
    responses::all_on_wire(records, requester_wire())
}

fn show_requester_items(records: &Vec<MessageRecord>) -> (result: Result<Vec<RequesterMessageItem>, WireError>)
    ensures
        requester_items_on_wire(reads::message_views(records@)) == match result {
            Ok(shown) => Ok(shown@.map_values(|shown: RequesterMessageItem| shown@)),
            Err(error) => Err(error@),
        },
{
    let ghost views = reads::message_views(records@);
    let mut shown: Vec<RequesterMessageItem> = Vec::new();
    let mut index: usize = 0;
    assert(views.take(0) =~= Seq::empty());
    assert(shown@.map_values(|shown: RequesterMessageItem| shown@) =~= Seq::empty());
    while index < records.len()
        invariant
            index <= records@.len(),
            views == reads::message_views(records@),
            requester_items_on_wire(views.take(index as int)) == Ok::<_, WireErrorView>(
                shown@.map_values(|shown: RequesterMessageItem| shown@),
            ),
        decreases records@.len() - index,
    {
        proof {
            assert(views.take(index + 1).drop_last() =~= views.take(index as int));
            assert(views.take(index + 1).last() == records@[index as int]@);
            if requester_items_on_wire(views.take(index + 1)) is Err {
                responses::lemma_wire_failure_stays(views, requester_wire(), index + 1);
            }
        }
        let response = requester_list_message_value(&records[index])?;
        let ghost before = shown@.map_values(|shown: RequesterMessageItem| shown@);
        shown.push(response);
        assert(shown@.map_values(|shown: RequesterMessageItem| shown@) =~= before.push(response@));
        index += 1;
    }
    assert(views.take(index as int) =~= views);
    Ok(shown)
}

/// What the channel is answered, given the messages found, if the requester sees the
/// case at all.
pub open spec fn requester_messages_answer<F>(
    limit: int,
    found: Result<Option<Seq<MessageView>>, StorageErrorView>,
) -> Result<PageView<RequesterItemView>, CallErrorView<ListRequesterMessagesError, F>> {
    match found {
        Err(error) => Err(service::storage_fault(error)),
        Ok(None) => Err(CallErrorView::Domain(ListRequesterMessagesError::CaseNotFound)),
        Ok(Some(messages)) => service::page_answer(
            limit,
            messages,
            paging::message_order(),
            requester_wire(),
        ),
    }
}

/// What the channel is answered once the messages are read: a page, with the cursor
/// of the next one where there is more.
pub fn found_requester_messages<F>(
    limit: i64,
    found: Result<Option<Vec<MessageRecord>>, StorageError>,
) -> (result: Result<
    ListRequesterMessagesResponse,
    CallError<ListRequesterMessagesError, F>,
>)
    requires
        limit >= 1,
    ensures
        rows::viewed(result) == requester_messages_answer::<F>(
            limit as int,
            reads::optional_messages_view(found),
        ),
        result matches Ok(response) ==> service::leads_on(
            limit as int,
            reads::message_views((found->Ok_0->0)@),
            paging::message_order(),
            response@.next_cursor,
        ),
{
    let records = match found {
        Err(error) => {
            return Err(CallError::Runtime(storage_runtime(&error)));
        },
        Ok(None) => {
            return Err(CallError::Domain(ListRequesterMessagesError::CaseNotFound));
        },
        Ok(Some(records)) => records,
    };
    proof {
        service::lemma_page_views(records@, |record: MessageRecord| record@, limit as int);
    }
    match message_page(records, limit) {
        Err(error) => Err(CallError::Runtime(storage_runtime(&error))),
        Ok((page, next_cursor)) => match show_requester_items(&page) {
            Err(error) => Err(CallError::Runtime(serialization_runtime(&error))),
            Ok(messages) => Ok(ListRequesterMessagesResponse { messages, next_cursor }),
        },
    }
}

/// A retry of a channel message that only reads a newer revision is the same
/// message: both have one fingerprint.
pub proof fn law_fingerprint_ignores_the_revision(
    first: AppendChannelMessageRequest,
    retry: AppendChannelMessageRequest,
)
    requires
        first.body@ == retry.body@,
        first.case_ref@ == retry.case_ref@,
        first.organization_id@ == retry.organization_id@,
        first.requester_subject@ == retry.requester_subject@,
    ensures
        wire::fingerprint(channel_message_entries(first)) == wire::fingerprint(
            channel_message_entries(retry),
        ),
{
    assert(channel_message_entries(first) =~= channel_message_entries(retry));
}

/// Whatever row a channel's query finds, what is read of it is a case related to the
/// requester.
pub proof fn law_requesters_read_related_cases_only(
    request: GetRequesterCaseRequest,
    row: Option<CaseRow>,
    case: CaseView,
)
    requires
        ({
            let query = requester_case_query(request);
            reads::case_seen(row, query.actor, query.can_read_all) == Ok::<_, StorageErrorView>(
                Some(case),
            )
        }),
    ensures
        model::related(case, request.requester_subject@),
{
}

/// Whatever row a channel's command locks, what it writes goes into a case related to
/// the requester, as a public message of the requester.
pub proof fn law_requesters_write_in_related_cases_only(
    caller: Seq<char>,
    request: AppendChannelMessageRequest,
    row: CaseRow,
    drawn: Drawn,
    now: i128,
)
    requires
        command::change_decision(channel_command(caller, request), Some(row), drawn, now) matches Ok(
            DecisionView::Write(_),
        ),
    ensures
        rows::case_in(row) matches Ok(current) && model::related(
            current,
            request.requester_subject@,
        ),
        command::change_decision(channel_command(caller, request), Some(row), drawn, now) matches Ok(
            DecisionView::Write(plan),
        ) && plan.response matches ResponseView::Message(message) && message.visibility
            == "public"@ && message.author_subject == request.requester_subject@,
{
}

/// A requester is listed public messages only.
pub proof fn law_requesters_are_listed_public_messages_only(
    request: ListRequesterMessagesRequest,
    cursor: Option<MessageCursor>,
    message: MessageView,
)
    requires
        paging::lists_message(requester_message_query(request, cursor), message),
    ensures
        message.visibility == "public"@,
{
}

} // verus!
