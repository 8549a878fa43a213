//! What callers get to see of cases and messages.

use vstd::prelude::*;
use vstd::string::*;

use crate::decimal;
use crate::decimal::format_integer;
use crate::fault::{Fault, FaultView};
use crate::lifecycle;
use crate::lifecycle::{parse_priority, parse_state, parse_visibility};
use crate::model::{CaseRecord, CaseState, CaseView, MessageRecord, MessageView, Priority, Visibility};
use crate::outside;
use crate::outside::{format_instant, format_uuid};
use crate::rows;
use crate::text;

verus! {

/// A case as the back office sees it.
#[derive(Debug, Eq, PartialEq)]
pub struct CaseResponse {
    pub assignee_subject: Option<String>,
    pub case_id: String,
    pub closed_at: Option<String>,
    pub created_at: String,
    pub creator_subject: String,
    pub description: String,
    pub identifier: String,
    pub organization_id: String,
    pub priority: Priority,
    pub requester_subject: String,
    pub resolved_at: Option<String>,
    pub revision: String,
    pub state: CaseState,
    pub title: String,
    pub updated_at: String,
}

/// The view of a case as the back office sees it.
#[verifier::ext_equal]
pub struct CaseResponseView {
    pub assignee_subject: Option<Seq<char>>,
    pub case_id: Seq<char>,
    pub closed_at: Option<Seq<char>>,
    pub created_at: Seq<char>,
    pub creator_subject: Seq<char>,
    pub description: Seq<char>,
    pub identifier: Seq<char>,
    pub organization_id: Seq<char>,
    pub priority: Priority,
    pub requester_subject: Seq<char>,
    pub resolved_at: Option<Seq<char>>,
    pub revision: Seq<char>,
    pub state: CaseState,
    pub title: Seq<char>,
    pub updated_at: Seq<char>,
}

impl View for CaseResponse {
    type V = CaseResponseView;

    open spec fn view(&self) -> CaseResponseView {
        CaseResponseView {
            assignee_subject: text::optional_text(self.assignee_subject),
            case_id: self.case_id@,
            closed_at: text::optional_text(self.closed_at),
            created_at: self.created_at@,
            creator_subject: self.creator_subject@,
            description: self.description@,
            identifier: self.identifier@,
            organization_id: self.organization_id@,
            priority: self.priority,
            requester_subject: self.requester_subject@,
            resolved_at: text::optional_text(self.resolved_at),
            revision: self.revision@,
            state: self.state,
            title: self.title@,
            updated_at: self.updated_at@,
        }
    }
}

/// A case as its requester sees it: without creator, assignee and the times of its
/// resolution.
#[derive(Debug, Eq, PartialEq)]
pub struct RequesterCaseResponse {
    pub case_id: String,
    pub created_at: String,
    pub description: String,
    pub identifier: String,
    pub organization_id: String,
    pub priority: Priority,
    pub requester_subject: String,
    pub revision: String,
    pub state: CaseState,
    pub title: String,
    pub updated_at: String,
}

/// The view of a case as its requester sees it.
#[verifier::ext_equal]
pub struct RequesterCaseView {
    pub case_id: Seq<char>,
    pub created_at: Seq<char>,
    pub description: Seq<char>,
    pub identifier: Seq<char>,
    pub organization_id: Seq<char>,
    pub priority: Priority,
    pub requester_subject: Seq<char>,
    pub revision: Seq<char>,
    pub state: CaseState,
    pub title: Seq<char>,
    pub updated_at: Seq<char>,
}

impl View for RequesterCaseResponse {
    type V = RequesterCaseView;

    open spec fn view(&self) -> RequesterCaseView {
        RequesterCaseView {
            case_id: self.case_id@,
            created_at: self.created_at@,
            description: self.description@,
            identifier: self.identifier@,
            organization_id: self.organization_id@,
            priority: self.priority,
            requester_subject: self.requester_subject@,
            revision: self.revision@,
            state: self.state,
            title: self.title@,
            updated_at: self.updated_at@,
        }
    }
}

/// A message as the back office sees it when it is added.
#[derive(Debug, Eq, PartialEq)]
pub struct MessageResponse {
    pub author_subject: String,
    pub body: String,
    pub case_id: String,
    pub case_revision: String,
    pub created_at: String,
    pub message_id: String,
    pub visibility: Visibility,
}

/// The view of an added message.
#[verifier::ext_equal]
pub struct MessageResponseView {
    pub author_subject: Seq<char>,
    pub body: Seq<char>,
    pub case_id: Seq<char>,
    pub case_revision: Seq<char>,
    pub created_at: Seq<char>,
    pub message_id: Seq<char>,
    pub visibility: Visibility,
}

impl View for MessageResponse {
    type V = MessageResponseView;

    open spec fn view(&self) -> MessageResponseView {
        MessageResponseView {
            author_subject: self.author_subject@,
            body: self.body@,
            case_id: self.case_id@,
            case_revision: self.case_revision@,
            created_at: self.created_at@,
            message_id: self.message_id@,
            visibility: self.visibility,
        }
    }
}

/// A message in a list of the back office.
#[derive(Debug, Eq, PartialEq)]
pub struct MessageItem {
    pub author_subject: String,
    pub body: String,
    pub case_id: String,
    pub created_at: String,
    pub message_id: String,
    pub visibility: Visibility,
}

/// The view of a listed message.
#[verifier::ext_equal]
pub struct MessageItemView {
    pub author_subject: Seq<char>,
    pub body: Seq<char>,
    pub case_id: Seq<char>,
    pub created_at: Seq<char>,
    pub message_id: Seq<char>,
    pub visibility: Visibility,
}

impl View for MessageItem {
    type V = MessageItemView;

    open spec fn view(&self) -> MessageItemView {
        MessageItemView {
            author_subject: self.author_subject@,
            body: self.body@,
            case_id: self.case_id@,
            created_at: self.created_at@,
            message_id: self.message_id@,
            visibility: self.visibility,
        }
    }
}

/// A message as the requester sees it when it is added.
#[derive(Debug, Eq, PartialEq)]
pub struct RequesterMessageResponse {
    pub author_subject: String,
    pub body: String,
    pub case_id: String,
    pub case_revision: String,
    pub created_at: String,
    pub message_id: String,
}

/// The view of a message that a requester added.
#[verifier::ext_equal]
pub struct RequesterMessageView {
    pub author_subject: Seq<char>,
    pub body: Seq<char>,
    pub case_id: Seq<char>,
    pub case_revision: Seq<char>,
    pub created_at: Seq<char>,
    pub message_id: Seq<char>,
}

impl View for RequesterMessageResponse {
    type V = RequesterMessageView;

    open spec fn view(&self) -> RequesterMessageView {
        RequesterMessageView {
            author_subject: self.author_subject@,
            body: self.body@,
            case_id: self.case_id@,
            case_revision: self.case_revision@,
            created_at: self.created_at@,
            message_id: self.message_id@,
        }
    }
}

/// A message in a list of its requester.
#[derive(Debug, Eq, PartialEq)]
pub struct RequesterMessageItem {
    pub author_subject: String,
    pub body: String,
    pub case_id: String,
    pub created_at: String,
    pub message_id: String,
}

/// The view of a message in a list of its requester.
#[verifier::ext_equal]
pub struct RequesterItemView {
    pub author_subject: Seq<char>,
    pub body: Seq<char>,
    pub case_id: Seq<char>,
    pub created_at: Seq<char>,
    pub message_id: Seq<char>,
}

impl View for RequesterMessageItem {
    type V = RequesterItemView;

    open spec fn view(&self) -> RequesterItemView {
        RequesterItemView {
            author_subject: self.author_subject@,
            body: self.body@,
            case_id: self.case_id@,
            created_at: self.created_at@,
            message_id: self.message_id@,
        }
    }
}

/// Why a record cannot be put on the wire.
#[derive(Debug, Eq, PartialEq)]
pub enum WireError {
    UnwrittenTime,
    UnknownPriority(String),
    UnknownState(String),
    UnknownVisibility(String),
}

/// The view of a wire error.
#[verifier::ext_equal]
pub enum WireErrorView {
    UnwrittenTime,
    UnknownPriority(Seq<char>),
    UnknownState(Seq<char>),
    UnknownVisibility(Seq<char>),
}

impl View for WireError {
    type V = WireErrorView;

    open spec fn view(&self) -> WireErrorView {
        match self {
            WireError::UnwrittenTime => WireErrorView::UnwrittenTime,
            WireError::UnknownPriority(name) => WireErrorView::UnknownPriority(name@),
            WireError::UnknownState(name) => WireErrorView::UnknownState(name@),
            WireError::UnknownVisibility(name) => WireErrorView::UnknownVisibility(name@),
        }
    }
}

/// What a wire error says.
pub open spec fn wire_text(error: WireErrorView) -> Seq<char> {
    match error {
        WireErrorView::UnwrittenTime =>
            "The year component cannot be formatted into the requested format."@,
        WireErrorView::UnknownPriority(name) => "unknown variant `"@ + name
            + "`, expected one of `low`, `normal`, `high`, `urgent`"@,
        WireErrorView::UnknownState(name) => "unknown variant `"@ + name
            + "`, expected one of `open`, `in_progress`, `waiting_customer`, `resolved`, `closed`"@,
        WireErrorView::UnknownVisibility(name) => "unknown variant `"@ + name
            + "`, expected `public` or `internal`"@,
    }
}

impl WireError {
    /// The message of the error.
    pub fn text(&self) -> (result: String)
        ensures
            result@ == wire_text(self@),
    {
        match self {
            WireError::UnwrittenTime =>
                "The year component cannot be formatted into the requested format.".to_owned(),
            WireError::UnknownPriority(name) => Self::unknown(
                name,
                "`, expected one of `low`, `normal`, `high`, `urgent`",
            ),
            WireError::UnknownState(name) => Self::unknown(
                name,
                "`, expected one of `open`, `in_progress`, `waiting_customer`, `resolved`, `closed`",
            ),
            WireError::UnknownVisibility(name) => Self::unknown(
                name,
                "`, expected `public` or `internal`",
            ),
        }
    }

    fn unknown(name: &String, expected: &str) -> (result: String)
        ensures
            result@ == "unknown variant `"@ + name@ + expected@,
    {
        let mut result = "unknown variant `".to_owned();
        result.append(name.as_str());
        result.append(expected);
        result
    }
}

/// A record that cannot be put on the wire is an internal failure.
pub fn serialization_runtime<F>(error: &WireError) -> (fault: Fault<F>)
    ensures
        fault@ == FaultView::<F>::Internal(
            "Support Case wire serialization failed: "@ + wire_text(error@),
        ),
{
    let mut detail = "Support Case wire serialization failed: ".to_owned();
    detail.append(error.text().as_str());
    Fault::Internal { detail }
}

/// Whether an optional instant can be written.
pub open spec fn optional_written(instant: Option<i128>) -> bool {
    instant matches Some(value) ==> outside::written_instant(value as int)
}

/// The text of an optional instant.
pub open spec fn optional_time(instant: Option<i128>) -> Option<Seq<char>> {
    match instant {
        Some(value) => Some(outside::rfc3339_text(value as int)),
        None => None,
    }
}

/// Whether every time of a case can be written.
pub open spec fn times_written(case: CaseView) -> bool {
    &&& outside::written_instant(case.created_at as int)
    &&& outside::written_instant(case.updated_at as int)
    &&& optional_written(case.resolved_at)
    &&& optional_written(case.closed_at)
}

/// What the back office sees of a case.
pub open spec fn case_on_wire(case: CaseView) -> Result<CaseResponseView, WireErrorView> {
    if !times_written(case) {
        Err(WireErrorView::UnwrittenTime)
    } else if lifecycle::priority_named(case.priority) is None {
        Err(WireErrorView::UnknownPriority(case.priority))
    } else if lifecycle::state_named(case.state) is None {
        Err(WireErrorView::UnknownState(case.state))
    } else {
        Ok(
            CaseResponseView {
                assignee_subject: case.assignee_subject,
                case_id: outside::uuid_text(case.case_id),
                closed_at: optional_time(case.closed_at),
                created_at: outside::rfc3339_text(case.created_at as int),
                creator_subject: case.creator_subject,
                description: case.description,
                identifier: case.identifier,
                organization_id: case.organization_id,
                priority: lifecycle::priority_named(case.priority)->0,
                requester_subject: case.requester_subject,
                resolved_at: optional_time(case.resolved_at),
                revision: decimal::integer_text(case.revision as int),
                state: lifecycle::state_named(case.state)->0,
                title: case.title,
                updated_at: outside::rfc3339_text(case.updated_at as int),
            },
        )
    }
}

/// The part of a case that its requester sees.
pub open spec fn requester_part(case: CaseResponseView) -> RequesterCaseView {
    RequesterCaseView {
        case_id: case.case_id,
        created_at: case.created_at,
        description: case.description,
        identifier: case.identifier,
        organization_id: case.organization_id,
        priority: case.priority,
        requester_subject: case.requester_subject,
        revision: case.revision,
        state: case.state,
        title: case.title,
        updated_at: case.updated_at,
    }
}

/// What a requester sees of a case.
pub open spec fn requester_case_on_wire(case: CaseView) -> Result<RequesterCaseView, WireErrorView> {
    match case_on_wire(case) {
        Ok(response) => Ok(requester_part(response)),
        Err(error) => Err(error),
    }
}

/// What the back office sees of a message.
pub open spec fn message_on_wire(message: MessageView) -> Result<MessageResponseView, WireErrorView> {
    if !outside::written_instant(message.created_at as int) {
        Err(WireErrorView::UnwrittenTime)
    } else if lifecycle::visibility_named(message.visibility) is None {
        Err(WireErrorView::UnknownVisibility(message.visibility))
    } else {
        Ok(
            MessageResponseView {
                author_subject: message.author_subject,
                body: message.body,
                case_id: outside::uuid_text(message.case_id),
                case_revision: decimal::integer_text(message.case_revision as int),
                created_at: outside::rfc3339_text(message.created_at as int),
                message_id: outside::uuid_text(message.message_id),
                visibility: lifecycle::visibility_named(message.visibility)->0,
            },
        )
    }
}

/// What the back office sees of a listed message.
pub open spec fn item_on_wire(message: MessageView) -> Result<MessageItemView, WireErrorView> {
    match message_on_wire(message) {
        Err(error) => Err(error),
        Ok(response) => Ok(
            MessageItemView {
                author_subject: response.author_subject,
                body: response.body,
                case_id: response.case_id,
                created_at: response.created_at,
                message_id: response.message_id,
                visibility: response.visibility,
            },
        ),
    }
}

/// What a requester sees of a message it added: its visibility is left out.
pub open spec fn requester_message_on_wire(message: MessageView) -> Result<
    RequesterMessageView,
    WireErrorView,
> {
    if !outside::written_instant(message.created_at as int) {
        Err(WireErrorView::UnwrittenTime)
    } else {
        Ok(
            RequesterMessageView {
                author_subject: message.author_subject,
                body: message.body,
                case_id: outside::uuid_text(message.case_id),
                case_revision: decimal::integer_text(message.case_revision as int),
                created_at: outside::rfc3339_text(message.created_at as int),
                message_id: outside::uuid_text(message.message_id),
            },
        )
    }
}

/// What a requester sees of a listed message.
pub open spec fn requester_item_on_wire(message: MessageView) -> Result<
    RequesterItemView,
    WireErrorView,
> {
    match requester_message_on_wire(message) {
        Err(error) => Err(error),
        Ok(response) => Ok(
            RequesterItemView {
                author_subject: response.author_subject,
                body: response.body,
                case_id: response.case_id,
                created_at: response.created_at,
                message_id: response.message_id,
            },
        ),
    }
}

fn write_time(instant: i128) -> (result: Result<String, WireError>)
    ensures
        match result {
            Ok(written) => outside::written_instant(instant as int) && written@
                == outside::rfc3339_text(instant as int),
            Err(error) => !outside::written_instant(instant as int) && error@
                == WireErrorView::UnwrittenTime,
        },
{
    match format_instant(instant) {
        Some(written) => Ok(written),
        None => Err(WireError::UnwrittenTime),
    }
}

fn write_optional_time(instant: Option<i128>) -> (result: Result<Option<String>, WireError>)
    ensures
        match result {
            Ok(written) => optional_written(instant) && text::optional_text(written)
                == optional_time(instant),
            Err(error) => !optional_written(instant) && error@ == WireErrorView::UnwrittenTime,
        },
{
    match instant {
        Some(value) => Ok(Some(write_time(value)?)),
        None => Ok(None),
    }
}

/// Puts a case on the wire for the back office.
pub fn case_response(record: &CaseRecord) -> (result: Result<CaseResponse, WireError>)
    ensures
        rows::viewed(result) == case_on_wire(record@),
{
    let created_at = write_time(record.created_at)?;
    let updated_at = write_time(record.updated_at)?;
    let resolved_at = write_optional_time(record.resolved_at)?;
    let closed_at = write_optional_time(record.closed_at)?;
    let priority = match parse_priority(record.priority.as_str()) {
        Some(priority) => priority,
        None => {
            return Err(WireError::UnknownPriority(record.priority.clone()));
        },
    };
    let state = match parse_state(record.state.as_str()) {
        Some(state) => state,
        None => {
            return Err(WireError::UnknownState(record.state.clone()));
        },
    };
    Ok(
        CaseResponse {
            assignee_subject: record.assignee_subject.clone(),
            case_id: format_uuid(record.case_id),
            closed_at,
            created_at,
            creator_subject: record.creator_subject.clone(),
            description: record.description.clone(),
            identifier: record.identifier.clone(),
            organization_id: record.organization_id.clone(),
            priority,
            requester_subject: record.requester_subject.clone(),
            resolved_at,
            revision: format_integer(record.revision),
            state,
            title: record.title.clone(),
            updated_at,
        },
    )
}

/// Puts a case on the wire for its requester.
pub fn requester_case_value(record: &CaseRecord) -> (result: Result<
    RequesterCaseResponse,
    WireError,
>)
    ensures
        rows::viewed(result) == requester_case_on_wire(record@),
{
    let response = case_response(record)?;
    Ok(
        RequesterCaseResponse {
            case_id: response.case_id,
            created_at: response.created_at,
            description: response.description,
            identifier: response.identifier,
            organization_id: response.organization_id,
            priority: response.priority,
            requester_subject: response.requester_subject,
            revision: response.revision,
            state: response.state,
            title: response.title,
            updated_at: response.updated_at,
        },
    )
}

/// Puts a message on the wire for the back office.
pub fn message_response(record: &MessageRecord) -> (result: Result<MessageResponse, WireError>)
    ensures
        rows::viewed(result) == message_on_wire(record@),
{
    let created_at = write_time(record.created_at)?;
    let visibility = match parse_visibility(record.visibility.as_str()) {
        Some(visibility) => visibility,
        None => {
            return Err(WireError::UnknownVisibility(record.visibility.clone()));
        },
    };
    Ok(
        MessageResponse {
            author_subject: record.author_subject.clone(),
            body: record.body.clone(),
            case_id: format_uuid(record.case_id),
            case_revision: format_integer(record.case_revision),
            created_at,
            message_id: format_uuid(record.message_id),
            visibility,
        },
    )
}

/// Puts a listed message on the wire for the back office.
pub fn message_item(record: &MessageRecord) -> (result: Result<MessageItem, WireError>)
    ensures
        rows::viewed(result) == item_on_wire(record@),
{
    let response = message_response(record)?;
    Ok(
        MessageItem {
            author_subject: response.author_subject,
            body: response.body,
            case_id: response.case_id,
            created_at: response.created_at,
            message_id: response.message_id,
            visibility: response.visibility,
        },
    )
}

/// Puts a message on the wire for the requester who added it.
pub fn requester_message_value(record: &MessageRecord) -> (result: Result<
    RequesterMessageResponse,
    WireError,
>)
    ensures
        rows::viewed(result) == requester_message_on_wire(record@),
{
    let created_at = write_time(record.created_at)?;
    Ok(
        RequesterMessageResponse {
            author_subject: record.author_subject.clone(),
            body: record.body.clone(),
            case_id: format_uuid(record.case_id),
            case_revision: format_integer(record.case_revision),
            created_at,
            message_id: format_uuid(record.message_id),
        },
    )
}

/// Puts a listed message on the wire for its requester.
pub fn requester_list_message_value(record: &MessageRecord) -> (result: Result<
    RequesterMessageItem,
    WireError,
>)
    ensures
        rows::viewed(result) == requester_item_on_wire(record@),
{
    let response = requester_message_value(record)?;
    Ok(
        RequesterMessageItem {
            author_subject: response.author_subject,
            body: response.body,
            case_id: response.case_id,
            created_at: response.created_at,
            message_id: response.message_id,
        },
    )
}

/// What is seen of listed records, or the failure of the first that cannot be shown.
pub open spec fn all_on_wire<R, W>(
    records: Seq<R>,
    wire: spec_fn(R) -> Result<W, WireErrorView>,
) -> Result<Seq<W>, WireErrorView>
    decreases records.len(),
{
    if records.len() == 0 {
        Ok(Seq::empty())
    } else {
        match all_on_wire(records.drop_last(), wire) {
            Err(error) => Err(error),
            Ok(before) => match wire(records.last()) {
                Err(error) => Err(error),
                Ok(shown) => Ok(before.push(shown)),
            },
        }
    }
}

/// A failure among the first records is the failure of all.
pub proof fn lemma_wire_failure_stays<R, W>(
    records: Seq<R>,
    wire: spec_fn(R) -> Result<W, WireErrorView>,
    count: int,
)
    requires
        0 <= count <= records.len(),
        all_on_wire(records.take(count), wire) is Err,
    ensures
        all_on_wire(records, wire) == all_on_wire(records.take(count), wire),
    decreases records.len(),
{
    if count == records.len() {
        assert(records.take(count) =~= records);
    } else {
        assert(records.drop_last().take(count) =~= records.take(count));
        lemma_wire_failure_stays(records.drop_last(), wire, count);
    }
}

/// Records that are shown in two parts are shown as a whole.
pub proof fn lemma_wire_parts<R, W>(
    first: Seq<R>,
    second: Seq<R>,
    wire: spec_fn(R) -> Result<W, WireErrorView>,
)
    requires
        all_on_wire(first, wire) is Ok,
        all_on_wire(second, wire) is Ok,
    ensures
        all_on_wire(first + second, wire) == Ok::<_, WireErrorView>(
            all_on_wire(first, wire)->Ok_0 + all_on_wire(second, wire)->Ok_0,
        ),
    decreases second.len(),
{
    let shown = all_on_wire(first, wire)->Ok_0;
    if second.len() == 0 {
        assert(first + second =~= first);
        assert(shown + Seq::<W>::empty() =~= shown);
    } else {
        lemma_wire_parts(first, second.drop_last(), wire);
        assert((first + second).drop_last() =~= first + second.drop_last());
        let before = all_on_wire(second.drop_last(), wire)->Ok_0;
        let last = wire(second.last())->Ok_0;
        assert(shown + before.push(last) =~= (shown + before).push(last));
    }
}

} // verus!
