//! What a request asks for: its rules, its fingerprint, and what is done or looked up for
//! it.

use vstd::prelude::*;
use vstd::string::*;
use vstd::utf8::*;

use crate::command::ChangeView;
use crate::cursor;
use crate::cursor::MessageCursor;
use crate::decimal;
use crate::intake;
use crate::intake::{
    AppendChannelMessageRequest, GetRequesterCaseRequest, ListRequesterMessagesRequest,
    OpenCaseFromChannelRequest,
};
use crate::lifecycle;
use crate::model;
use crate::model::{CaseState, EntryView, Priority};
use crate::outside;
use crate::privacy;
use crate::privacy::{ApplyRetentionRequest, CollectExportRequest};
use crate::reads::CaseKeyView;
use crate::requests;
use crate::requests::{
    AddMessageRequest, AssignCaseRequest, CreateCaseRequest, TransitionCaseRequest,
    UpdateCaseRequest,
};
use crate::validate;
use crate::wire;

verus! {

/// The text of an optional field.
pub open spec fn text_of(field: Option<String>) -> Option<Seq<char>> {
    match field {
        Some(text) => Some(text@),
        None => None,
    }
}

/// A fingerprint is the SHA-256 digest of the bytes of the JSON.
pub proof fn law_fingerprints_are_digests(entries: Seq<EntryView>)
    ensures
        wire::fingerprint(entries) == outside::sha256(encode_utf8(wire::json_object(entries))),
{
}

/// Whether the member at a place has a name and a value.
pub open spec fn member_is(
    members: Seq<EntryView>,
    at: int,
    key: Seq<char>,
    value: Option<Seq<char>>,
) -> bool {
    0 <= at < members.len() && members[at].key == key && members[at].value == value
}

/// The name of a priority that may be given.
pub open spec fn priority_of(field: Option<Priority>) -> Option<Seq<char>> {
    match field {
        Some(priority) => Some(model::priority_name(priority)),
        None => None,
    }
}

/// Whether two requests ask for the same creation in every field.
pub open spec fn same_creation(first: CreateCaseRequest, second: CreateCaseRequest) -> bool {
    &&& first.description@ == second.description@
    &&& first.idempotency_key@ == second.idempotency_key@
    &&& first.organization_id@ == second.organization_id@
    &&& first.priority == second.priority
    &&& first.title@ == second.title@
}

/// A creation has the fingerprint of a JSON object with these members, and two of them
/// have the same object only where they ask for the same.
pub proof fn law_creations_are_told_apart(first: CreateCaseRequest, second: CreateCaseRequest)
    ensures
        ({
            let members = requests::create_entries(first);
            &&& members.len() == 5
            &&& member_is(members, 0, "description"@, Some(first.description@))
            &&& member_is(members, 1, "idempotency_key"@, Some(first.idempotency_key@))
            &&& member_is(members, 2, "organization_id"@, Some(first.organization_id@))
            &&& member_is(members, 3, "priority"@, Some(model::priority_name(first.priority)))
            &&& member_is(members, 4, "title"@, Some(first.title@))
        }),
        wire::json_object(requests::create_entries(first)) == wire::json_object(
            requests::create_entries(second),
        ) <==> same_creation(first, second),
{
    lifecycle::law_priority_names_round_trip(first.priority);
    lifecycle::law_priority_names_round_trip(second.priority);
    let left = requests::create_entries(first);
    let right = requests::create_entries(second);
    if wire::json_object(left) == wire::json_object(right) {
        wire::law_json_tells_requests_apart(left, right);
        assert(left[0].value == right[0].value);
        assert(left[1].value == right[1].value);
        assert(left[2].value == right[2].value);
        assert(left[3].value == right[3].value);
        assert(left[4].value == right[4].value);
    }
    if same_creation(first, second) {
        assert(left =~= right);
    }
}

/// Whether two requests ask for the same update in every field.
pub open spec fn same_update(first: UpdateCaseRequest, second: UpdateCaseRequest) -> bool {
    &&& first.case_id@ == second.case_id@
    &&& text_of(first.description) == text_of(second.description)
    &&& first.expected_revision@ == second.expected_revision@
    &&& first.idempotency_key@ == second.idempotency_key@
    &&& first.organization_id@ == second.organization_id@
    &&& first.priority == second.priority
    &&& text_of(first.title) == text_of(second.title)
}

/// An update has the fingerprint of a JSON object with these members, and two of them
/// have the same object only where they ask for the same.
pub proof fn law_updates_are_told_apart(first: UpdateCaseRequest, second: UpdateCaseRequest)
    ensures
        ({
            let members = requests::update_entries(first);
            &&& members.len() == 7
            &&& member_is(members, 0, "case_id"@, Some(first.case_id@))
            &&& member_is(members, 1, "description"@, text_of(first.description))
            &&& member_is(members, 2, "expected_revision"@, Some(first.expected_revision@))
            &&& member_is(members, 3, "idempotency_key"@, Some(first.idempotency_key@))
            &&& member_is(members, 4, "organization_id"@, Some(first.organization_id@))
            &&& member_is(members, 5, "priority"@, priority_of(first.priority))
            &&& member_is(members, 6, "title"@, text_of(first.title))
        }),
        wire::json_object(requests::update_entries(first)) == wire::json_object(
            requests::update_entries(second),
        ) <==> same_update(first, second),
{
    if first.priority is Some && second.priority is Some {
        lifecycle::law_priority_names_round_trip(first.priority->0);
        lifecycle::law_priority_names_round_trip(second.priority->0);
    }
    let left = requests::update_entries(first);
    let right = requests::update_entries(second);
    if wire::json_object(left) == wire::json_object(right) {
        wire::law_json_tells_requests_apart(left, right);
        assert(left[0].value == right[0].value);
        assert(left[1].value == right[1].value);
        assert(left[2].value == right[2].value);
        assert(left[3].value == right[3].value);
        assert(left[4].value == right[4].value);
        assert(left[5].value == right[5].value);
        assert(left[6].value == right[6].value);
    }
    if same_update(first, second) {
        assert(left =~= right);
    }
}

/// Whether two requests ask for the same assignment in every field.
pub open spec fn same_assignment(first: AssignCaseRequest, second: AssignCaseRequest) -> bool {
    &&& text_of(first.assignee_subject) == text_of(second.assignee_subject)
    &&& first.case_id@ == second.case_id@
    &&& first.expected_revision@ == second.expected_revision@
    &&& first.idempotency_key@ == second.idempotency_key@
    &&& first.organization_id@ == second.organization_id@
}

/// An assignment has the fingerprint of a JSON object with these members, and two of
/// them have the same object only where they ask for the same.
pub proof fn law_assignments_are_told_apart(first: AssignCaseRequest, second: AssignCaseRequest)
    ensures
        ({
            let members = requests::assign_entries(first);
            &&& members.len() == 5
            &&& member_is(members, 0, "assignee_subject"@, text_of(first.assignee_subject))
            &&& member_is(members, 1, "case_id"@, Some(first.case_id@))
            &&& member_is(members, 2, "expected_revision"@, Some(first.expected_revision@))
            &&& member_is(members, 3, "idempotency_key"@, Some(first.idempotency_key@))
            &&& member_is(members, 4, "organization_id"@, Some(first.organization_id@))
        }),
        wire::json_object(requests::assign_entries(first)) == wire::json_object(
            requests::assign_entries(second),
        ) <==> same_assignment(first, second),
{
    let left = requests::assign_entries(first);
    let right = requests::assign_entries(second);
    if wire::json_object(left) == wire::json_object(right) {
        wire::law_json_tells_requests_apart(left, right);
        assert(left[0].value == right[0].value);
        assert(left[1].value == right[1].value);
        assert(left[2].value == right[2].value);
        assert(left[3].value == right[3].value);
        assert(left[4].value == right[4].value);
    }
    if same_assignment(first, second) {
        assert(left =~= right);
    }
}

/// Whether two requests ask for the same transition in every field.
pub open spec fn same_transition(
    first: TransitionCaseRequest,
    second: TransitionCaseRequest,
) -> bool {
    &&& first.case_id@ == second.case_id@
    &&& first.expected_revision@ == second.expected_revision@
    &&& first.idempotency_key@ == second.idempotency_key@
    &&& first.organization_id@ == second.organization_id@
    &&& text_of(first.reason) == text_of(second.reason)
    &&& first.state == second.state
}

/// A transition has the fingerprint of a JSON object with these members, and two of
/// them have the same object only where they ask for the same.
pub proof fn law_transitions_are_told_apart(
    first: TransitionCaseRequest,
    second: TransitionCaseRequest,
)
    ensures
        ({
            let members = requests::transition_entries(first);
            &&& members.len() == 6
            &&& member_is(members, 0, "case_id"@, Some(first.case_id@))
            &&& member_is(members, 1, "expected_revision"@, Some(first.expected_revision@))
            &&& member_is(members, 2, "idempotency_key"@, Some(first.idempotency_key@))
            &&& member_is(members, 3, "organization_id"@, Some(first.organization_id@))
            &&& member_is(members, 4, "reason"@, text_of(first.reason))
            &&& member_is(members, 5, "state"@, Some(model::state_name(first.state)))
        }),
        wire::json_object(requests::transition_entries(first)) == wire::json_object(
            requests::transition_entries(second),
        ) <==> same_transition(first, second),
{
    lifecycle::law_state_names_round_trip(first.state);
    lifecycle::law_state_names_round_trip(second.state);
    let left = requests::transition_entries(first);
    let right = requests::transition_entries(second);
    if wire::json_object(left) == wire::json_object(right) {
        wire::law_json_tells_requests_apart(left, right);
        assert(left[0].value == right[0].value);
        assert(left[1].value == right[1].value);
        assert(left[2].value == right[2].value);
        assert(left[3].value == right[3].value);
        assert(left[4].value == right[4].value);
        assert(left[5].value == right[5].value);
    }
    if same_transition(first, second) {
        assert(left =~= right);
    }
}

/// Whether two requests ask for the same message in every field.
pub open spec fn same_message(first: AddMessageRequest, second: AddMessageRequest) -> bool {
    &&& first.body@ == second.body@
    &&& first.case_id@ == second.case_id@
    &&& first.expected_revision@ == second.expected_revision@
    &&& first.idempotency_key@ == second.idempotency_key@
    &&& first.organization_id@ == second.organization_id@
    &&& first.visibility == second.visibility
}

/// A message has the fingerprint of a JSON object with these members, and two of them
/// have the same object only where they ask for the same.
pub proof fn law_messages_are_told_apart(first: AddMessageRequest, second: AddMessageRequest)
    ensures
        ({
            let members = requests::message_entries(first);
            &&& members.len() == 6
            &&& member_is(members, 0, "body"@, Some(first.body@))
            &&& member_is(members, 1, "case_id"@, Some(first.case_id@))
            &&& member_is(members, 2, "expected_revision"@, Some(first.expected_revision@))
            &&& member_is(members, 3, "idempotency_key"@, Some(first.idempotency_key@))
            &&& member_is(members, 4, "organization_id"@, Some(first.organization_id@))
            &&& member_is(members, 5, "visibility"@, Some(model::visibility_name(first.visibility)))
        }),
        wire::json_object(requests::message_entries(first)) == wire::json_object(
            requests::message_entries(second),
        ) <==> same_message(first, second),
{
    lifecycle::law_visibility_names_round_trip(first.visibility);
    lifecycle::law_visibility_names_round_trip(second.visibility);
    let left = requests::message_entries(first);
    let right = requests::message_entries(second);
    if wire::json_object(left) == wire::json_object(right) {
        wire::law_json_tells_requests_apart(left, right);
        assert(left[0].value == right[0].value);
        assert(left[1].value == right[1].value);
        assert(left[2].value == right[2].value);
        assert(left[3].value == right[3].value);
        assert(left[4].value == right[4].value);
        assert(left[5].value == right[5].value);
    }
    if same_message(first, second) {
        assert(left =~= right);
    }
}

/// Whether two requests ask for the same new case in every field.
pub open spec fn same_channel_case(
    first: OpenCaseFromChannelRequest,
    second: OpenCaseFromChannelRequest,
) -> bool {
    &&& first.description@ == second.description@
    &&& first.idempotency_key@ == second.idempotency_key@
    &&& first.organization_id@ == second.organization_id@
    &&& first.priority == second.priority
    &&& first.requester_subject@ == second.requester_subject@
    &&& first.title@ == second.title@
}

/// A channel's new case has the fingerprint of a JSON object with these members, and
/// two of them have the same object only where they ask for the same.
pub proof fn law_channel_cases_are_told_apart(
    first: OpenCaseFromChannelRequest,
    second: OpenCaseFromChannelRequest,
)
    ensures
        ({
            let members = intake::open_entries(first);
            &&& members.len() == 6
            &&& member_is(members, 0, "description"@, Some(first.description@))
            &&& member_is(members, 1, "idempotency_key"@, Some(first.idempotency_key@))
            &&& member_is(members, 2, "organization_id"@, Some(first.organization_id@))
            &&& member_is(members, 3, "priority"@, Some(model::priority_name(first.priority)))
            &&& member_is(members, 4, "requester_subject"@, Some(first.requester_subject@))
            &&& member_is(members, 5, "title"@, Some(first.title@))
        }),
        wire::json_object(intake::open_entries(first)) == wire::json_object(
            intake::open_entries(second),
        ) <==> same_channel_case(first, second),
{
    lifecycle::law_priority_names_round_trip(first.priority);
    lifecycle::law_priority_names_round_trip(second.priority);
    let left = intake::open_entries(first);
    let right = intake::open_entries(second);
    if wire::json_object(left) == wire::json_object(right) {
        wire::law_json_tells_requests_apart(left, right);
        assert(left[0].value == right[0].value);
        assert(left[1].value == right[1].value);
        assert(left[2].value == right[2].value);
        assert(left[3].value == right[3].value);
        assert(left[4].value == right[4].value);
        assert(left[5].value == right[5].value);
    }
    if same_channel_case(first, second) {
        assert(left =~= right);
    }
}

/// Whether two requests ask for the same channel message in every field of its JSON.
/// The key and the expected revision are not part of it.
pub open spec fn same_channel_message(
    first: AppendChannelMessageRequest,
    second: AppendChannelMessageRequest,
) -> bool {
    &&& first.body@ == second.body@
    &&& first.case_ref@ == second.case_ref@
    &&& first.organization_id@ == second.organization_id@
    &&& first.requester_subject@ == second.requester_subject@
}

/// A channel's message has the fingerprint of a JSON object with these members, and two
/// of them have the same object only where they ask for the same.
pub proof fn law_channel_messages_are_told_apart(
    first: AppendChannelMessageRequest,
    second: AppendChannelMessageRequest,
)
    ensures
        ({
            let members = intake::channel_message_entries(first);
            &&& members.len() == 4
            &&& member_is(members, 0, "body"@, Some(first.body@))
            &&& member_is(members, 1, "case_ref"@, Some(first.case_ref@))
            &&& member_is(members, 2, "organization_id"@, Some(first.organization_id@))
            &&& member_is(members, 3, "requester_subject"@, Some(first.requester_subject@))
        }),
        wire::json_object(intake::channel_message_entries(first)) == wire::json_object(
            intake::channel_message_entries(second),
        ) <==> same_channel_message(first, second),
{
    let left = intake::channel_message_entries(first);
    let right = intake::channel_message_entries(second);
    if wire::json_object(left) == wire::json_object(right) {
        wire::law_json_tells_requests_apart(left, right);
        assert(left[0].value == right[0].value);
        assert(left[1].value == right[1].value);
        assert(left[2].value == right[2].value);
        assert(left[3].value == right[3].value);
    }
    if same_channel_message(first, second) {
        assert(left =~= right);
    }
}

/// Whether two requests ask for the same retention action in every field.
pub open spec fn same_retention(
    first: ApplyRetentionRequest,
    second: ApplyRetentionRequest,
) -> bool {
    &&& first.action_id@ == second.action_id@
    &&& first.mode == second.mode
    &&& first.reason@ == second.reason@
    &&& first.scope_id@ == second.scope_id@
    &&& first.scope_kind@ == second.scope_kind@
    &&& first.subject@ == second.subject@
}

/// A retention action has the fingerprint of a JSON object with these members, and two
/// of them have the same object only where they ask for the same.
pub proof fn law_retentions_are_told_apart(
    first: ApplyRetentionRequest,
    second: ApplyRetentionRequest,
)
    ensures
        ({
            let members = privacy::retention_entries(first);
            &&& members.len() == 6
            &&& member_is(members, 0, "action_id"@, Some(first.action_id@))
            &&& member_is(members, 1, "mode"@, Some(privacy::mode_name(first.mode)))
            &&& member_is(members, 2, "reason"@, Some(first.reason@))
            &&& member_is(members, 3, "scope_id"@, Some(first.scope_id@))
            &&& member_is(members, 4, "scope_kind"@, Some(first.scope_kind@))
            &&& member_is(members, 5, "subject"@, Some(first.subject@))
        }),
        wire::json_object(privacy::retention_entries(first)) == wire::json_object(
            privacy::retention_entries(second),
        ) <==> same_retention(first, second),
{
    reveal_strlit("anonymize");
    reveal_strlit("delete");
    assert("anonymize"@.len() == 9);
    assert("delete"@.len() == 6);
    let left = privacy::retention_entries(first);
    let right = privacy::retention_entries(second);
    if wire::json_object(left) == wire::json_object(right) {
        wire::law_json_tells_requests_apart(left, right);
        assert(left[0].value == right[0].value);
        assert(left[1].value == right[1].value);
        assert(left[2].value == right[2].value);
        assert(left[3].value == right[3].value);
        assert(left[4].value == right[4].value);
        assert(left[5].value == right[5].value);
    }
    if same_retention(first, second) {
        assert(left =~= right);
    }
}

/// A channel's requests obey the rules of the back office's, and name a requester of at
/// most 512 bytes.
pub proof fn law_channel_requests_obey_their_rules(
    open: OpenCaseFromChannelRequest,
    append: AppendChannelMessageRequest,
    get: GetRequesterCaseRequest,
    list: ListRequesterMessagesRequest,
)
    ensures
        intake::open_valid(open) <==> validate::opaque_id(open.organization_id@, 512)
            && validate::opaque_id(open.requester_subject@, 512) && validate::opaque_id(
            open.idempotency_key@,
            200,
        ) && validate::plain_text(open.title@, 300, false) && validate::plain_text(
            open.description@,
            50_000,
            true,
        ),
        intake::append_valid(append) <==> validate::opaque_id(append.organization_id@, 512)
            && outside::uuid_of(append.case_ref@) is Some && decimal::positive_value(
            append.expected_revision@,
        ) is Some && validate::opaque_id(append.idempotency_key@, 200) && validate::opaque_id(
            append.requester_subject@,
            512,
        ) && validate::plain_text(append.body@, 100_000, false),
        intake::get_valid(get) <==> validate::opaque_id(get.organization_id@, 512)
            && validate::opaque_id(get.requester_subject@, 512) && validate::case_reference(
            get.case_ref@,
        ),
        intake::list_valid(list) <==> validate::opaque_id(list.organization_id@, 512)
            && validate::opaque_id(list.requester_subject@, 512) && 1 <= list.limit <= 200
            && outside::uuid_of(list.case_ref@) is Some && (list.cursor is Some
            ==> cursor::place_named((list.cursor->0)@) is Some),
{
}

/// What a channel adds is the requester's own public message with the body that was
/// given, in the case that was named, at the revision that was named, and with no right
/// beyond being related to it.
pub proof fn law_channel_messages_are_the_requesters_own(
    caller: Seq<char>,
    request: AppendChannelMessageRequest,
)
    requires
        intake::append_valid(request),
    ensures
        ({
            let command = intake::channel_command(caller, request);
            &&& command.caller == caller
            &&& command.idempotency_key == request.idempotency_key@
            &&& command.organization_id == request.organization_id@
            &&& command.actor == request.requester_subject@
            &&& command.request_hash == wire::fingerprint(intake::channel_message_entries(request))
            &&& command.change matches ChangeView::AddMessage {
                case_id,
                expected_revision,
                can_comment_all,
                visibility,
                body,
            } && Some(case_id) == outside::uuid_of(request.case_ref@) && Some(expected_revision)
                == decimal::positive_value(request.expected_revision@) && !can_comment_all
                && visibility == "public"@ && body == request.body@
        }),
{
}

/// What a channel looks up is the case that was named, in the organization that was
/// named, as the requester sees it: neither other cases nor internal notes. Of messages
/// one more is looked up than a page holds.
pub proof fn law_channel_lookups_are_the_requesters_own(
    get: GetRequesterCaseRequest,
    list: ListRequesterMessagesRequest,
    place: Option<MessageCursor>,
)
    requires
        intake::list_valid(list),
    ensures
        ({
            let query = intake::requester_case_query(get);
            &&& query.organization_id == get.organization_id@
            &&& query.actor == get.requester_subject@
            &&& !query.can_read_all
            &&& outside::uuid_of(get.case_ref@) matches Some(id) ==> query.key == CaseKeyView::Id(
                id,
            )
            &&& outside::uuid_of(get.case_ref@) is None ==> query.key == CaseKeyView::Identifier(
                get.case_ref@,
            )
        }),
        ({
            let query = intake::requester_message_query(list, place);
            &&& query.organization_id == list.organization_id@
            &&& Some(query.case_id) == outside::uuid_of(list.case_ref@)
            &&& query.actor == list.requester_subject@
            &&& !query.can_read_all
            &&& !query.can_read_internal
            &&& query.cursor == place
            &&& query.limit == list.limit + 1
        }),
{
}

/// Subjects are known in organizations only, and a reason is a text of at most 2,000
/// bytes that may be empty.
pub proof fn law_privacy_requests_obey_their_rules(
    export: CollectExportRequest,
    retention: ApplyRetentionRequest,
)
    ensures
        privacy::export_valid(export) <==> export.scope_kind@ == "organization"@
            && validate::opaque_id(export.export_id@, 512) && validate::opaque_id(
            export.scope_id@,
            512,
        ) && validate::opaque_id(export.subject@, 512),
        privacy::retention_valid(retention) <==> retention.scope_kind@ == "organization"@
            && validate::opaque_id(retention.action_id@, 512) && validate::opaque_id(
            retention.scope_id@,
            512,
        ) && validate::opaque_id(retention.subject@, 512) && validate::plain_text(
            retention.reason@,
            2_000,
            true,
        ),
        privacy::EXPORT_CAPABILITY@ == "lenso.data-export-source@1"@,
        privacy::EXPORT_OPERATION@ == "collect_export"@,
{
}

/// A filter or a place that is not given is none, and one that is given is what its text
/// names.
pub proof fn law_filters_are_what_is_given(state: Option<CaseState>, place: Option<String>)
    ensures
        state is None ==> requests::optional_state_name(state) is None,
        state matches Some(given) ==> requests::optional_state_name(state) == Some(
            model::state_name(given),
        ),
        place is None ==> requests::optional_place(place) is None,
        place matches Some(text) ==> requests::optional_place(place) == cursor::place_named(text@),
{
}

} // verus!
