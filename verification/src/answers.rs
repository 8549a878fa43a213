//! What a reader is answered: pages of a list, and failures under their own names.

use vstd::prelude::*;
use vstd::string::*;

use crate::decimal;
use crate::disclosure;
use crate::errors;
use crate::errors::StorageErrorView;
use crate::failures::{ListCasesError, ListMessagesError, ListRequesterMessagesError};
use crate::fault::{CallErrorView, FaultView};
use crate::intake;
use crate::model::{CaseView, DomainFailure, MessageView, ResponseView};
use crate::outside;
use crate::privacy;
use crate::privacy::{ActivityRow, ExportView};
use crate::reads;
use crate::responses;
use crate::responses::{
    CaseResponseView, MessageItemView, MessageResponseView, RequesterCaseView, RequesterItemView,
    RequesterMessageView, WireErrorView,
};
use crate::rows;
use crate::rows::{CaseRow, MessageRow};
use crate::service;
use crate::service::PageView;
use crate::transaction::AnswerView;
use crate::words;

verus! {

/// A page holds as many records as were asked for, the first of those that were found,
/// and the one too many only shows that there is more.
pub proof fn law_pages_hold_what_is_asked_for<R>(found: Seq<R>, limit: int)
    requires
        1 <= limit,
        found.len() <= limit + 1,
    ensures
        reads::page_of(found, limit).len() <= limit,
        found.len() <= limit ==> reads::page_of(found, limit) == found,
        found.len() > limit ==> reads::page_of(found, limit) == found.take(limit),
{
    if found.len() > limit {
        assert(found.drop_last() =~= found.take(limit));
    }
}

/// Cases are told in the order of their last change, and messages in the order in which
/// they were written; where a list goes on, its cursor tells the time and the identifier
/// of the last record of the page.
pub proof fn law_cursors_tell_the_last_record<F>(
    cases: Seq<CaseView>,
    messages: Seq<MessageView>,
    limit: int,
)
    requires
        1 <= limit,
    ensures
        service::cases_answer::<F>(limit, Ok(cases)) matches Ok(page) ==> {
            &&& page.next_cursor is Some <==> cases.len() > limit
            &&& cases.len() == limit + 1 ==> page.next_cursor == Some(
                outside::rfc3339_text(cases[limit - 1].updated_at as int) + "|"@
                    + outside::uuid_text(cases[limit - 1].case_id),
            )
            &&& cases.len() <= limit + 1 ==> page.items.len() == if cases.len() > limit {
                limit
            } else {
                cases.len() as int
            }
        },
        service::messages_answer::<F>(limit, Ok(Some(messages))) matches Ok(page) ==> {
            &&& page.next_cursor is Some <==> messages.len() > limit
            &&& messages.len() == limit + 1 ==> page.next_cursor == Some(
                outside::rfc3339_text(messages[limit - 1].created_at as int) + "|"@
                    + outside::uuid_text(messages[limit - 1].message_id),
            )
            &&& messages.len() <= limit + 1 ==> page.items.len() == if messages.len() > limit {
                limit
            } else {
                messages.len() as int
            }
        },
        intake::requester_messages_answer::<F>(limit, Ok(Some(messages))) matches Ok(page) ==> {
            &&& page.next_cursor is Some <==> messages.len() > limit
            &&& messages.len() == limit + 1 ==> page.next_cursor == Some(
                outside::rfc3339_text(messages[limit - 1].created_at as int) + "|"@
                    + outside::uuid_text(messages[limit - 1].message_id),
            )
            &&& messages.len() <= limit + 1 ==> page.items.len() == if messages.len() > limit {
                limit
            } else {
                messages.len() as int
            }
        },
{
    reveal_strlit("|");
    assert("|"@ =~= seq!['|']);
    let shown_cases = reads::page_of(cases, limit);
    let shown_messages = reads::page_of(messages, limit);
    disclosure::law_lists_show_every_record(shown_cases, service::case_wire());
    disclosure::law_lists_show_every_record(shown_messages, service::item_wire());
    disclosure::law_lists_show_every_record(shown_messages, intake::requester_wire());
    if cases.len() == limit + 1 {
        assert(shown_cases.last() == cases[limit - 1]);
    }
    if messages.len() == limit + 1 {
        assert(shown_messages.last() == messages[limit - 1]);
    }
}

/// Every record of a page is shown as it is shown alone: cases and messages as the back
/// office sees them, and messages as their requester does.
pub proof fn law_pages_show_their_records<F>(
    cases: Seq<CaseView>,
    messages: Seq<MessageView>,
    limit: int,
    at: int,
)
    requires
        1 <= limit,
        0 <= at < limit,
    ensures
        at < cases.len() ==> (service::cases_answer::<F>(limit, Ok(cases)) matches Ok(page)
            ==> cases.len() <= limit + 1 ==> responses::case_on_wire(cases[at]) == Ok::<
            _,
            WireErrorView,
        >(page.items[at])),
        at < messages.len() ==> (service::messages_answer::<F>(
            limit,
            Ok(Some(messages)),
        ) matches Ok(page) ==> messages.len() <= limit + 1 ==> responses::item_on_wire(messages[at]) == Ok::<
            _,
            WireErrorView,
        >(page.items[at])),
        at < messages.len() ==> (intake::requester_messages_answer::<F>(
            limit,
            Ok(Some(messages)),
        ) matches Ok(page) ==> messages.len() <= limit + 1 ==> responses::requester_item_on_wire(
            messages[at],
        ) == Ok::<_, WireErrorView>(page.items[at])),
{
    let shown_cases = reads::page_of(cases, limit);
    let shown_messages = reads::page_of(messages, limit);
    disclosure::law_lists_show_every_record(shown_cases, service::case_wire());
    disclosure::law_lists_show_every_record(shown_messages, service::item_wire());
    disclosure::law_lists_show_every_record(shown_messages, intake::requester_wire());
    if at < cases.len() && cases.len() <= limit + 1 {
        assert(shown_cases[at] == cases[at]);
    }
    if at < messages.len() && messages.len() <= limit + 1 {
        assert(shown_messages[at] == messages[at]);
    }
}

/// A list of messages whose case the reader does not see is answered as if there were
/// none, and a failure of the storage as a failure of the plugin.
pub proof fn law_lists_of_hidden_cases_are_not_found<F>(limit: int, error: StorageErrorView)
    ensures
        service::messages_answer::<F>(limit, Ok(None)) == Err::<PageView<MessageItemView>, _>(
            CallErrorView::<ListMessagesError, F>::Domain(ListMessagesError::CaseNotFound),
        ),
        intake::requester_messages_answer::<F>(limit, Ok(None)) == Err::<
            PageView<RequesterItemView>,
            _,
        >(
            CallErrorView::<ListRequesterMessagesError, F>::Domain(
                ListRequesterMessagesError::CaseNotFound,
            ),
        ),
        service::cases_answer::<F>(limit, Err(error)) == Err::<PageView<CaseResponseView>, _>(
            CallErrorView::<ListCasesError, F>::Runtime(
                FaultView::PluginFailure(errors::storage_text(error)),
            ),
        ),
        service::messages_answer::<F>(limit, Err(error)) == Err::<PageView<MessageItemView>, _>(
            CallErrorView::<ListMessagesError, F>::Runtime(
                FaultView::PluginFailure(errors::storage_text(error)),
            ),
        ),
        intake::requester_messages_answer::<F>(limit, Err(error)) == Err::<
            PageView<RequesterItemView>,
            _,
        >(
            CallErrorView::<ListRequesterMessagesError, F>::Runtime(
                FaultView::PluginFailure(errors::storage_text(error)),
            ),
        ),
{
}

/// An answer of the other shape is no answer, and a failure of the storage stays one.
pub proof fn law_answers_keep_their_shape(
    case: CaseView,
    message: MessageView,
    refused: DomainFailure,
    error: StorageErrorView,
)
    ensures
        service::case_answer(Ok(AnswerView::Done(ResponseView::Case(case)))) == Ok::<
            _,
            StorageErrorView,
        >(Ok::<CaseView, DomainFailure>(case)),
        service::message_answer(Ok(AnswerView::Done(ResponseView::Message(message)))) == Ok::<
            _,
            StorageErrorView,
        >(Ok::<MessageView, DomainFailure>(message)),
        service::case_answer(Ok(AnswerView::Done(ResponseView::Message(message)))) == Err::<
            Result<CaseView, DomainFailure>,
            _,
        >(StorageErrorView::Serialization),
        service::message_answer(Ok(AnswerView::Done(ResponseView::Case(case)))) == Err::<
            Result<MessageView, DomainFailure>,
            _,
        >(StorageErrorView::Serialization),
        service::case_answer(Ok(AnswerView::Refused(refused))) == Ok::<_, StorageErrorView>(
            Err::<CaseView, DomainFailure>(refused),
        ),
        service::message_answer(Ok(AnswerView::Refused(refused))) == Ok::<_, StorageErrorView>(
            Err::<MessageView, DomainFailure>(refused),
        ),
        service::case_answer(Err(error)) == Err::<Result<CaseView, DomainFailure>, _>(error),
        service::message_answer(Err(error)) == Err::<Result<MessageView, DomainFailure>, _>(error),
{
}

/// A cell of a case that cannot be read is named, and so is a revision that no case can
/// have.
pub proof fn law_unreadable_cells_of_cases_are_named(row: CaseRow)
    ensures
        rows::case_in(row) matches Err(StorageErrorView::Database(label)) ==> {
            ||| label == "decode case revision"@ && row.revision is None
            ||| label == "decode case id"@ && row.case_id is None
            ||| label == "decode case identifier"@ && row.identifier is None
            ||| label == "decode case organization"@ && row.organization_id is None
            ||| label == "decode case requester"@ && row.requester_subject is None
            ||| label == "decode case creator"@ && row.creator_subject is None
            ||| label == "decode case title"@ && row.title is None
            ||| label == "decode case description"@ && row.description is None
            ||| label == "decode case priority"@ && row.priority is None
            ||| label == "decode case state"@ && row.state is None
            ||| label == "decode case assignee"@ && row.assignee_subject is None
            ||| label == "decode case created time"@ && row.created_at is None
            ||| label == "decode case updated time"@ && row.updated_at is None
            ||| label == "decode case resolved time"@ && row.resolved_at is None
            ||| label == "decode case closed time"@ && row.closed_at is None
        },
        rows::case_in(row) matches Err(StorageErrorView::InvalidStoredData(detail)) ==> detail
            == "case revision is not positive"@ && row.revision is Some && row.revision->0 <= 0,
        !(rows::case_in(row) matches Err(StorageErrorView::Serialization)),
{
}

/// A cell of a message that cannot be read is named.
pub proof fn law_unreadable_cells_of_messages_are_named(row: MessageRow)
    ensures
        rows::message_in(row) matches Err(error) ==> {
            ||| error == StorageErrorView::Database("decode message id"@) && row.message_id is None
            ||| error == StorageErrorView::Database("decode message case"@) && row.case_id is None
            ||| error == StorageErrorView::Database("decode message visibility"@)
                && row.visibility is None
            ||| error == StorageErrorView::Database("decode message author"@)
                && row.author_subject is None
            ||| error == StorageErrorView::Database("decode message body"@) && row.body is None
            ||| error == StorageErrorView::Database("decode message created time"@)
                && row.created_at is None
        },
{
}

/// A cell of an activity that cannot be exported is named.
pub proof fn law_unreadable_cells_of_activities_are_named(row: ActivityRow, subject: Seq<char>)
    ensures
        privacy::exported_activity(row, subject) matches Err(error) ==> {
            ||| error == StorageErrorView::Database("decode export activity payload"@)
                && row.payload is None
            ||| error == StorageErrorView::Database("decode export activity id"@)
                && row.activity_id is None
            ||| error == StorageErrorView::Database("decode export activity case"@)
                && row.case_id is None
            ||| error == StorageErrorView::Database("decode export activity kind"@)
                && row.kind is None
            ||| error == StorageErrorView::Database("decode export activity actor"@)
                && row.actor_subject is None
            ||| error == StorageErrorView::Database("decode export activity revision"@)
                && row.case_revision is None
            ||| error == StorageErrorView::Database("decode export activity time"@)
                && row.created_at is None
            ||| error == StorageErrorView::InvalidStoredData(
                "timestamp cannot be formatted: The year component cannot be formatted into the requested format."@,
            ) && row.created_at is Some && !outside::written_instant(row.created_at->0 as int)
        },
{
}

/// A statement of an export that fails is named, and nothing is exported then.
pub proof fn law_failed_exports_are_named(
    organization_id: Seq<char>,
    subject: Seq<char>,
    cases: Result<Vec<CaseRow>, ()>,
    messages: Result<Vec<MessageRow>, ()>,
    activities: Result<Vec<ActivityRow>, ()>,
)
    ensures
        ({
            let export = privacy::export_of(organization_id, subject, cases, messages, activities);
            &&& cases is Err ==> export == Err::<ExportView, _>(
                StorageErrorView::Database("export support cases"@),
            )
            &&& cases is Ok && messages is Err ==> export == Err::<ExportView, _>(
                StorageErrorView::Database("export support messages"@),
            )
            &&& cases is Ok && messages is Ok && activities is Err ==> export == Err::<
                ExportView,
                _,
            >(StorageErrorView::Database("export support activity"@))
        }),
{
}

/// Identifiers are shown in their hyphenated form and revisions as plain numbers, in
/// every answer and in every export.
pub proof fn law_shown_texts_are_canonical(
    case: CaseView,
    message: MessageView,
    row: ActivityRow,
    subject: Seq<char>,
)
    ensures
        responses::case_on_wire(case) matches Ok(seen) ==> seen.case_id == outside::uuid_text(
            case.case_id,
        ) && (case.revision > 0 ==> seen.revision == decimal::decimal(case.revision as nat)),
        responses::requester_case_on_wire(case) matches Ok(seen) ==> seen.case_id
            == outside::uuid_text(case.case_id) && (case.revision > 0 ==> seen.revision
            == decimal::decimal(case.revision as nat)),
        responses::message_on_wire(message) matches Ok(seen) ==> seen.message_id
            == outside::uuid_text(message.message_id) && seen.case_id == outside::uuid_text(
            message.case_id,
        ) && (message.case_revision > 0 ==> seen.case_revision == decimal::decimal(
            message.case_revision as nat,
        )),
        responses::item_on_wire(message) matches Ok(seen) ==> seen.message_id == outside::uuid_text(
            message.message_id,
        ) && seen.case_id == outside::uuid_text(message.case_id),
        responses::requester_message_on_wire(message) matches Ok(seen) ==> seen.message_id
            == outside::uuid_text(message.message_id) && seen.case_id == outside::uuid_text(
            message.case_id,
        ) && (message.case_revision > 0 ==> seen.case_revision == decimal::decimal(
            message.case_revision as nat,
        )),
        responses::requester_item_on_wire(message) matches Ok(seen) ==> seen.message_id
            == outside::uuid_text(message.message_id) && seen.case_id == outside::uuid_text(
            message.case_id,
        ),
        privacy::exported_activity(row, subject) matches Ok(activity) ==> row.case_revision->0 > 0
            ==> activity.case_revision == decimal::decimal(row.case_revision->0 as nat),
{
}

/// A record that cannot be shown is told why: for its times first, then for a priority, a
/// state or a visibility that nothing has.
pub proof fn law_unshown_records_are_told_why(case: CaseView, message: MessageView)
    ensures
        ({
            let timely = outside::written_instant(case.created_at as int)
                && outside::written_instant(case.updated_at as int) && disclosure::can_be_told(
                case.resolved_at,
            ) && disclosure::can_be_told(case.closed_at);
            let ranked = case.priority == "low"@ || case.priority == "normal"@ || case.priority
                == "high"@ || case.priority == "urgent"@;
            &&& !timely ==> responses::case_on_wire(case) == Err::<CaseResponseView, _>(
                WireErrorView::UnwrittenTime,
            )
            &&& timely && !ranked ==> responses::case_on_wire(case) == Err::<CaseResponseView, _>(
                WireErrorView::UnknownPriority(case.priority),
            )
            &&& timely && ranked && responses::case_on_wire(case) is Err
                ==> responses::case_on_wire(case) == Err::<CaseResponseView, _>(
                WireErrorView::UnknownState(case.state),
            )
            &&& responses::case_on_wire(case) matches Err(error)
                ==> responses::requester_case_on_wire(case) == Err::<RequesterCaseView, _>(error)
        }),
        ({
            let timely = outside::written_instant(message.created_at as int);
            &&& !timely ==> responses::message_on_wire(message) == Err::<MessageResponseView, _>(
                WireErrorView::UnwrittenTime,
            )
            &&& timely && responses::message_on_wire(message) is Err ==> responses::message_on_wire(
                message,
            ) == Err::<MessageResponseView, _>(
                WireErrorView::UnknownVisibility(message.visibility),
            )
            &&& responses::message_on_wire(message) matches Err(error) ==> responses::item_on_wire(
                message,
            ) == Err::<MessageItemView, _>(error)
            &&& !timely ==> responses::requester_message_on_wire(message) == Err::<
                RequesterMessageView,
                _,
            >(WireErrorView::UnwrittenTime)
            &&& !timely ==> responses::requester_item_on_wire(message) == Err::<
                RequesterItemView,
                _,
            >(WireErrorView::UnwrittenTime)
        }),
{
    words::law_other_names_name_nothing(case.priority);
    words::law_other_names_name_nothing(case.state);
    words::law_other_names_name_nothing(message.visibility);
}

/// A call whose record cannot be shown fails, and says why; so does one whose storage
/// failed.
pub proof fn law_unshown_answers_are_failures<E, F>(
    case: CaseView,
    message: MessageView,
    error: StorageErrorView,
    failure: spec_fn(DomainFailure) -> E,
)
    ensures
        responses::case_on_wire(case) matches Err(reason) ==> service::case_call::<E, F>(
            Ok(AnswerView::Done(ResponseView::Case(case))),
            failure,
        ) == Err::<CaseResponseView, _>(
            CallErrorView::<E, F>::Runtime(
                FaultView::Internal(
                    "Support Case wire serialization failed: "@ + responses::wire_text(reason),
                ),
            ),
        ),
        responses::message_on_wire(message) matches Err(reason) ==> service::message_call::<E, F>(
            Ok(AnswerView::Done(ResponseView::Message(message))),
            failure,
        ) == Err::<MessageResponseView, _>(
            CallErrorView::<E, F>::Runtime(
                FaultView::Internal(
                    "Support Case wire serialization failed: "@ + responses::wire_text(reason),
                ),
            ),
        ),
        service::case_call::<E, F>(Err(error), failure) == Err::<CaseResponseView, _>(
            CallErrorView::<E, F>::Runtime(FaultView::PluginFailure(errors::storage_text(error))),
        ),
        service::message_call::<E, F>(Err(error), failure) == Err::<MessageResponseView, _>(
            CallErrorView::<E, F>::Runtime(FaultView::PluginFailure(errors::storage_text(error))),
        ),
{
}

} // verus!
