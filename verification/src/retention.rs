//! Privacy retention: how a subject is taken out of the stored records.
//!
//! Anonymizing replaces the subject by a drawn name wherever it stands. Deleting also
//! redacts what the subject wrote and clears its assignments. Shared records stay.

use vstd::prelude::*;
use vstd::string::*;

use crate::model;
use crate::model::{
    ActivityView, CaseView, EntryView, MessageView, PayloadEntry, ResponseView,
    RetentionReceiptView, StoredResponse,
};
use crate::outside;
use crate::text;
use crate::text::{same_optional_text, same_text};

verus! {

/// What stands in the place of a deleted title.
pub const DELETED_TITLE: &'static str = "[deleted support case]";

/// What stands in the place of deleted content.
pub const DELETED_CONTENT: &'static str = "[deleted by privacy request]";

/// A retention action on one subject of one organization.
#[derive(Debug, Eq, PartialEq)]
pub struct Retention {
    pub action_id: String,
    pub request_hash: Vec<u8>,
    pub organization_id: String,
    pub subject: String,
    pub delete_content: bool,
}

/// The view of a retention action.
#[verifier::ext_equal]
pub struct RetentionView {
    pub action_id: Seq<char>,
    pub request_hash: Seq<u8>,
    pub organization_id: Seq<char>,
    pub subject: Seq<char>,
    pub delete_content: bool,
}

impl View for Retention {
    type V = RetentionView;

    open spec fn view(&self) -> RetentionView {
        RetentionView {
            action_id: self.action_id@,
            request_hash: self.request_hash@,
            organization_id: self.organization_id@,
            subject: self.subject@,
            delete_content: self.delete_content,
        }
    }
}

/// What retention reads and changes of a case.
#[derive(Debug, Eq, PartialEq)]
pub struct RetainedCase {
    pub case_id: u128,
    pub requester_subject: String,
    pub creator_subject: String,
    pub assignee_subject: Option<String>,
    pub title: String,
    pub description: String,
    pub revision: i64,
}

/// The view of the retained part of a case.
#[verifier::ext_equal]
pub struct RetainedCaseView {
    pub case_id: u128,
    pub requester_subject: Seq<char>,
    pub creator_subject: Seq<char>,
    pub assignee_subject: Option<Seq<char>>,
    pub title: Seq<char>,
    pub description: Seq<char>,
    pub revision: i64,
}

impl View for RetainedCase {
    type V = RetainedCaseView;

    open spec fn view(&self) -> RetainedCaseView {
        RetainedCaseView {
            case_id: self.case_id,
            requester_subject: self.requester_subject@,
            creator_subject: self.creator_subject@,
            assignee_subject: text::optional_text(self.assignee_subject),
            title: self.title@,
            description: self.description@,
            revision: self.revision,
        }
    }
}

/// What retention reads and changes of a message.
#[derive(Debug, Eq, PartialEq)]
pub struct RetainedMessage {
    pub message_id: u128,
    pub author_subject: String,
    pub body: String,
}

/// The view of the retained part of a message.
#[verifier::ext_equal]
pub struct RetainedMessageView {
    pub message_id: u128,
    pub author_subject: Seq<char>,
    pub body: Seq<char>,
}

impl View for RetainedMessage {
    type V = RetainedMessageView;

    open spec fn view(&self) -> RetainedMessageView {
        RetainedMessageView {
            message_id: self.message_id,
            author_subject: self.author_subject@,
            body: self.body@,
        }
    }
}

/// What retention reads and changes of an activity.
#[derive(Debug, Eq, PartialEq)]
pub struct RetainedActivity {
    pub activity_id: u128,
    pub actor_subject: String,
    pub payload: Vec<PayloadEntry>,
}

/// The view of the retained part of an activity.
#[verifier::ext_equal]
pub struct RetainedActivityView {
    pub activity_id: u128,
    pub actor_subject: Seq<char>,
    pub payload: Seq<EntryView>,
}

impl View for RetainedActivity {
    type V = RetainedActivityView;

    open spec fn view(&self) -> RetainedActivityView {
        RetainedActivityView {
            activity_id: self.activity_id,
            actor_subject: self.actor_subject@,
            payload: model::entries_view(self.payload@),
        }
    }
}

/// What retention reads and changes of a command's receipt.
#[derive(Debug, Eq, PartialEq)]
pub struct RetainedReceipt {
    pub caller_instance: String,
    pub idempotency_key: String,
    pub response: StoredResponse,
}

/// The view of the retained part of a receipt.
#[verifier::ext_equal]
pub struct RetainedReceiptView {
    pub caller_instance: Seq<char>,
    pub idempotency_key: Seq<char>,
    pub response: ResponseView,
}

impl View for RetainedReceipt {
    type V = RetainedReceiptView;

    open spec fn view(&self) -> RetainedReceiptView {
        RetainedReceiptView {
            caller_instance: self.caller_instance@,
            idempotency_key: self.idempotency_key@,
            response: self.response@,
        }
    }
}

/// A name with the subject replaced.
pub open spec fn renamed(name: Seq<char>, subject: Seq<char>, anonymized: Seq<char>) -> Seq<char> {
    if name == subject {
        anonymized
    } else {
        name
    }
}

/// An assignment without the subject: under the drawn name, or cleared where content
/// is deleted.
pub open spec fn assignee_without(
    assignee: Option<Seq<char>>,
    subject: Seq<char>,
    anonymized: Seq<char>,
    delete_content: bool,
) -> Option<Seq<char>> {
    if assignee == Some(subject) {
        if delete_content {
            None
        } else {
            Some(anonymized)
        }
    } else {
        assignee
    }
}

/// A case without the subject, one revision higher.
pub open spec fn without_subject(
    case: RetainedCaseView,
    subject: Seq<char>,
    anonymized: Seq<char>,
    delete_content: bool,
) -> RetainedCaseView {
    let redact = delete_content && (case.requester_subject == subject || case.creator_subject
        == subject);
    RetainedCaseView {
        case_id: case.case_id,
        requester_subject: renamed(case.requester_subject, subject, anonymized),
        creator_subject: renamed(case.creator_subject, subject, anonymized),
        assignee_subject: assignee_without(
            case.assignee_subject,
            subject,
            anonymized,
            delete_content,
        ),
        title: if redact {
            DELETED_TITLE@
        } else {
            case.title
        },
        description: if redact {
            DELETED_CONTENT@
        } else {
            case.description
        },
        revision: (case.revision + 1) as i64,
    }
}

/// A message without the subject as its author.
pub open spec fn unauthored(
    message: RetainedMessageView,
    subject: Seq<char>,
    anonymized: Seq<char>,
    delete_content: bool,
) -> RetainedMessageView {
    RetainedMessageView {
        message_id: message.message_id,
        author_subject: renamed(message.author_subject, subject, anonymized),
        body: if delete_content && message.author_subject == subject {
            DELETED_CONTENT@
        } else {
            message.body
        },
    }
}

/// One member of a payload without the subject. Where content is deleted, the reason
/// in an activity of the subject's own goes too.
pub open spec fn sanitized_entry(
    entry: EntryView,
    subject: Seq<char>,
    anonymized: Seq<char>,
    delete_content: bool,
    own: bool,
) -> EntryView {
    if entry.key == "assignee_subject"@ {
        EntryView {
            key: entry.key,
            value: assignee_without(entry.value, subject, anonymized, delete_content),
        }
    } else if delete_content && own && entry.key == "reason"@ {
        EntryView { key: entry.key, value: Some(DELETED_CONTENT@) }
    } else {
        entry
    }
}

/// An activity without the subject.
pub open spec fn unattributed(
    activity: RetainedActivityView,
    subject: Seq<char>,
    anonymized: Seq<char>,
    delete_content: bool,
) -> RetainedActivityView {
    RetainedActivityView {
        activity_id: activity.activity_id,
        actor_subject: renamed(activity.actor_subject, subject, anonymized),
        payload: activity.payload.map_values(
            |entry: EntryView|
                sanitized_entry(
                    entry,
                    subject,
                    anonymized,
                    delete_content,
                    activity.actor_subject == subject,
                ),
        ),
    }
}

/// A stored response without the subject.
pub open spec fn sanitized_response(
    response: ResponseView,
    subject: Seq<char>,
    anonymized: Seq<char>,
    delete_content: bool,
) -> ResponseView {
    match response {
        ResponseView::Case(case) => {
            let redact = delete_content && (case.requester_subject == subject
                || case.creator_subject == subject);
            ResponseView::Case(
                CaseView {
                    requester_subject: renamed(case.requester_subject, subject, anonymized),
                    creator_subject: renamed(case.creator_subject, subject, anonymized),
                    assignee_subject: assignee_without(
                        case.assignee_subject,
                        subject,
                        anonymized,
                        delete_content,
                    ),
                    title: if redact {
                        DELETED_TITLE@
                    } else {
                        case.title
                    },
                    description: if redact {
                        DELETED_CONTENT@
                    } else {
                        case.description
                    },
                    ..case
                },
            )
        },
        ResponseView::Message(message) => ResponseView::Message(
            MessageView {
                author_subject: renamed(message.author_subject, subject, anonymized),
                body: if delete_content && message.author_subject == subject {
                    DELETED_CONTENT@
                } else {
                    message.body
                },
                ..message
            },
        ),
    }
}

/// The drawn name that replaces a subject.
pub open spec fn anonymous_name(drawn: u128) -> Seq<char> {
    "anon_"@ + outside::simple_uuid(drawn)
}

/// The actor under which a retention action enters the history.
pub open spec fn retention_actor(action_id: Seq<char>) -> Seq<char> {
    "retention:"@ + action_id
}

/// The receipt text of a retention action.
pub open spec fn receipt_text(action_id: Seq<char>, delete_content: bool) -> Seq<char> {
    "support-case:"@ + action_id + (if delete_content {
        ":deleted"@
    } else {
        ":anonymized"@
    })
}

/// The entry that a retention action leaves in the history of a case.
pub open spec fn retention_activity(
    retention: RetentionView,
    case_id: u128,
    revision: i64,
    activity_id: u128,
    now: i128,
) -> ActivityView {
    ActivityView {
        activity_id,
        organization_id: retention.organization_id,
        case_id,
        kind: "privacy.retention_applied"@,
        actor_subject: retention_actor(retention.action_id),
        case_revision: revision,
        payload: seq![
            EntryView {
                key: "mode"@,
                value: Some(
                    if retention.delete_content {
                        "delete"@
                    } else {
                        "anonymize"@
                    },
                ),
            },
        ],
        created_at: now,
    }
}

/// The receipt that a retention action leaves.
pub open spec fn retention_receipt(
    retention: RetentionView,
    anonymized: Seq<char>,
) -> RetentionReceiptView {
    RetentionReceiptView {
        action_id: retention.action_id,
        request_hash: retention.request_hash,
        receipt: receipt_text(retention.action_id, retention.delete_content),
        anonymized_subject: anonymized,
    }
}

fn rename(name: &String, subject: &str, anonymized: &String) -> (result: String)
    ensures
        result@ == renamed(name@, subject@, anonymized@),
{
    if same_text(name.as_str(), subject) {
        anonymized.clone()
    } else {
        name.clone()
    }
}

fn reassign(
    assignee: &Option<String>,
    subject: &str,
    anonymized: &String,
    delete_content: bool,
) -> (result: Option<String>)
    ensures
        text::optional_text(result) == assignee_without(
            text::optional_text(*assignee),
            subject@,
            anonymized@,
            delete_content,
        ),
{
    if same_optional_text(assignee, subject) {
        if delete_content {
            None
        } else {
            Some(anonymized.clone())
        }
    } else {
        assignee.clone()
    }
}

fn content_or(redact: bool, replacement: &str, content: &String) -> (result: String)
    ensures
        result@ == (if redact {
            replacement@
        } else {
            content@
        }),
{
    if redact {
        replacement.to_owned()
    } else {
        content.clone()
    }
}

/// Takes a subject out of a case.
pub fn retain_case(case: &RetainedCase, subject: &str, anonymized: &String, delete_content: bool) -> (result:
    RetainedCase)
    requires
        case.revision < i64::MAX,
    ensures
        result@ == without_subject(case@, subject@, anonymized@, delete_content),
{
    let redact = delete_content && (same_text(case.requester_subject.as_str(), subject)
        || same_text(case.creator_subject.as_str(), subject));
    RetainedCase {
        case_id: case.case_id,
        requester_subject: rename(&case.requester_subject, subject, anonymized),
        creator_subject: rename(&case.creator_subject, subject, anonymized),
        assignee_subject: reassign(&case.assignee_subject, subject, anonymized, delete_content),
        title: content_or(redact, DELETED_TITLE, &case.title),
        description: content_or(redact, DELETED_CONTENT, &case.description),
        revision: case.revision + 1,
    }
}

/// Takes a subject out of a message.
pub fn retain_message(
    message: &RetainedMessage,
    subject: &str,
    anonymized: &String,
    delete_content: bool,
) -> (result: RetainedMessage)
    ensures
        result@ == unauthored(message@, subject@, anonymized@, delete_content),
{
    let redact = delete_content && same_text(message.author_subject.as_str(), subject);
    RetainedMessage {
        message_id: message.message_id,
        author_subject: rename(&message.author_subject, subject, anonymized),
        body: content_or(redact, DELETED_CONTENT, &message.body),
    }
}

fn retain_entry(
    entry: &PayloadEntry,
    subject: &str,
    anonymized: &String,
    delete_content: bool,
    own: bool,
) -> (result: PayloadEntry)
    ensures
        result@ == sanitized_entry(entry@, subject@, anonymized@, delete_content, own),
{
    if same_text(entry.key.as_str(), "assignee_subject") {
        PayloadEntry {
            key: entry.key.clone(),
            value: reassign(&entry.value, subject, anonymized, delete_content),
        }
    } else if delete_content && own && same_text(entry.key.as_str(), "reason") {
        PayloadEntry { key: entry.key.clone(), value: Some(DELETED_CONTENT.to_owned()) }
    } else {
        PayloadEntry { key: entry.key.clone(), value: entry.value.clone() }
    }
}

/// Takes a subject out of an activity.
pub fn retain_activity(
    activity: &RetainedActivity,
    subject: &str,
    anonymized: &String,
    delete_content: bool,
) -> (result: RetainedActivity)
    ensures
        result@ == unattributed(activity@, subject@, anonymized@, delete_content),
{
    let own = same_text(activity.actor_subject.as_str(), subject);
    let mut payload: Vec<PayloadEntry> = Vec::new();
    let mut index: usize = 0;
    while index < activity.payload.len()
        invariant
            index <= activity.payload@.len(),
            payload@.len() == index,
            forall|i: int|
                0 <= i < index ==> (#[trigger] payload@[i])@ == sanitized_entry(
                    activity.payload@[i]@,
                    subject@,
                    anonymized@,
                    delete_content,
                    own,
                ),
        decreases activity.payload@.len() - index,
    {
        payload.push(
            retain_entry(&activity.payload[index], subject, anonymized, delete_content, own),
        );
        index += 1;
    }
    let result = RetainedActivity {
        activity_id: activity.activity_id,
        actor_subject: rename(&activity.actor_subject, subject, anonymized),
        payload,
    };
    assert(result@.payload =~= unattributed(
        activity@,
        subject@,
        anonymized@,
        delete_content,
    ).payload);
    result
}

/// Takes a subject out of a stored response.
pub fn retain_response(
    response: &StoredResponse,
    subject: &str,
    anonymized: &String,
    delete_content: bool,
) -> (result: StoredResponse)
    ensures
        result@ == sanitized_response(response@, subject@, anonymized@, delete_content),
{
    match response {
        StoredResponse::Case(case) => {
            let redact = delete_content && (same_text(case.requester_subject.as_str(), subject)
                || same_text(case.creator_subject.as_str(), subject));
            let mut record = case.clone();
            record.requester_subject = rename(&case.requester_subject, subject, anonymized);
            record.creator_subject = rename(&case.creator_subject, subject, anonymized);
            record.assignee_subject = reassign(
                &case.assignee_subject,
                subject,
                anonymized,
                delete_content,
            );
            record.title = content_or(redact, DELETED_TITLE, &case.title);
            record.description = content_or(redact, DELETED_CONTENT, &case.description);
            StoredResponse::Case(record)
        },
        StoredResponse::Message(message) => {
            let redact = delete_content && same_text(message.author_subject.as_str(), subject);
            let mut record = message.clone();
            record.author_subject = rename(&message.author_subject, subject, anonymized);
            record.body = content_or(redact, DELETED_CONTENT, &message.body);
            StoredResponse::Message(record)
        },
    }
}

} // verus!
