//! The requests of the back office: what makes each acceptable, what is asked about
//! its actor, and what it becomes once it is admitted.

use vstd::prelude::*;
use vstd::string::*;

use crate::access;
use crate::access::{
    Admission, BackOffice, Check, CheckView, Demand, Permission, Refusal,
};
use crate::command::{Change, ChangeView, Command, CommandView};
use crate::cursor;
use crate::cursor::{parse_optional_case_cursor, parse_optional_message_cursor};
use crate::failures::{
    AddMessageError, AssignCaseError, CreateCaseError, GetCaseError, ListCasesError,
    ListMessagesError, TransitionCaseError, UpdateCaseError,
};
use crate::model;
use crate::model::{
    priority_text, state_text, visibility_text, CaseState, EntryView, PayloadEntry, Priority,
    Visibility,
};
use crate::outside;
use crate::outside::parse_uuid;
use crate::reads;
use crate::reads::{
    case_key, CaseFilters, CaseFiltersView, CaseQuery, CaseQueryView, MessageQuery, MessageQueryView,
};
use crate::text;
use crate::validate;
use crate::validate::{
    parse_mutation_request, valid_case_ref, valid_idempotency_key, valid_opaque_id, valid_text,
    MAX_DESCRIPTION_BYTES, MAX_IDEMPOTENCY_BYTES, MAX_ID_BYTES, MAX_MESSAGE_BYTES, MAX_REASON_BYTES,
    MAX_TITLE_BYTES,
};
use crate::wire;
use crate::wire::{optional_entry, request_hash, text_entry};

verus! {

/// The greatest number of records on one page.
pub const MAX_PAGE: i64 = 200;

/// Opens a case.
#[derive(Debug, Eq, PartialEq)]
pub struct CreateCaseRequest {
    pub description: String,
    pub idempotency_key: String,
    pub organization_id: String,
    pub priority: Priority,
    pub title: String,
}

/// Reads one case.
#[derive(Debug, Eq, PartialEq)]
pub struct GetCaseRequest {
    pub case_ref: String,
    pub organization_id: String,
}

/// Lists cases.
#[derive(Debug, Eq, PartialEq)]
pub struct ListCasesRequest {
    pub assignee_subject: Option<String>,
    pub cursor: Option<String>,
    pub limit: i64,
    pub organization_id: String,
    pub requester_subject: Option<String>,
    pub state: Option<CaseState>,
}

/// Edits a case.
#[derive(Debug, Eq, PartialEq)]
pub struct UpdateCaseRequest {
    pub case_id: String,
    pub description: Option<String>,
    pub expected_revision: String,
    pub idempotency_key: String,
    pub organization_id: String,
    pub priority: Option<Priority>,
    pub title: Option<String>,
}

/// Assigns a case, or takes its assignment away.
#[derive(Debug, Eq, PartialEq)]
pub struct AssignCaseRequest {
    pub assignee_subject: Option<String>,
    pub case_id: String,
    pub expected_revision: String,
    pub idempotency_key: String,
    pub organization_id: String,
}

/// Moves a case through its lifecycle.
#[derive(Debug, Eq, PartialEq)]
pub struct TransitionCaseRequest {
    pub case_id: String,
    pub expected_revision: String,
    pub idempotency_key: String,
    pub organization_id: String,
    pub reason: Option<String>,
    pub state: CaseState,
}

/// Adds a public reply or an internal note.
#[derive(Debug, Eq, PartialEq)]
pub struct AddMessageRequest {
    pub body: String,
    pub case_id: String,
    pub expected_revision: String,
    pub idempotency_key: String,
    pub organization_id: String,
    pub visibility: Visibility,
}

/// Lists the messages of a case.
#[derive(Debug, Eq, PartialEq)]
pub struct ListMessagesRequest {
    pub case_id: String,
    pub cursor: Option<String>,
    pub limit: i64,
    pub organization_id: String,
}

/// The question whether a subject is an active member, where a no is a refusal.
pub open spec fn member_check(subject: Seq<char>, denial: Refusal) -> CheckView {
    CheckView { subject, demand: Demand::Membership, denial: Some(denial) }
}

/// The question whether an actor has a permission.
pub open spec fn permission_check(
    subject: Seq<char>,
    permission: Permission,
    denial: Option<Refusal>,
) -> CheckView {
    CheckView { subject, demand: Demand::Permission(permission), denial }
}

fn ask_membership(subject: &str, denial: Refusal) -> (check: Check)
    ensures
        check@ == member_check(subject@, denial),
{
    Check { subject: subject.to_owned(), demand: Demand::Membership, denial: Some(denial) }
}

fn ask_permission(subject: &str, permission: Permission, denial: Option<Refusal>) -> (check: Check)
    ensures
        check@ == permission_check(subject@, permission, denial),
{
    Check { subject: subject.to_owned(), demand: Demand::Permission(permission), denial }
}

/// What is asked about an actor who needs a permission: membership first.
pub open spec fn strict_checks(actor: Seq<char>, permission: Permission) -> Seq<CheckView> {
    seq![
        member_check(actor, Refusal::Forbidden),
        permission_check(actor, permission, Some(Refusal::Forbidden)),
    ]
}

/// What is asked about an actor for whom a permission only widens the view.
pub open spec fn related_checks(actor: Seq<char>, permission: Permission) -> Seq<CheckView> {
    seq![
        member_check(actor, Refusal::Forbidden),
        permission_check(actor, permission, None),
    ]
}

fn require_strict_permission(actor: &str, permission: Permission) -> (checks: Vec<Check>)
    ensures
        access::check_views(checks@) == strict_checks(actor@, permission),
{
    let mut checks: Vec<Check> = Vec::new();
    checks.push(ask_membership(actor, Refusal::Forbidden));
    checks.push(ask_permission(actor, permission, Some(Refusal::Forbidden)));
    assert(access::check_views(checks@) =~= strict_checks(actor@, permission));
    checks
}

fn consult_permission(actor: &str, permission: Permission) -> (checks: Vec<Check>)
    ensures
        access::check_views(checks@) == related_checks(actor@, permission),
{
    let mut checks: Vec<Check> = Vec::new();
    checks.push(ask_membership(actor, Refusal::Forbidden));
    checks.push(ask_permission(actor, permission, None));
    assert(access::check_views(checks@) =~= related_checks(actor@, permission));
    checks
}

/// Whether an optional text obeys a rule for texts, where there is one.
pub open spec fn optional_plain(value: Option<String>, maximum: nat, allow_empty: bool) -> bool {
    value matches Some(content) ==> validate::plain_text(content@, maximum, allow_empty)
}

/// Whether an optional identifier is acceptable, where there is one.
pub open spec fn optional_opaque(value: Option<String>) -> bool {
    value matches Some(content) ==> validate::opaque_id(content@, MAX_ID_BYTES as nat)
}

fn optional_text_valid(value: &Option<String>, maximum: usize, allow_empty: bool) -> (result: bool)
    ensures
        result == optional_plain(*value, maximum as nat, allow_empty),
{
    match value {
        Some(content) => valid_text(content.as_str(), maximum, allow_empty),
        None => true,
    }
}

fn optional_id_valid(value: &Option<String>) -> (result: bool)
    ensures
        result == optional_opaque(*value),
{
    match value {
        Some(content) => valid_opaque_id(content.as_str(), MAX_ID_BYTES),
        None => true,
    }
}

/// Whether an optional cursor names a place, where there is one.
pub open spec fn optional_cursor(value: Option<String>) -> bool {
    value matches Some(content) ==> cursor::place_named(content@) is Some
}

/// The name of an optional priority.
pub open spec fn optional_priority_name(priority: Option<Priority>) -> Option<Seq<char>> {
    match priority {
        Some(priority) => Some(model::priority_name(priority)),
        None => None,
    }
}

fn optional_priority_text(priority: Option<Priority>) -> (result: Option<String>)
    ensures
        text::optional_text(result) == optional_priority_name(priority),
{
    match priority {
        Some(priority) => Some(priority_text(priority).to_owned()),
        None => None,
    }
}

/// The identifier in a valid case field.
fn case_id_of(case_id: &str) -> (id: u128)
    requires
        outside::uuid_of(case_id@) is Some,
    ensures
        outside::uuid_of(case_id@) == Some(id),
{
    match parse_uuid(case_id) {
        Some(id) => id,
        None => 0,
    }
}

fn revision_of(organization_id: &str, case_id: &str, revision: &str, key: &str) -> (value: i64)
    requires
        validate::mutation_revision(organization_id@, case_id@, revision@, key@) is Some,
    ensures
        validate::mutation_revision(organization_id@, case_id@, revision@, key@) == Some(value),
{
    match parse_mutation_request(organization_id, case_id, revision, key) {
        Some(value) => value,
        None => 0,
    }
}

// ---- Opening a case ----

/// The members of the request's JSON.
pub open spec fn create_entries(request: CreateCaseRequest) -> Seq<EntryView> {
    seq![
        EntryView { key: "description"@, value: Some(request.description@) },
        EntryView { key: "idempotency_key"@, value: Some(request.idempotency_key@) },
        EntryView { key: "organization_id"@, value: Some(request.organization_id@) },
        EntryView { key: "priority"@, value: Some(model::priority_name(request.priority)) },
        EntryView { key: "title"@, value: Some(request.title@) },
    ]
}

fn create_hash(request: &CreateCaseRequest) -> (hash: Vec<u8>)
    ensures
        hash@ == wire::fingerprint(create_entries(*request)),
{
    let mut entries: Vec<PayloadEntry> = Vec::new();
    entries.push(text_entry("description", request.description.as_str()));
    entries.push(text_entry("idempotency_key", request.idempotency_key.as_str()));
    entries.push(text_entry("organization_id", request.organization_id.as_str()));
    entries.push(text_entry("priority", priority_text(request.priority)));
    entries.push(text_entry("title", request.title.as_str()));
    assert(model::entries_view(entries@) =~= create_entries(*request));
    request_hash(&entries)
}

impl BackOffice for CreateCaseRequest {
    type Error = CreateCaseError;

    open spec fn valid(&self) -> bool {
        &&& validate::opaque_id(self.organization_id@, MAX_ID_BYTES as nat)
        &&& validate::plain_text(self.title@, MAX_TITLE_BYTES as nat, false)
        &&& validate::plain_text(self.description@, MAX_DESCRIPTION_BYTES as nat, true)
        &&& validate::opaque_id(self.idempotency_key@, MAX_IDEMPOTENCY_BYTES as nat)
    }

    open spec fn organization(&self) -> Seq<char> {
        self.organization_id@
    }

    open spec fn checks(&self, actor: Seq<char>) -> Seq<CheckView> {
        strict_checks(actor, Permission::Create)
    }

    open spec fn operation() -> Seq<char> {
        "create_case"@
    }

    open spec fn refusal(refusal: Refusal) -> CreateCaseError {
        match refusal {
            Refusal::Forbidden => CreateCaseError::Forbidden,
            Refusal::Unauthenticated => CreateCaseError::Unauthenticated,
            Refusal::InvalidRequest => CreateCaseError::InvalidRequest,
        }
    }

    proof fn membership_comes_first(&self, actor: Seq<char>) {
    }

    fn is_valid(&self) -> (result: bool) {
        valid_opaque_id(self.organization_id.as_str(), MAX_ID_BYTES) && valid_text(
            self.title.as_str(),
            MAX_TITLE_BYTES,
            false,
        ) && valid_text(self.description.as_str(), MAX_DESCRIPTION_BYTES, true)
            && valid_idempotency_key(self.idempotency_key.as_str())
    }

    fn organization_id(&self) -> (result: &str) {
        self.organization_id.as_str()
    }

    fn required_checks(&self, actor: &str) -> (result: Vec<Check>) {
        require_strict_permission(actor, Permission::Create)
    }

    fn operation_name() -> (result: &'static str) {
        "create_case"
    }

    fn refuse(refusal: Refusal) -> (error: CreateCaseError) {
        match refusal {
            Refusal::Forbidden => CreateCaseError::Forbidden,
            Refusal::Unauthenticated => CreateCaseError::Unauthenticated,
            Refusal::InvalidRequest => CreateCaseError::InvalidRequest,
        }
    }
}

impl Admission<CreateCaseRequest> {
    /// The command that opens the case: its actor is requester and creator.
    pub fn command(self) -> (command: Command)
        ensures
            command@ == (CommandView {
                caller: self.caller@,
                idempotency_key: self.request.idempotency_key@,
                request_hash: wire::fingerprint(create_entries(self.request)),
                organization_id: self.request.organization_id@,
                actor: self.actor@,
                change: ChangeView::Create {
                    title: self.request.title@,
                    description: self.request.description@,
                    priority: model::priority_name(self.request.priority),
                },
            }),
    {
        let request_hash = create_hash(&self.request);
        let request = self.request;
        Command {
            caller: self.caller,
            idempotency_key: request.idempotency_key,
            request_hash,
            organization_id: request.organization_id,
            actor: self.actor,
            change: Change::Create {
                title: request.title,
                description: request.description,
                priority: priority_text(request.priority).to_owned(),
            },
        }
    }
}

// ---- Reading one case ----

impl BackOffice for GetCaseRequest {
    type Error = GetCaseError;

    open spec fn valid(&self) -> bool {
        &&& validate::opaque_id(self.organization_id@, MAX_ID_BYTES as nat)
        &&& validate::case_reference(self.case_ref@)
    }

    open spec fn organization(&self) -> Seq<char> {
        self.organization_id@
    }

    open spec fn checks(&self, actor: Seq<char>) -> Seq<CheckView> {
        related_checks(actor, Permission::Read)
    }

    open spec fn operation() -> Seq<char> {
        "get_case"@
    }

    open spec fn refusal(refusal: Refusal) -> GetCaseError {
        match refusal {
            Refusal::Forbidden => GetCaseError::Forbidden,
            Refusal::Unauthenticated => GetCaseError::Unauthenticated,
            Refusal::InvalidRequest => GetCaseError::InvalidRequest,
        }
    }

    proof fn membership_comes_first(&self, actor: Seq<char>) {
    }

    fn is_valid(&self) -> (result: bool) {
        valid_opaque_id(self.organization_id.as_str(), MAX_ID_BYTES) && valid_case_ref(
            self.case_ref.as_str(),
        )
    }

    fn organization_id(&self) -> (result: &str) {
        self.organization_id.as_str()
    }

    fn required_checks(&self, actor: &str) -> (result: Vec<Check>) {
        consult_permission(actor, Permission::Read)
    }

    fn operation_name() -> (result: &'static str) {
        "get_case"
    }

    fn refuse(refusal: Refusal) -> (error: GetCaseError) {
        match refusal {
            Refusal::Forbidden => GetCaseError::Forbidden,
            Refusal::Unauthenticated => GetCaseError::Unauthenticated,
            Refusal::InvalidRequest => GetCaseError::InvalidRequest,
        }
    }
}

impl Admission<GetCaseRequest> {
    /// The query for the case. Who may not read every case sees a related one.
    pub fn query(self) -> (query: CaseQuery)
        requires
            self.valid(),
        ensures
            query@ == (CaseQueryView {
                organization_id: self.request.organization_id@,
                key: reads::key_of(self.request.case_ref@),
                actor: self.actor@,
                can_read_all: self.answers@[1],
            }),
    {
        let key = case_key(self.request.case_ref.as_str());
        CaseQuery {
            organization_id: self.request.organization_id,
            key,
            actor: self.actor,
            can_read_all: self.answers[1],
        }
    }
}

// ---- Listing cases ----

/// The name of an optional state.
pub open spec fn optional_state_name(state: Option<CaseState>) -> Option<Seq<char>> {
    match state {
        Some(state) => Some(model::state_name(state)),
        None => None,
    }
}

/// The place that an optional cursor names.
pub open spec fn optional_place(value: Option<String>) -> Option<(int, u128)> {
    match value {
        Some(content) => cursor::place_named(content@),
        None => None,
    }
}

impl BackOffice for ListCasesRequest {
    type Error = ListCasesError;

    open spec fn valid(&self) -> bool {
        &&& optional_cursor(self.cursor)
        &&& validate::opaque_id(self.organization_id@, MAX_ID_BYTES as nat)
        &&& 1 <= self.limit <= MAX_PAGE
        &&& optional_opaque(self.assignee_subject)
        &&& optional_opaque(self.requester_subject)
    }

    open spec fn organization(&self) -> Seq<char> {
        self.organization_id@
    }

    open spec fn checks(&self, actor: Seq<char>) -> Seq<CheckView> {
        related_checks(actor, Permission::Read)
    }

    open spec fn operation() -> Seq<char> {
        "list_cases"@
    }

    open spec fn refusal(refusal: Refusal) -> ListCasesError {
        match refusal {
            Refusal::Forbidden => ListCasesError::Forbidden,
            Refusal::Unauthenticated => ListCasesError::Unauthenticated,
            Refusal::InvalidRequest => ListCasesError::InvalidRequest,
        }
    }

    proof fn membership_comes_first(&self, actor: Seq<char>) {
    }

    fn is_valid(&self) -> (result: bool) {
        parse_optional_case_cursor(&self.cursor).is_ok() && valid_opaque_id(
            self.organization_id.as_str(),
            MAX_ID_BYTES,
        ) && 1 <= self.limit && self.limit <= MAX_PAGE && optional_id_valid(&self.assignee_subject)
            && optional_id_valid(&self.requester_subject)
    }

    fn organization_id(&self) -> (result: &str) {
        self.organization_id.as_str()
    }

    fn required_checks(&self, actor: &str) -> (result: Vec<Check>) {
        consult_permission(actor, Permission::Read)
    }

    fn operation_name() -> (result: &'static str) {
        "list_cases"
    }

    fn refuse(refusal: Refusal) -> (error: ListCasesError) {
        match refusal {
            Refusal::Forbidden => ListCasesError::Forbidden,
            Refusal::Unauthenticated => ListCasesError::Unauthenticated,
            Refusal::InvalidRequest => ListCasesError::InvalidRequest,
        }
    }
}

impl Admission<ListCasesRequest> {
    /// The filters of the list. One record more than a page is asked for, to see
    /// whether there is another page.
    pub fn filters(self) -> (filters: CaseFilters)
        requires
            self.valid(),
        ensures
            filters@ == (CaseFiltersView {
                organization_id: self.request.organization_id@,
                state: optional_state_name(self.request.state),
                assignee_subject: text::optional_text(self.request.assignee_subject),
                requester_subject: text::optional_text(self.request.requester_subject),
                cursor: filters.cursor,
                actor: self.actor@,
                can_read_all: self.answers@[1],
                limit: (self.request.limit + 1) as i64,
            }),
            optional_place(self.request.cursor) == match filters.cursor {
                Some(place) => Some((place.updated_at as int, place.case_id)),
                None => None,
            },
    {
        let cursor = match parse_optional_case_cursor(&self.request.cursor) {
            Ok(cursor) => cursor,
            Err(()) => None,
        };
        let state = match self.request.state {
            Some(state) => Some(state_text(state)),
            None => None,
        };
        CaseFilters {
            organization_id: self.request.organization_id,
            state,
            assignee_subject: self.request.assignee_subject,
            requester_subject: self.request.requester_subject,
            cursor,
            actor: self.actor,
            can_read_all: self.answers[1],
            limit: self.request.limit + 1,
        }
    }
}

// ---- Editing a case ----

/// The members of the request's JSON.
pub open spec fn update_entries(request: UpdateCaseRequest) -> Seq<EntryView> {
    seq![
        EntryView { key: "case_id"@, value: Some(request.case_id@) },
        EntryView { key: "description"@, value: text::optional_text(request.description) },
        EntryView { key: "expected_revision"@, value: Some(request.expected_revision@) },
        EntryView { key: "idempotency_key"@, value: Some(request.idempotency_key@) },
        EntryView { key: "organization_id"@, value: Some(request.organization_id@) },
        EntryView { key: "priority"@, value: optional_priority_name(request.priority) },
        EntryView { key: "title"@, value: text::optional_text(request.title) },
    ]
}

fn update_hash(request: &UpdateCaseRequest) -> (hash: Vec<u8>)
    ensures
        hash@ == wire::fingerprint(update_entries(*request)),
{
    let mut entries: Vec<PayloadEntry> = Vec::new();
    entries.push(text_entry("case_id", request.case_id.as_str()));
    entries.push(optional_entry("description", &request.description));
    entries.push(text_entry("expected_revision", request.expected_revision.as_str()));
    entries.push(text_entry("idempotency_key", request.idempotency_key.as_str()));
    entries.push(text_entry("organization_id", request.organization_id.as_str()));
    entries.push(optional_entry("priority", &optional_priority_text(request.priority)));
    entries.push(optional_entry("title", &request.title));
    assert(model::entries_view(entries@) =~= update_entries(*request));
    request_hash(&entries)
}

impl BackOffice for UpdateCaseRequest {
    type Error = UpdateCaseError;

    open spec fn valid(&self) -> bool {
        &&& validate::mutation_revision(
            self.organization_id@,
            self.case_id@,
            self.expected_revision@,
            self.idempotency_key@,
        ) is Some
        &&& self.title is Some || self.description is Some || self.priority is Some
        &&& optional_plain(self.title, MAX_TITLE_BYTES as nat, false)
        &&& optional_plain(self.description, MAX_DESCRIPTION_BYTES as nat, true)
    }

    open spec fn organization(&self) -> Seq<char> {
        self.organization_id@
    }

    open spec fn checks(&self, actor: Seq<char>) -> Seq<CheckView> {
        strict_checks(actor, Permission::Write)
    }

    open spec fn operation() -> Seq<char> {
        "update_case"@
    }

    open spec fn refusal(refusal: Refusal) -> UpdateCaseError {
        match refusal {
            Refusal::Forbidden => UpdateCaseError::Forbidden,
            Refusal::Unauthenticated => UpdateCaseError::Unauthenticated,
            Refusal::InvalidRequest => UpdateCaseError::InvalidRequest,
        }
    }

    proof fn membership_comes_first(&self, actor: Seq<char>) {
    }

    fn is_valid(&self) -> (result: bool) {
        parse_mutation_request(
            self.organization_id.as_str(),
            self.case_id.as_str(),
            self.expected_revision.as_str(),
            self.idempotency_key.as_str(),
        ).is_some() && (self.title.is_some() || self.description.is_some() || self.priority.is_some())
            && optional_text_valid(&self.title, MAX_TITLE_BYTES, false) && optional_text_valid(
            &self.description,
            MAX_DESCRIPTION_BYTES,
            true,
        )
    }

    fn organization_id(&self) -> (result: &str) {
        self.organization_id.as_str()
    }

    fn required_checks(&self, actor: &str) -> (result: Vec<Check>) {
        require_strict_permission(actor, Permission::Write)
    }

    fn operation_name() -> (result: &'static str) {
        "update_case"
    }

    fn refuse(refusal: Refusal) -> (error: UpdateCaseError) {
        match refusal {
            Refusal::Forbidden => UpdateCaseError::Forbidden,
            Refusal::Unauthenticated => UpdateCaseError::Unauthenticated,
            Refusal::InvalidRequest => UpdateCaseError::InvalidRequest,
        }
    }
}

impl Admission<UpdateCaseRequest> {
    /// The command that edits the case.
    pub fn command(self) -> (command: Command)
        requires
            self.valid(),
        ensures
            command@ == (CommandView {
                caller: self.caller@,
                idempotency_key: self.request.idempotency_key@,
                request_hash: wire::fingerprint(update_entries(self.request)),
                organization_id: self.request.organization_id@,
                actor: self.actor@,
                change: ChangeView::Update {
                    case_id: outside::uuid_of(self.request.case_id@)->0,
                    expected_revision: validate::mutation_revision(
                        self.request.organization_id@,
                        self.request.case_id@,
                        self.request.expected_revision@,
                        self.request.idempotency_key@,
                    )->0,
                    title: text::optional_text(self.request.title),
                    description: text::optional_text(self.request.description),
                    priority: optional_priority_name(self.request.priority),
                },
            }),
    {
        let request_hash = update_hash(&self.request);
        let case_id: u128 = case_id_of(self.request.case_id.as_str());
        let expected_revision: i64 = revision_of(
            self.request.organization_id.as_str(),
            self.request.case_id.as_str(),
            self.request.expected_revision.as_str(),
            self.request.idempotency_key.as_str(),
        );
        let request = self.request;
        Command {
            caller: self.caller,
            idempotency_key: request.idempotency_key,
            request_hash,
            organization_id: request.organization_id,
            actor: self.actor,
            change: Change::Update {
                case_id,
                expected_revision,
                title: request.title,
                description: request.description,
                priority: optional_priority_text(request.priority),
            },
        }
    }
}

// ---- Assigning a case ----

/// The members of the request's JSON.
pub open spec fn assign_entries(request: AssignCaseRequest) -> Seq<EntryView> {
    seq![
        EntryView { key: "assignee_subject"@, value: text::optional_text(request.assignee_subject) },
        EntryView { key: "case_id"@, value: Some(request.case_id@) },
        EntryView { key: "expected_revision"@, value: Some(request.expected_revision@) },
        EntryView { key: "idempotency_key"@, value: Some(request.idempotency_key@) },
        EntryView { key: "organization_id"@, value: Some(request.organization_id@) },
    ]
}

fn assign_hash(request: &AssignCaseRequest) -> (hash: Vec<u8>)
    ensures
        hash@ == wire::fingerprint(assign_entries(*request)),
{
    let mut entries: Vec<PayloadEntry> = Vec::new();
    entries.push(optional_entry("assignee_subject", &request.assignee_subject));
    entries.push(text_entry("case_id", request.case_id.as_str()));
    entries.push(text_entry("expected_revision", request.expected_revision.as_str()));
    entries.push(text_entry("idempotency_key", request.idempotency_key.as_str()));
    entries.push(text_entry("organization_id", request.organization_id.as_str()));
    assert(model::entries_view(entries@) =~= assign_entries(*request));
    request_hash(&entries)
}

/// What is asked before a case is assigned: the assignee has to be a member too.
pub open spec fn assign_checks(actor: Seq<char>, assignee: Option<Seq<char>>) -> Seq<CheckView> {
    match assignee {
        Some(subject) => strict_checks(actor, Permission::Assign).push(
            member_check(subject, Refusal::InvalidRequest),
        ),
        None => strict_checks(actor, Permission::Assign),
    }
}

impl BackOffice for AssignCaseRequest {
    type Error = AssignCaseError;

    open spec fn valid(&self) -> bool {
        &&& validate::mutation_revision(
            self.organization_id@,
            self.case_id@,
            self.expected_revision@,
            self.idempotency_key@,
        ) is Some
        &&& optional_opaque(self.assignee_subject)
    }

    open spec fn organization(&self) -> Seq<char> {
        self.organization_id@
    }

    open spec fn checks(&self, actor: Seq<char>) -> Seq<CheckView> {
        assign_checks(actor, text::optional_text(self.assignee_subject))
    }

    open spec fn operation() -> Seq<char> {
        "assign_case"@
    }

    open spec fn refusal(refusal: Refusal) -> AssignCaseError {
        match refusal {
            Refusal::Forbidden => AssignCaseError::Forbidden,
            Refusal::Unauthenticated => AssignCaseError::Unauthenticated,
            Refusal::InvalidRequest => AssignCaseError::InvalidRequest,
        }
    }

    proof fn membership_comes_first(&self, actor: Seq<char>) {
    }

    fn is_valid(&self) -> (result: bool) {
        parse_mutation_request(
            self.organization_id.as_str(),
            self.case_id.as_str(),
            self.expected_revision.as_str(),
            self.idempotency_key.as_str(),
        ).is_some() && optional_id_valid(&self.assignee_subject)
    }

    fn organization_id(&self) -> (result: &str) {
        self.organization_id.as_str()
    }

    fn required_checks(&self, actor: &str) -> (result: Vec<Check>) {
        let mut checks = require_strict_permission(actor, Permission::Assign);
        if let Some(assignee) = &self.assignee_subject {
            checks.push(ask_membership(assignee.as_str(), Refusal::InvalidRequest));
        }
        assert(access::check_views(checks@) =~= self.checks(actor@));
        checks
    }

    fn operation_name() -> (result: &'static str) {
        "assign_case"
    }

    fn refuse(refusal: Refusal) -> (error: AssignCaseError) {
        match refusal {
            Refusal::Forbidden => AssignCaseError::Forbidden,
            Refusal::Unauthenticated => AssignCaseError::Unauthenticated,
            Refusal::InvalidRequest => AssignCaseError::InvalidRequest,
        }
    }
}

impl Admission<AssignCaseRequest> {
    /// The command that assigns the case.
    pub fn command(self) -> (command: Command)
        requires
            self.valid(),
        ensures
            command@ == (CommandView {
                caller: self.caller@,
                idempotency_key: self.request.idempotency_key@,
                request_hash: wire::fingerprint(assign_entries(self.request)),
                organization_id: self.request.organization_id@,
                actor: self.actor@,
                change: ChangeView::Assign {
                    case_id: outside::uuid_of(self.request.case_id@)->0,
                    expected_revision: validate::mutation_revision(
                        self.request.organization_id@,
                        self.request.case_id@,
                        self.request.expected_revision@,
                        self.request.idempotency_key@,
                    )->0,
                    assignee_subject: text::optional_text(self.request.assignee_subject),
                },
            }),
    {
        let request_hash = assign_hash(&self.request);
        let case_id: u128 = case_id_of(self.request.case_id.as_str());
        let expected_revision: i64 = revision_of(
            self.request.organization_id.as_str(),
            self.request.case_id.as_str(),
            self.request.expected_revision.as_str(),
            self.request.idempotency_key.as_str(),
        );
        let request = self.request;
        Command {
            caller: self.caller,
            idempotency_key: request.idempotency_key,
            request_hash,
            organization_id: request.organization_id,
            actor: self.actor,
            change: Change::Assign {
                case_id,
                expected_revision,
                assignee_subject: request.assignee_subject,
            },
        }
    }
}

// ---- Moving a case through its lifecycle ----

/// The members of the request's JSON.
pub open spec fn transition_entries(request: TransitionCaseRequest) -> Seq<EntryView> {
    seq![
        EntryView { key: "case_id"@, value: Some(request.case_id@) },
        EntryView { key: "expected_revision"@, value: Some(request.expected_revision@) },
        EntryView { key: "idempotency_key"@, value: Some(request.idempotency_key@) },
        EntryView { key: "organization_id"@, value: Some(request.organization_id@) },
        EntryView { key: "reason"@, value: text::optional_text(request.reason) },
        EntryView { key: "state"@, value: Some(model::state_name(request.state)) },
    ]
}

fn transition_hash(request: &TransitionCaseRequest) -> (hash: Vec<u8>)
    ensures
        hash@ == wire::fingerprint(transition_entries(*request)),
{
    let mut entries: Vec<PayloadEntry> = Vec::new();
    entries.push(text_entry("case_id", request.case_id.as_str()));
    entries.push(text_entry("expected_revision", request.expected_revision.as_str()));
    entries.push(text_entry("idempotency_key", request.idempotency_key.as_str()));
    entries.push(text_entry("organization_id", request.organization_id.as_str()));
    entries.push(optional_entry("reason", &request.reason));
    entries.push(text_entry("state", state_text(request.state)));
    assert(model::entries_view(entries@) =~= transition_entries(*request));
    request_hash(&entries)
}

impl BackOffice for TransitionCaseRequest {
    type Error = TransitionCaseError;

    open spec fn valid(&self) -> bool {
        &&& validate::mutation_revision(
            self.organization_id@,
            self.case_id@,
            self.expected_revision@,
            self.idempotency_key@,
        ) is Some
        &&& optional_plain(self.reason, MAX_REASON_BYTES as nat, true)
    }

    open spec fn organization(&self) -> Seq<char> {
        self.organization_id@
    }

    open spec fn checks(&self, actor: Seq<char>) -> Seq<CheckView> {
        strict_checks(actor, Permission::Transition)
    }

    open spec fn operation() -> Seq<char> {
        "transition_case"@
    }

    open spec fn refusal(refusal: Refusal) -> TransitionCaseError {
        match refusal {
            Refusal::Forbidden => TransitionCaseError::Forbidden,
            Refusal::Unauthenticated => TransitionCaseError::Unauthenticated,
            Refusal::InvalidRequest => TransitionCaseError::InvalidRequest,
        }
    }

    proof fn membership_comes_first(&self, actor: Seq<char>) {
    }

    fn is_valid(&self) -> (result: bool) {
        parse_mutation_request(
            self.organization_id.as_str(),
            self.case_id.as_str(),
            self.expected_revision.as_str(),
            self.idempotency_key.as_str(),
        ).is_some() && optional_text_valid(&self.reason, MAX_REASON_BYTES, true)
    }

    fn organization_id(&self) -> (result: &str) {
        self.organization_id.as_str()
    }

    fn required_checks(&self, actor: &str) -> (result: Vec<Check>) {
        require_strict_permission(actor, Permission::Transition)
    }

    fn operation_name() -> (result: &'static str) {
        "transition_case"
    }

    fn refuse(refusal: Refusal) -> (error: TransitionCaseError) {
        match refusal {
            Refusal::Forbidden => TransitionCaseError::Forbidden,
            Refusal::Unauthenticated => TransitionCaseError::Unauthenticated,
            Refusal::InvalidRequest => TransitionCaseError::InvalidRequest,
        }
    }
}

impl Admission<TransitionCaseRequest> {
    /// The command that moves the case.
    pub fn command(self) -> (command: Command)
        requires
            self.valid(),
        ensures
            command@ == (CommandView {
                caller: self.caller@,
                idempotency_key: self.request.idempotency_key@,
                request_hash: wire::fingerprint(transition_entries(self.request)),
                organization_id: self.request.organization_id@,
                actor: self.actor@,
                change: ChangeView::Transition {
                    case_id: outside::uuid_of(self.request.case_id@)->0,
                    expected_revision: validate::mutation_revision(
                        self.request.organization_id@,
                        self.request.case_id@,
                        self.request.expected_revision@,
                        self.request.idempotency_key@,
                    )->0,
                    target_state: model::state_name(self.request.state),
                    reason: text::optional_text(self.request.reason),
                },
            }),
    {
        let request_hash = transition_hash(&self.request);
        let case_id: u128 = case_id_of(self.request.case_id.as_str());
        let expected_revision: i64 = revision_of(
            self.request.organization_id.as_str(),
            self.request.case_id.as_str(),
            self.request.expected_revision.as_str(),
            self.request.idempotency_key.as_str(),
        );
        let request = self.request;
        Command {
            caller: self.caller,
            idempotency_key: request.idempotency_key,
            request_hash,
            organization_id: request.organization_id,
            actor: self.actor,
            change: Change::Transition {
                case_id,
                expected_revision,
                target_state: state_text(request.state).to_owned(),
                reason: request.reason,
            },
        }
    }
}

// ---- Adding a message ----

/// The members of the request's JSON.
pub open spec fn message_entries(request: AddMessageRequest) -> Seq<EntryView> {
    seq![
        EntryView { key: "body"@, value: Some(request.body@) },
        EntryView { key: "case_id"@, value: Some(request.case_id@) },
        EntryView { key: "expected_revision"@, value: Some(request.expected_revision@) },
        EntryView { key: "idempotency_key"@, value: Some(request.idempotency_key@) },
        EntryView { key: "organization_id"@, value: Some(request.organization_id@) },
        EntryView { key: "visibility"@, value: Some(model::visibility_name(request.visibility)) },
    ]
}

fn message_hash(request: &AddMessageRequest) -> (hash: Vec<u8>)
    ensures
        hash@ == wire::fingerprint(message_entries(*request)),
{
    let mut entries: Vec<PayloadEntry> = Vec::new();
    entries.push(text_entry("body", request.body.as_str()));
    entries.push(text_entry("case_id", request.case_id.as_str()));
    entries.push(text_entry("expected_revision", request.expected_revision.as_str()));
    entries.push(text_entry("idempotency_key", request.idempotency_key.as_str()));
    entries.push(text_entry("organization_id", request.organization_id.as_str()));
    entries.push(text_entry("visibility", visibility_text(request.visibility)));
    assert(model::entries_view(entries@) =~= message_entries(*request));
    request_hash(&entries)
}

impl BackOffice for AddMessageRequest {
    type Error = AddMessageError;

    open spec fn valid(&self) -> bool {
        &&& validate::mutation_revision(
            self.organization_id@,
            self.case_id@,
            self.expected_revision@,
            self.idempotency_key@,
        ) is Some
        &&& validate::plain_text(self.body@, MAX_MESSAGE_BYTES as nat, false)
    }

    open spec fn organization(&self) -> Seq<char> {
        self.organization_id@
    }

    open spec fn checks(&self, actor: Seq<char>) -> Seq<CheckView> {
        match self.visibility {
            Visibility::Public => related_checks(actor, Permission::Comment),
            Visibility::Internal => strict_checks(actor, Permission::InternalNote),
        }
    }

    open spec fn operation() -> Seq<char> {
        "add_message"@
    }

    open spec fn refusal(refusal: Refusal) -> AddMessageError {
        match refusal {
            Refusal::Forbidden => AddMessageError::Forbidden,
            Refusal::Unauthenticated => AddMessageError::Unauthenticated,
            Refusal::InvalidRequest => AddMessageError::InvalidRequest,
        }
    }

    proof fn membership_comes_first(&self, actor: Seq<char>) {
    }

    fn is_valid(&self) -> (result: bool) {
        parse_mutation_request(
            self.organization_id.as_str(),
            self.case_id.as_str(),
            self.expected_revision.as_str(),
            self.idempotency_key.as_str(),
        ).is_some() && valid_text(self.body.as_str(), MAX_MESSAGE_BYTES, false)
    }

    fn organization_id(&self) -> (result: &str) {
        self.organization_id.as_str()
    }

    fn required_checks(&self, actor: &str) -> (result: Vec<Check>) {
        match self.visibility {
            Visibility::Public => consult_permission(actor, Permission::Comment),
            Visibility::Internal => require_strict_permission(actor, Permission::InternalNote),
        }
    }

    fn operation_name() -> (result: &'static str) {
        "add_message"
    }

    fn refuse(refusal: Refusal) -> (error: AddMessageError) {
        match refusal {
            Refusal::Forbidden => AddMessageError::Forbidden,
            Refusal::Unauthenticated => AddMessageError::Unauthenticated,
            Refusal::InvalidRequest => AddMessageError::InvalidRequest,
        }
    }
}

impl Admission<AddMessageRequest> {
    /// The command that adds the message. Who has the permission may write in every
    /// case, and for an internal note one has it.
    pub fn command(self) -> (command: Command)
        requires
            self.valid(),
        ensures
            command@ == (CommandView {
                caller: self.caller@,
                idempotency_key: self.request.idempotency_key@,
                request_hash: wire::fingerprint(message_entries(self.request)),
                organization_id: self.request.organization_id@,
                actor: self.actor@,
                change: ChangeView::AddMessage {
                    case_id: outside::uuid_of(self.request.case_id@)->0,
                    expected_revision: validate::mutation_revision(
                        self.request.organization_id@,
                        self.request.case_id@,
                        self.request.expected_revision@,
                        self.request.idempotency_key@,
                    )->0,
                    can_comment_all: self.answers@[1],
                    visibility: model::visibility_name(self.request.visibility),
                    body: self.request.body@,
                },
            }),
    {
        let request_hash = message_hash(&self.request);
        let case_id: u128 = case_id_of(self.request.case_id.as_str());
        let expected_revision: i64 = revision_of(
            self.request.organization_id.as_str(),
            self.request.case_id.as_str(),
            self.request.expected_revision.as_str(),
            self.request.idempotency_key.as_str(),
        );
        let can_comment_all = self.answers[1];
        let request = self.request;
        Command {
            caller: self.caller,
            idempotency_key: request.idempotency_key,
            request_hash,
            organization_id: request.organization_id,
            actor: self.actor,
            change: Change::AddMessage {
                case_id,
                expected_revision,
                can_comment_all,
                visibility: visibility_text(request.visibility).to_owned(),
                body: request.body,
            },
        }
    }
}

// ---- Listing messages ----

/// What is asked before messages are listed: both permissions only widen the view.
pub open spec fn list_message_checks(actor: Seq<char>) -> Seq<CheckView> {
    related_checks(actor, Permission::Read).push(
        permission_check(actor, Permission::InternalNote, None),
    )
}

impl BackOffice for ListMessagesRequest {
    type Error = ListMessagesError;

    open spec fn valid(&self) -> bool {
        &&& optional_cursor(self.cursor)
        &&& validate::opaque_id(self.organization_id@, MAX_ID_BYTES as nat)
        &&& 1 <= self.limit <= MAX_PAGE
        &&& outside::uuid_of(self.case_id@) is Some
    }

    open spec fn organization(&self) -> Seq<char> {
        self.organization_id@
    }

    open spec fn checks(&self, actor: Seq<char>) -> Seq<CheckView> {
        list_message_checks(actor)
    }

    open spec fn operation() -> Seq<char> {
        "list_messages"@
    }

    open spec fn refusal(refusal: Refusal) -> ListMessagesError {
        match refusal {
            Refusal::Forbidden => ListMessagesError::Forbidden,
            Refusal::Unauthenticated => ListMessagesError::Unauthenticated,
            Refusal::InvalidRequest => ListMessagesError::InvalidRequest,
        }
    }

    proof fn membership_comes_first(&self, actor: Seq<char>) {
    }

    fn is_valid(&self) -> (result: bool) {
        parse_optional_message_cursor(&self.cursor).is_ok() && valid_opaque_id(
            self.organization_id.as_str(),
            MAX_ID_BYTES,
        ) && 1 <= self.limit && self.limit <= MAX_PAGE && parse_uuid(
            self.case_id.as_str(),
        ).is_some()
    }

    fn organization_id(&self) -> (result: &str) {
        self.organization_id.as_str()
    }

    fn required_checks(&self, actor: &str) -> (result: Vec<Check>) {
        let mut checks = consult_permission(actor, Permission::Read);
        checks.push(ask_permission(actor, Permission::InternalNote, None));
        assert(access::check_views(checks@) =~= self.checks(actor@));
        checks
    }

    fn operation_name() -> (result: &'static str) {
        "list_messages"
    }

    fn refuse(refusal: Refusal) -> (error: ListMessagesError) {
        match refusal {
            Refusal::Forbidden => ListMessagesError::Forbidden,
            Refusal::Unauthenticated => ListMessagesError::Unauthenticated,
            Refusal::InvalidRequest => ListMessagesError::InvalidRequest,
        }
    }
}

impl Admission<ListMessagesRequest> {
    /// The query for the messages. Internal notes are only for who has their
    /// permission.
    pub fn query(self) -> (query: MessageQuery)
        requires
            self.valid(),
        ensures
            query@ == (MessageQueryView {
                organization_id: self.request.organization_id@,
                case_id: outside::uuid_of(self.request.case_id@)->0,
                actor: self.actor@,
                can_read_all: self.answers@[1],
                can_read_internal: self.answers@[2],
                cursor: query.cursor,
                limit: (self.request.limit + 1) as i64,
            }),
            optional_place(self.request.cursor) == match query.cursor {
                Some(place) => Some((place.created_at as int, place.message_id)),
                None => None,
            },
    {
        let cursor = match parse_optional_message_cursor(&self.request.cursor) {
            Ok(cursor) => cursor,
            Err(()) => None,
        };
        let case_id: u128 = case_id_of(self.request.case_id.as_str());
        MessageQuery {
            organization_id: self.request.organization_id,
            case_id,
            actor: self.actor,
            can_read_all: self.answers[1],
            can_read_internal: self.answers[2],
            cursor,
            limit: self.request.limit + 1,
        }
    }
}

// ---- What the permissions guard ----

/// Whether answers say that an actor has a permission that is asked for.
pub open spec fn granted(checks: Seq<CheckView>, answers: Seq<bool>, permission: Permission) -> bool {
    exists|i: int|
        0 <= i < answers.len() && i < checks.len() && (#[trigger] checks[i]).demand
            == Demand::Permission(permission) && answers[i]
}

/// A case is opened only for an actor with the permission to create.
pub proof fn law_creating_takes_permission(
    request: CreateCaseRequest,
    actor: Seq<char>,
    answers: Seq<bool>,
)
    requires
        access::admits(request, actor, answers),
    ensures
        granted(request.checks(actor), answers, Permission::Create),
{
    assert(request.checks(actor)[1].demand == Demand::Permission(Permission::Create));
}

/// A case is edited only for an actor with the permission to write.
pub proof fn law_editing_takes_permission(
    request: UpdateCaseRequest,
    actor: Seq<char>,
    answers: Seq<bool>,
)
    requires
        access::admits(request, actor, answers),
    ensures
        granted(request.checks(actor), answers, Permission::Write),
{
    assert(request.checks(actor)[1].demand == Demand::Permission(Permission::Write));
}

/// A case is assigned only for an actor with the permission to assign, and only to
/// an active member.
pub proof fn law_assigning_takes_permission(
    request: AssignCaseRequest,
    actor: Seq<char>,
    answers: Seq<bool>,
)
    requires
        access::admits(request, actor, answers),
    ensures
        granted(request.checks(actor), answers, Permission::Assign),
        request.assignee_subject matches Some(assignee) ==> answers.len() == 3 && answers[2]
            && request.checks(actor)[2].demand == Demand::Membership
            && request.checks(actor)[2].subject == assignee@,
{
    assert(request.checks(actor)[1].demand == Demand::Permission(Permission::Assign));
}

/// A case is moved through its lifecycle only for an actor with the permission to
/// do so.
pub proof fn law_moving_takes_permission(
    request: TransitionCaseRequest,
    actor: Seq<char>,
    answers: Seq<bool>,
)
    requires
        access::admits(request, actor, answers),
    ensures
        granted(request.checks(actor), answers, Permission::Transition),
{
    assert(request.checks(actor)[1].demand == Demand::Permission(Permission::Transition));
}

/// An internal note is written only for an actor with the permission for it, whoever
/// is related to the case.
pub proof fn law_noting_takes_permission(
    request: AddMessageRequest,
    actor: Seq<char>,
    answers: Seq<bool>,
)
    requires
        access::admits(request, actor, answers),
        request.visibility is Internal,
    ensures
        granted(request.checks(actor), answers, Permission::InternalNote),
{
    assert(request.checks(actor)[1].demand == Demand::Permission(Permission::InternalNote));
}

} // verus!
