//! The domain errors of each operation, and how a refused command becomes one.

use vstd::prelude::*;
use vstd::string::*;

use crate::model::DomainFailure;

verus! {

/// The domain errors of `create_case`.
#[derive(Debug, Eq, PartialEq)]
pub enum CreateCaseError {
    Forbidden,
    IdempotencyConflict,
    InvalidRequest,
    Unauthenticated,
    /// A code that this release does not know.
    Unknown(String),
}

/// The domain errors of `get_case`.
#[derive(Debug, Eq, PartialEq)]
pub enum GetCaseError {
    CaseNotFound,
    Forbidden,
    InvalidRequest,
    Unauthenticated,
    /// A code that this release does not know.
    Unknown(String),
}

/// The domain errors of `list_cases`.
#[derive(Debug, Eq, PartialEq)]
pub enum ListCasesError {
    Forbidden,
    InvalidRequest,
    Unauthenticated,
    /// A code that this release does not know.
    Unknown(String),
}

/// The domain errors of `update_case`.
#[derive(Debug, Eq, PartialEq)]
pub enum UpdateCaseError {
    CaseNotFound,
    Forbidden,
    IdempotencyConflict,
    InvalidRequest,
    RevisionConflict,
    Unauthenticated,
    /// A code that this release does not know.
    Unknown(String),
}

/// The domain errors of `assign_case`.
#[derive(Debug, Eq, PartialEq)]
pub enum AssignCaseError {
    CaseNotFound,
    Forbidden,
    IdempotencyConflict,
    InvalidRequest,
    RevisionConflict,
    Unauthenticated,
    /// A code that this release does not know.
    Unknown(String),
}

/// The domain errors of `transition_case`.
#[derive(Debug, Eq, PartialEq)]
pub enum TransitionCaseError {
    CaseNotFound,
    Forbidden,
    IdempotencyConflict,
    InvalidRequest,
    InvalidTransition,
    RevisionConflict,
    Unauthenticated,
    /// A code that this release does not know.
    Unknown(String),
}

/// The domain errors of `add_message`.
#[derive(Debug, Eq, PartialEq)]
pub enum AddMessageError {
    CaseNotFound,
    Forbidden,
    IdempotencyConflict,
    InvalidRequest,
    RevisionConflict,
    Unauthenticated,
    /// A code that this release does not know.
    Unknown(String),
}

/// The domain errors of `list_messages`.
#[derive(Debug, Eq, PartialEq)]
pub enum ListMessagesError {
    CaseNotFound,
    Forbidden,
    InvalidRequest,
    Unauthenticated,
    /// A code that this release does not know.
    Unknown(String),
}

/// The domain errors of `open_case_from_channel`.
#[derive(Debug, Eq, PartialEq)]
pub enum OpenCaseFromChannelError {
    Forbidden,
    IdempotencyConflict,
    InvalidRequest,
    /// A code that this release does not know.
    Unknown(String),
}

/// The domain errors of `append_channel_message`.
#[derive(Debug, Eq, PartialEq)]
pub enum AppendChannelMessageError {
    CaseNotFound,
    Forbidden,
    IdempotencyConflict,
    InvalidRequest,
    RevisionConflict,
    /// A code that this release does not know.
    Unknown(String),
}

/// The domain errors of `get_requester_case`.
#[derive(Debug, Eq, PartialEq)]
pub enum GetRequesterCaseError {
    CaseNotFound,
    Forbidden,
    InvalidRequest,
    /// A code that this release does not know.
    Unknown(String),
}

/// The domain errors of `list_requester_messages`.
#[derive(Debug, Eq, PartialEq)]
pub enum ListRequesterMessagesError {
    CaseNotFound,
    Forbidden,
    InvalidRequest,
    /// A code that this release does not know.
    Unknown(String),
}

/// The domain errors of `authorize_case_access`.
#[derive(Debug, Eq, PartialEq)]
pub enum AuthorizeCaseAccessError {
    Forbidden,
    InvalidRequest,
    /// A code that this release does not know.
    Unknown(String),
}

/// The error with which `create_case` reports a refused command.
pub open spec fn create_failure(failure: DomainFailure) -> CreateCaseError {
    match failure {
        DomainFailure::Forbidden => CreateCaseError::InvalidRequest,
        DomainFailure::CaseNotFound => CreateCaseError::InvalidRequest,
        DomainFailure::RevisionConflict => CreateCaseError::InvalidRequest,
        DomainFailure::IdempotencyConflict => CreateCaseError::IdempotencyConflict,
        DomainFailure::InvalidTransition => CreateCaseError::InvalidRequest,
        DomainFailure::RetentionConflict => CreateCaseError::InvalidRequest,
    }
}

pub fn map_create_failure(failure: DomainFailure) -> (error: CreateCaseError)
    ensures
        error == create_failure(failure),
{
    match failure {
        DomainFailure::Forbidden => CreateCaseError::InvalidRequest,
        DomainFailure::CaseNotFound => CreateCaseError::InvalidRequest,
        DomainFailure::RevisionConflict => CreateCaseError::InvalidRequest,
        DomainFailure::IdempotencyConflict => CreateCaseError::IdempotencyConflict,
        DomainFailure::InvalidTransition => CreateCaseError::InvalidRequest,
        DomainFailure::RetentionConflict => CreateCaseError::InvalidRequest,
    }
}

/// The error with which `update_case` reports a refused command.
pub open spec fn update_failure(failure: DomainFailure) -> UpdateCaseError {
    match failure {
        DomainFailure::Forbidden => UpdateCaseError::Forbidden,
        DomainFailure::CaseNotFound => UpdateCaseError::CaseNotFound,
        DomainFailure::RevisionConflict => UpdateCaseError::RevisionConflict,
        DomainFailure::IdempotencyConflict => UpdateCaseError::IdempotencyConflict,
        DomainFailure::InvalidTransition => UpdateCaseError::InvalidRequest,
        DomainFailure::RetentionConflict => UpdateCaseError::InvalidRequest,
    }
}

pub fn map_update_failure(failure: DomainFailure) -> (error: UpdateCaseError)
    ensures
        error == update_failure(failure),
{
    match failure {
        DomainFailure::Forbidden => UpdateCaseError::Forbidden,
        DomainFailure::CaseNotFound => UpdateCaseError::CaseNotFound,
        DomainFailure::RevisionConflict => UpdateCaseError::RevisionConflict,
        DomainFailure::IdempotencyConflict => UpdateCaseError::IdempotencyConflict,
        DomainFailure::InvalidTransition => UpdateCaseError::InvalidRequest,
        DomainFailure::RetentionConflict => UpdateCaseError::InvalidRequest,
    }
}

/// The error with which `assign_case` reports a refused command.
pub open spec fn assign_failure(failure: DomainFailure) -> AssignCaseError {
    match failure {
        DomainFailure::Forbidden => AssignCaseError::Forbidden,
        DomainFailure::CaseNotFound => AssignCaseError::CaseNotFound,
        DomainFailure::RevisionConflict => AssignCaseError::RevisionConflict,
        DomainFailure::IdempotencyConflict => AssignCaseError::IdempotencyConflict,
        DomainFailure::InvalidTransition => AssignCaseError::InvalidRequest,
        DomainFailure::RetentionConflict => AssignCaseError::InvalidRequest,
    }
}

pub fn map_assign_failure(failure: DomainFailure) -> (error: AssignCaseError)
    ensures
        error == assign_failure(failure),
{
    match failure {
        DomainFailure::Forbidden => AssignCaseError::Forbidden,
        DomainFailure::CaseNotFound => AssignCaseError::CaseNotFound,
        DomainFailure::RevisionConflict => AssignCaseError::RevisionConflict,
        DomainFailure::IdempotencyConflict => AssignCaseError::IdempotencyConflict,
        DomainFailure::InvalidTransition => AssignCaseError::InvalidRequest,
        DomainFailure::RetentionConflict => AssignCaseError::InvalidRequest,
    }
}

/// The error with which `transition_case` reports a refused command.
pub open spec fn transition_failure(failure: DomainFailure) -> TransitionCaseError {
    match failure {
        DomainFailure::Forbidden => TransitionCaseError::Forbidden,
        DomainFailure::CaseNotFound => TransitionCaseError::CaseNotFound,
        DomainFailure::RevisionConflict => TransitionCaseError::RevisionConflict,
        DomainFailure::IdempotencyConflict => TransitionCaseError::IdempotencyConflict,
        DomainFailure::InvalidTransition => TransitionCaseError::InvalidTransition,
        DomainFailure::RetentionConflict => TransitionCaseError::InvalidRequest,
    }
}

pub fn map_transition_failure(failure: DomainFailure) -> (error: TransitionCaseError)
    ensures
        error == transition_failure(failure),
{
    match failure {
        DomainFailure::Forbidden => TransitionCaseError::Forbidden,
        DomainFailure::CaseNotFound => TransitionCaseError::CaseNotFound,
        DomainFailure::RevisionConflict => TransitionCaseError::RevisionConflict,
        DomainFailure::IdempotencyConflict => TransitionCaseError::IdempotencyConflict,
        DomainFailure::InvalidTransition => TransitionCaseError::InvalidTransition,
        DomainFailure::RetentionConflict => TransitionCaseError::InvalidRequest,
    }
}

/// The error with which `add_message` reports a refused command.
pub open spec fn message_failure(failure: DomainFailure) -> AddMessageError {
    match failure {
        DomainFailure::Forbidden => AddMessageError::Forbidden,
        DomainFailure::CaseNotFound => AddMessageError::CaseNotFound,
        DomainFailure::RevisionConflict => AddMessageError::RevisionConflict,
        DomainFailure::IdempotencyConflict => AddMessageError::IdempotencyConflict,
        DomainFailure::InvalidTransition => AddMessageError::InvalidRequest,
        DomainFailure::RetentionConflict => AddMessageError::InvalidRequest,
    }
}

pub fn map_message_failure(failure: DomainFailure) -> (error: AddMessageError)
    ensures
        error == message_failure(failure),
{
    match failure {
        DomainFailure::Forbidden => AddMessageError::Forbidden,
        DomainFailure::CaseNotFound => AddMessageError::CaseNotFound,
        DomainFailure::RevisionConflict => AddMessageError::RevisionConflict,
        DomainFailure::IdempotencyConflict => AddMessageError::IdempotencyConflict,
        DomainFailure::InvalidTransition => AddMessageError::InvalidRequest,
        DomainFailure::RetentionConflict => AddMessageError::InvalidRequest,
    }
}

/// The error with which `open_case_from_channel` reports a refused command.
pub open spec fn intake_open_failure(failure: DomainFailure) -> OpenCaseFromChannelError {
    match failure {
        DomainFailure::Forbidden => OpenCaseFromChannelError::Forbidden,
        DomainFailure::CaseNotFound => OpenCaseFromChannelError::InvalidRequest,
        DomainFailure::RevisionConflict => OpenCaseFromChannelError::InvalidRequest,
        DomainFailure::IdempotencyConflict => OpenCaseFromChannelError::IdempotencyConflict,
        DomainFailure::InvalidTransition => OpenCaseFromChannelError::InvalidRequest,
        DomainFailure::RetentionConflict => OpenCaseFromChannelError::InvalidRequest,
    }
}

pub fn map_intake_open_failure(failure: DomainFailure) -> (error: OpenCaseFromChannelError)
    ensures
        error == intake_open_failure(failure),
{
    match failure {
        DomainFailure::Forbidden => OpenCaseFromChannelError::Forbidden,
        DomainFailure::CaseNotFound => OpenCaseFromChannelError::InvalidRequest,
        DomainFailure::RevisionConflict => OpenCaseFromChannelError::InvalidRequest,
        DomainFailure::IdempotencyConflict => OpenCaseFromChannelError::IdempotencyConflict,
        DomainFailure::InvalidTransition => OpenCaseFromChannelError::InvalidRequest,
        DomainFailure::RetentionConflict => OpenCaseFromChannelError::InvalidRequest,
    }
}

/// The error with which `append_channel_message` reports a refused command.
pub open spec fn intake_message_failure(failure: DomainFailure) -> AppendChannelMessageError {
    match failure {
        DomainFailure::Forbidden => AppendChannelMessageError::Forbidden,
        DomainFailure::CaseNotFound => AppendChannelMessageError::CaseNotFound,
        DomainFailure::RevisionConflict => AppendChannelMessageError::RevisionConflict,
        DomainFailure::IdempotencyConflict => AppendChannelMessageError::IdempotencyConflict,
        DomainFailure::InvalidTransition => AppendChannelMessageError::InvalidRequest,
        DomainFailure::RetentionConflict => AppendChannelMessageError::InvalidRequest,
    }
}

pub fn map_intake_message_failure(failure: DomainFailure) -> (error: AppendChannelMessageError)
    ensures
        error == intake_message_failure(failure),
{
    match failure {
        DomainFailure::Forbidden => AppendChannelMessageError::Forbidden,
        DomainFailure::CaseNotFound => AppendChannelMessageError::CaseNotFound,
        DomainFailure::RevisionConflict => AppendChannelMessageError::RevisionConflict,
        DomainFailure::IdempotencyConflict => AppendChannelMessageError::IdempotencyConflict,
        DomainFailure::InvalidTransition => AppendChannelMessageError::InvalidRequest,
        DomainFailure::RetentionConflict => AppendChannelMessageError::InvalidRequest,
    }
}

} // verus!
