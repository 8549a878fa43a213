//! Failures of the storage.

use vstd::prelude::*;
use vstd::string::*;

use crate::fault::{Fault, FaultView};

verus! {

/// Why the storage could not do its work.
#[derive(Clone, Debug, Eq, PartialEq)]
pub enum StorageError {
    /// A statement, or the reading of a column, failed.
    Database { operation: &'static str },
    /// A stored value breaks a rule.
    InvalidStoredData { detail: String },
    /// A stored response could not be read or written.
    Serialization,
}

/// The view of a storage failure.
#[verifier::ext_equal]
pub enum StorageErrorView {
    Database(Seq<char>),
    InvalidStoredData(Seq<char>),
    Serialization,
}

impl View for StorageError {
    type V = StorageErrorView;

    open spec fn view(&self) -> StorageErrorView {
        match self {
            StorageError::Database { operation } => StorageErrorView::Database(operation@),
            StorageError::InvalidStoredData { detail } => StorageErrorView::InvalidStoredData(detail@),
            StorageError::Serialization => StorageErrorView::Serialization,
        }
    }
}

/// What a storage failure says.
pub open spec fn storage_text(error: StorageErrorView) -> Seq<char> {
    match error {
        StorageErrorView::Database(operation) => "PostgreSQL operation `"@ + operation
            + "` failed"@,
        StorageErrorView::InvalidStoredData(detail) => "stored Support Case data is invalid: "@
            + detail,
        StorageErrorView::Serialization => "Support Case command response serialization failed"@,
    }
}

impl StorageError {
    /// The message of the failure.
    pub fn text(&self) -> (text: String)
        ensures
            text@ == storage_text(self@),
    {
        match self {
            StorageError::Database { operation } => {
                let mut text = "PostgreSQL operation `".to_owned();
                text.append(operation);
                text.append("` failed");
                text
            },
            StorageError::InvalidStoredData { detail } => {
                let mut text = "stored Support Case data is invalid: ".to_owned();
                text.append(detail.as_str());
                text
            },
            StorageError::Serialization =>
                "Support Case command response serialization failed".to_owned(),
        }
    }
}

/// A failure of the storage fails the plugin.
pub fn storage_runtime<F>(error: &StorageError) -> (result: Fault<F>)
    ensures
        result@ == FaultView::<F>::PluginFailure(storage_text(error@)),
{
    Fault::PluginFailure { detail: error.text() }
}

} // verus!
