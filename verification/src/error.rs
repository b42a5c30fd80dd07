//! The failures that the storage engine reports, and how a failed
//! filesystem call is described to it.

use vstd::prelude::*;

verus! {

/// Why a storage operation did not succeed.
#[derive(Debug, PartialEq, Eq)]
pub enum StorageError {
    /// The key is not one the engine accepts; the text says why.
    InvalidKey(String),
    /// No object is stored under the key, which is carried along.
    NotFound(String),
    /// A filesystem call failed for another reason; the text is its detail.
    Io(String),
}

/// The mathematical value of a [`StorageError`].
pub enum StorageErrorView {
    InvalidKey(Seq<char>),
    NotFound(Seq<char>),
    Io(Seq<char>),
}

impl View for StorageError {
    type V = StorageErrorView;

    open spec fn view(&self) -> StorageErrorView {
        match self {
            StorageError::InvalidKey(reason) => StorageErrorView::InvalidKey(reason@),
            StorageError::NotFound(key) => StorageErrorView::NotFound(key@),
            StorageError::Io(detail) => StorageErrorView::Io(detail@),
        }
    }
}

/// A filesystem call that failed, as the caller who made the call reports it.
#[derive(Debug, PartialEq, Eq)]
pub struct IoFailure {
    /// The call failed because the file or directory does not exist.
    pub not_found: bool,
    /// The text of the underlying error.
    pub detail: String,
}

/// The mathematical value of an [`IoFailure`].
pub struct IoFailureView {
    pub not_found: bool,
    pub detail: Seq<char>,
}

impl View for IoFailure {
    type V = IoFailureView;

    open spec fn view(&self) -> IoFailureView {
        IoFailureView { not_found: self.not_found, detail: self.detail@ }
    }
}

/// A result taken by the views of what it holds.
pub open spec fn result_view<T: View, E: View>(result: Result<T, E>) -> Result<T::V, E::V> {
    match result {
        Ok(value) => Ok(value@),
        Err(error) => Err(error@),
    }
}

impl StorageErrorView {
    /// The line of text that describes the error.
    pub open spec fn message(self) -> Seq<char> {
        match self {
            StorageErrorView::InvalidKey(reason) => "invalid object key: "@ + reason,
            StorageErrorView::NotFound(key) => "object not found: "@ + key,
            StorageErrorView::Io(detail) => "storage I/O error: "@ + detail,
        }
    }
}

impl StorageError {
    /// Renders the error as one line of text.
    pub fn message(&self) -> (text: String)
        ensures
            text@ == self@.message(),
    {
        match self {
            StorageError::InvalidKey(reason) => "invalid object key: ".to_owned().concat(
                reason.as_str(),
            ),
            StorageError::NotFound(key) => "object not found: ".to_owned().concat(key.as_str()),
            StorageError::Io(detail) => "storage I/O error: ".to_owned().concat(detail.as_str()),
        }
    }

    /// The error for a filesystem call that failed, whatever the reason.
    pub fn from_failure(failure: IoFailure) -> (error: StorageError)
        ensures
            error@ == StorageErrorView::Io(failure@.detail),
    {
        StorageError::Io(failure.detail)
    }
}

} // verus!
