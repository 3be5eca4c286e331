//! What a storage backend asks of the file system.
//!
//! A backend never touches the disk itself. It answers each request with a
//! plan: the steps to perform, in order. Whoever holds the disk performs them
//! and stops at the first step that fails.

use crate::error::{DaemonError, IoFailure};
use crate::model::Text;
use vstd::prelude::*;

verus! {

/// One step on the file system.
#[derive(Debug, PartialEq, Eq)]
pub enum StorageStep {
    /// Create the directory and every missing directory above it.
    CreateDirAll(String),
    /// Create or empty the file and write the body of the request into it.
    WriteFile(String),
    /// Read the whole file.
    ReadFile(String),
    /// List the names of what the directory holds.
    ListDir(String),
    /// Copy the file `from` to `to`; the directories above `to` are created
    /// where they are missing.
    CopyFile { from: String, to: String },
    /// Remove the directory and all that is below it.
    RemoveDirAll(String),
}

/// A step with its paths as characters.
pub enum StorageStepView {
    CreateDirAll(Text),
    WriteFile(Text),
    ReadFile(Text),
    ListDir(Text),
    CopyFile { from: Text, to: Text },
    RemoveDirAll(Text),
}

impl View for StorageStep {
    type V = StorageStepView;

    open spec fn view(&self) -> StorageStepView {
        match self {
            StorageStep::CreateDirAll(path) => StorageStepView::CreateDirAll(path@),
            StorageStep::WriteFile(path) => StorageStepView::WriteFile(path@),
            StorageStep::ReadFile(path) => StorageStepView::ReadFile(path@),
            StorageStep::ListDir(path) => StorageStepView::ListDir(path@),
            StorageStep::CopyFile { from, to } => StorageStepView::CopyFile { from: from@, to: to@ },
            StorageStep::RemoveDirAll(path) => StorageStepView::RemoveDirAll(path@),
        }
    }
}

impl DeepView for StorageStep {
    type V = StorageStepView;

    open spec fn deep_view(&self) -> StorageStepView {
        self@
    }
}

/// What a failed step means for the request. To remove what is not there is
/// no failure; every other failure ends the request, a missing path as
/// `NotFound` and anything else as `Io` with its description.
pub open spec fn settle_spec(step: StorageStepView, failure: IoFailure) -> Result<(), DaemonError> {
    match (step, failure) {
        (StorageStepView::RemoveDirAll(_), IoFailure::NotFound) => Ok(()),
        (_, IoFailure::NotFound) => Err(DaemonError::NotFound),
        (_, IoFailure::Other(detail)) => Err(DaemonError::Io(detail)),
    }
}

impl StorageStep {
    /// Decides whether the request goes on after this step failed with
    /// `failure`.
    pub fn settle(&self, failure: IoFailure) -> (verdict: Result<(), DaemonError>)
        ensures
            verdict == settle_spec(self@, failure),
    {
        match failure {
            IoFailure::NotFound => match self {
                StorageStep::RemoveDirAll(_) => Ok(()),
                _ => Err(DaemonError::NotFound),
            },
            IoFailure::Other(detail) => Err(DaemonError::Io(detail)),
        }
    }
}

} // verus!
