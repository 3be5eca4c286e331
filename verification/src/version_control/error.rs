//! Why the engine turns a change down.

use crate::model::Text;
use crate::text::join2;
use vstd::prelude::*;

verus! {

/// What `{:?}` writes for a piece of text: the text between double quotes,
/// with the characters that need it escaped.
pub uninterp spec fn debug_form(text: Seq<char>) -> Seq<char>;

/// Formats `text` with std's `Debug` for `str` (`format!("{:?}", ..)`). The
/// result depends on the characters of `text` alone; the contract gives it the
/// name `debug_form` and claims nothing else of it.
#[verifier::external_body]
fn debug_quoted(text: &str) -> (quoted: String)
    ensures
        quoted@ == debug_form(text@),
{
    format!("{:?}", text)
}

/// The detail that comes with an incomplete commit.
#[derive(Debug, PartialEq, Eq)]
pub struct VCErrorMessage {
    message: String,
}

impl View for VCErrorMessage {
    type V = Text;

    closed spec fn view(&self) -> Text {
        self.message@
    }
}

impl VCErrorMessage {
    pub fn new(message: String) -> (detail: VCErrorMessage)
        ensures
            detail@ == message@,
    {
        VCErrorMessage { message }
    }

    /// The detail as text.
    pub fn message(&self) -> (text: &str)
        ensures
            text@ == self@,
    {
        self.message.as_str()
    }

    /// The detail as it appears inside an error message.
    pub open spec fn rendered(detail: Text) -> Text {
        "VCErrorMessage { message: "@ + debug_form(detail) + " }"@
    }

    /// The detail written as `rendered` says.
    pub fn render(&self) -> (text: String)
        ensures
            text@ == Self::rendered(self@),
    {
        let quoted = debug_quoted(self.message.as_str());
        let head = join2("VCErrorMessage { message: ", quoted.as_str());
        join2(head.as_str(), " }")
    }
}

impl Clone for VCErrorMessage {
    fn clone(&self) -> (copy: Self)
        ensures
            copy@ == self@,
    {
        VCErrorMessage { message: self.message.clone() }
    }
}

/// The reasons for which a change to a dataset's history is refused.
#[derive(Debug, PartialEq, Eq)]
pub enum VersionControlError {
    CommitIncomplete(VCErrorMessage),
    ParentCommitNotFound,
    BranchNotFound,
    CommitNotFound,
    CommitHashAlreadyExists,
    BranchHashAlreadyExists,
    BranchHeadDoesNotExist,
    ParentCommitIsNotBranchHead,
    PipelineHashAlreadyExists,
}

/// A refusal with its detail as characters.
pub enum Refusal {
    CommitIncomplete(Text),
    ParentCommitNotFound,
    BranchNotFound,
    CommitNotFound,
    CommitHashAlreadyExists,
    BranchHashAlreadyExists,
    BranchHeadDoesNotExist,
    ParentCommitIsNotBranchHead,
    PipelineHashAlreadyExists,
}

impl View for VersionControlError {
    type V = Refusal;

    open spec fn view(&self) -> Refusal {
        match self {
            VersionControlError::CommitIncomplete(detail) => Refusal::CommitIncomplete(detail@),
            VersionControlError::ParentCommitNotFound => Refusal::ParentCommitNotFound,
            VersionControlError::BranchNotFound => Refusal::BranchNotFound,
            VersionControlError::CommitNotFound => Refusal::CommitNotFound,
            VersionControlError::CommitHashAlreadyExists => Refusal::CommitHashAlreadyExists,
            VersionControlError::BranchHashAlreadyExists => Refusal::BranchHashAlreadyExists,
            VersionControlError::BranchHeadDoesNotExist => Refusal::BranchHeadDoesNotExist,
            VersionControlError::ParentCommitIsNotBranchHead => Refusal::ParentCommitIsNotBranchHead,
            VersionControlError::PipelineHashAlreadyExists => Refusal::PipelineHashAlreadyExists,
        }
    }
}

impl Refusal {
    /// The sentence shown to a client.
    pub open spec fn message(self) -> Text {
        match self {
            Refusal::CommitIncomplete(detail) => "Commit is incomplete: "@
                + VCErrorMessage::rendered(detail),
            Refusal::ParentCommitNotFound => "Parent of commit is not present in the version tree."@,
            Refusal::BranchNotFound => "Branch not present in version tree."@,
            Refusal::CommitNotFound => "Commit not present in version tree."@,
            Refusal::CommitHashAlreadyExists => "Commit hash already exists in the version tree."@,
            Refusal::BranchHashAlreadyExists => "Branch hash already exists in the version tree."@,
            Refusal::BranchHeadDoesNotExist => "Branch head does not exist in the version tree."@,
            Refusal::ParentCommitIsNotBranchHead => "The parent commit hash is not the head of the branch."@,
            Refusal::PipelineHashAlreadyExists => "The pipeline hash already exists."@,
        }
    }
}

/// The HTTP status of a refused change: a conflict.
pub const CONFLICT: u16 = 409;

impl VersionControlError {
    /// The sentence shown to a client.
    pub fn message(&self) -> (text: String)
        ensures
            text@ == self@.message(),
    {
        match self {
            VersionControlError::CommitIncomplete(detail) => {
                let rendered = detail.render();
                join2("Commit is incomplete: ", rendered.as_str())
            },
            VersionControlError::ParentCommitNotFound => {
                "Parent of commit is not present in the version tree.".to_owned()
            },
            VersionControlError::BranchNotFound => "Branch not present in version tree.".to_owned(),
            VersionControlError::CommitNotFound => "Commit not present in version tree.".to_owned(),
            VersionControlError::CommitHashAlreadyExists => {
                "Commit hash already exists in the version tree.".to_owned()
            },
            VersionControlError::BranchHashAlreadyExists => {
                "Branch hash already exists in the version tree.".to_owned()
            },
            VersionControlError::BranchHeadDoesNotExist => {
                "Branch head does not exist in the version tree.".to_owned()
            },
            VersionControlError::ParentCommitIsNotBranchHead => {
                "The parent commit hash is not the head of the branch.".to_owned()
            },
            VersionControlError::PipelineHashAlreadyExists => {
                "The pipeline hash already exists.".to_owned()
            },
        }
    }

    /// The HTTP status that answers this refusal. Every refusal is a conflict.
    pub fn status_code(&self) -> (code: u16)
        ensures
            code == CONFLICT,
    {
        CONFLICT
    }
}

impl Clone for VersionControlError {
    fn clone(&self) -> (copy: Self)
        ensures
            copy@ == self@,
    {
        match self {
            VersionControlError::CommitIncomplete(detail) => {
                VersionControlError::CommitIncomplete(detail.clone())
            },
            VersionControlError::ParentCommitNotFound => VersionControlError::ParentCommitNotFound,
            VersionControlError::BranchNotFound => VersionControlError::BranchNotFound,
            VersionControlError::CommitNotFound => VersionControlError::CommitNotFound,
            VersionControlError::CommitHashAlreadyExists => VersionControlError::CommitHashAlreadyExists,
            VersionControlError::BranchHashAlreadyExists => VersionControlError::BranchHashAlreadyExists,
            VersionControlError::BranchHeadDoesNotExist => VersionControlError::BranchHeadDoesNotExist,
            VersionControlError::ParentCommitIsNotBranchHead => {
                VersionControlError::ParentCommitIsNotBranchHead
            },
            VersionControlError::PipelineHashAlreadyExists => {
                VersionControlError::PipelineHashAlreadyExists
            },
        }
    }
}

} // verus!
