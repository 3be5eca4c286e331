//! The entities of a dataset's history and their mathematical views.
//!
//! Every identifier is text. A view replaces each `String` by its characters
//! (`Text`), each `Vec` by a `Seq` and each keyed collection by a `Map`.

use crate::string_map::StringMap;
use vstd::prelude::*;

verus! {

/// The characters of a piece of text.
pub type Text = Seq<char>;

/// The view of an optional piece of text.
pub open spec fn text_of(t: Option<String>) -> Option<Text> {
    match t {
        Some(s) => Some(s@),
        None => None,
    }
}

/// A copy of a list of texts.
pub fn copy_texts(texts: &Vec<String>) -> (copy: Vec<String>)
    ensures
        copy.deep_view() == texts.deep_view(),
{
    let copy = texts.clone();
    assert(copy.deep_view() =~= texts.deep_view());
    copy
}

/// A copy of an optional text.
pub fn copy_optional_text(text: &Option<String>) -> (copy: Option<String>)
    ensures
        text_of(copy) == text_of(*text),
{
    match text {
        Some(s) => Some(s.clone()),
        None => None,
    }
}

/// Whether a version is withdrawn, and why.
#[derive(Debug, PartialEq, Eq)]
pub struct Deprecated {
    pub value: bool,
    pub reason: String,
}

pub struct DeprecatedView {
    pub value: bool,
    pub reason: Text,
}

impl View for Deprecated {
    type V = DeprecatedView;

    open spec fn view(&self) -> DeprecatedView {
        DeprecatedView { value: self.value, reason: self.reason@ }
    }
}

impl Clone for Deprecated {
    fn clone(&self) -> (copy: Self)
        ensures
            copy@ == self@,
    {
        Deprecated { value: self.value, reason: self.reason.clone() }
    }
}

/// The paths that a commit adds, rewrites and drops, each list in the order
/// in which the client gave it.
#[derive(Debug, PartialEq, Eq)]
pub struct Diff {
    pub added: Vec<String>,
    pub updated: Vec<String>,
    pub removed: Vec<String>,
}

pub struct DiffView {
    pub added: Seq<Text>,
    pub updated: Seq<Text>,
    pub removed: Seq<Text>,
}

impl View for Diff {
    type V = DiffView;

    open spec fn view(&self) -> DiffView {
        DiffView {
            added: self.added.deep_view(),
            updated: self.updated.deep_view(),
            removed: self.removed.deep_view(),
        }
    }
}

impl Clone for Diff {
    fn clone(&self) -> (copy: Self)
        ensures
            copy@ == self@,
    {
        Diff {
            added: copy_texts(&self.added),
            updated: copy_texts(&self.updated),
            removed: copy_texts(&self.removed),
        }
    }
}

/// A named snapshot of a dataset on one branch.
#[derive(Debug, PartialEq, Eq)]
pub struct Commit {
    pub hash: String,
    pub parent: Option<String>,
    pub branch: String,
    pub name: String,
    pub description: String,
    pub files: Vec<String>,
    pub diff: Diff,
    pub deprecated: Deprecated,
}

pub struct CommitView {
    pub hash: Text,
    pub parent: Option<Text>,
    pub branch: Text,
    pub name: Text,
    pub description: Text,
    pub files: Seq<Text>,
    pub diff: DiffView,
    pub deprecated: DeprecatedView,
}

impl View for Commit {
    type V = CommitView;

    open spec fn view(&self) -> CommitView {
        CommitView {
            hash: self.hash@,
            parent: text_of(self.parent),
            branch: self.branch@,
            name: self.name@,
            description: self.description@,
            files: self.files.deep_view(),
            diff: self.diff@,
            deprecated: self.deprecated@,
        }
    }
}

impl Clone for Commit {
    fn clone(&self) -> (copy: Self)
        ensures
            copy@ == self@,
    {
        Commit {
            hash: self.hash.clone(),
            parent: copy_optional_text(&self.parent),
            branch: self.branch.clone(),
            name: self.name.clone(),
            description: self.description.clone(),
            files: copy_texts(&self.files),
            diff: self.diff.clone(),
            deprecated: self.deprecated.clone(),
        }
    }
}

/// A named pointer to the newest commit of one line of history.
#[derive(Debug, PartialEq, Eq)]
pub struct Branch {
    pub hash: String,
    pub name: String,
    pub head: String,
}

pub struct BranchView {
    pub hash: Text,
    pub name: Text,
    pub head: Text,
}

impl View for Branch {
    type V = BranchView;

    open spec fn view(&self) -> BranchView {
        BranchView { hash: self.hash@, name: self.name@, head: self.head@ }
    }
}

impl Clone for Branch {
    fn clone(&self) -> (copy: Self)
        ensures
            copy@ == self@,
    {
        Branch { hash: self.hash.clone(), name: self.name.clone(), head: self.head.clone() }
    }
}

/// A commit as the version tree sees it: its place among its neighbours.
#[derive(Debug, PartialEq, Eq)]
pub struct VersionTreeNode {
    pub name: String,
    pub branch: String,
    pub children: Vec<String>,
    pub parent: Option<String>,
}

pub struct VersionTreeNodeView {
    pub name: Text,
    pub branch: Text,
    pub children: Seq<Text>,
    pub parent: Option<Text>,
}

impl View for VersionTreeNode {
    type V = VersionTreeNodeView;

    open spec fn view(&self) -> VersionTreeNodeView {
        VersionTreeNodeView {
            name: self.name@,
            branch: self.branch@,
            children: self.children.deep_view(),
            parent: text_of(self.parent),
        }
    }
}

impl Clone for VersionTreeNode {
    fn clone(&self) -> (copy: Self)
        ensures
            copy@ == self@,
    {
        VersionTreeNode {
            name: self.name.clone(),
            branch: self.branch.clone(),
            children: copy_texts(&self.children),
            parent: copy_optional_text(&self.parent),
        }
    }
}

/// The commits of a dataset as a forest, with the names of its branches.
#[derive(Debug)]
pub struct VersionTree {
    pub tree: StringMap<VersionTreeNode>,
    pub branches: StringMap<String>,
}

pub struct VersionTreeView {
    pub tree: Map<Text, VersionTreeNodeView>,
    pub branches: Map<Text, Text>,
}

impl View for VersionTree {
    type V = VersionTreeView;

    open spec fn view(&self) -> VersionTreeView {
        VersionTreeView { tree: self.tree@, branches: self.branches@ }
    }
}

impl Clone for VersionTree {
    fn clone(&self) -> (copy: Self)
        ensures
            copy@ == self@,
    {
        VersionTree { tree: self.tree.clone(), branches: self.branches.clone() }
    }
}

/// The files that one pipeline run left behind for one commit.
#[derive(Debug, PartialEq, Eq)]
pub struct PipelineResult {
    pub hash: String,
    pub dataset_hash: String,
    pub commit_hash: String,
    pub files: Vec<String>,
}

pub struct PipelineResultView {
    pub hash: Text,
    pub dataset_hash: Text,
    pub commit_hash: Text,
    pub files: Seq<Text>,
}

impl View for PipelineResult {
    type V = PipelineResultView;

    open spec fn view(&self) -> PipelineResultView {
        PipelineResultView {
            hash: self.hash@,
            dataset_hash: self.dataset_hash@,
            commit_hash: self.commit_hash@,
            files: self.files.deep_view(),
        }
    }
}

impl Clone for PipelineResult {
    fn clone(&self) -> (copy: Self)
        ensures
            copy@ == self@,
    {
        PipelineResult {
            hash: self.hash.clone(),
            dataset_hash: self.dataset_hash.clone(),
            commit_hash: self.commit_hash.clone(),
            files: copy_texts(&self.files),
        }
    }
}

/// The versioned state of one dataset.
#[derive(Debug)]
pub struct VCDataset {
    pub commits: StringMap<Commit>,
    pub branches: StringMap<Branch>,
    pub version_tree: VersionTree,
    pub pipeline_results: StringMap<PipelineResult>,
}

pub struct VCDatasetView {
    pub commits: Map<Text, CommitView>,
    pub branches: Map<Text, BranchView>,
    pub version_tree: VersionTreeView,
    pub pipeline_results: Map<Text, PipelineResultView>,
}

impl View for VCDataset {
    type V = VCDatasetView;

    open spec fn view(&self) -> VCDatasetView {
        VCDatasetView {
            commits: self.commits@,
            branches: self.branches@,
            version_tree: self.version_tree@,
            pipeline_results: self.pipeline_results@,
        }
    }
}

impl Clone for VCDataset {
    fn clone(&self) -> (copy: Self)
        ensures
            copy@ == self@,
    {
        VCDataset {
            commits: self.commits.clone(),
            branches: self.branches.clone(),
            version_tree: self.version_tree.clone(),
            pipeline_results: self.pipeline_results.clone(),
        }
    }
}

} // verus!
