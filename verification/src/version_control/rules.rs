//! The transition rules, stated over the views of the model.
//!
//! Each rule is a function from a dataset and a request to the next dataset
//! or to the refusal that the first failed check gives.

use crate::model::{
    BranchView, CommitView, DeprecatedView, DiffView, PipelineResultView, Text, VCDataset,
    VCDatasetView, VersionTreeNodeView, VersionTreeView,
};
use crate::version_control::error::{Refusal, VersionControlError};
use vstd::prelude::*;

verus! {

/// The name of the branch that every dataset starts with.
pub open spec fn master_name() -> Text {
    "master"@
}

/// The name of the first commit and of its node.
pub open spec fn root_name() -> Text {
    "root"@
}

/// The detail of the refusal of a commit that names no parent.
pub open spec fn missing_parent_detail() -> Text {
    "Commit has no parent. Only the root commit can exist in this state."@
}

pub open spec fn empty_diff() -> DiffView {
    DiffView { added: Seq::empty(), updated: Seq::empty(), removed: Seq::empty() }
}

/// The first commit of a dataset: no parent, no files, on the branch `master`.
pub open spec fn root_commit(root: Text, master: Text) -> CommitView {
    CommitView {
        hash: root,
        parent: None,
        branch: master,
        name: root_name(),
        description: Seq::empty(),
        files: Seq::empty(),
        diff: empty_diff(),
        deprecated: DeprecatedView { value: false, reason: Seq::empty() },
    }
}

/// The node of the first commit: no parent, no children.
pub open spec fn root_node(master: Text) -> VersionTreeNodeView {
    VersionTreeNodeView { name: root_name(), branch: master, children: Seq::empty(), parent: None }
}

/// The dataset that holds one root commit, with hash `root`, on one branch
/// named `master`, with hash `master`.
pub open spec fn initial_dataset(root: Text, master: Text) -> VCDatasetView {
    VCDatasetView {
        commits: Map::empty().insert(root, root_commit(root, master)),
        branches: Map::empty().insert(
            master,
            BranchView { hash: master, name: master_name(), head: root },
        ),
        version_tree: VersionTreeView {
            tree: Map::empty().insert(root, root_node(master)),
            branches: Map::empty().insert(master, master_name()),
        },
        pipeline_results: Map::empty(),
    }
}

/// The node that a new commit gets: below its parent, without children and
/// without a name.
pub open spec fn fresh_node(commit: CommitView) -> VersionTreeNodeView {
    VersionTreeNodeView {
        name: Seq::empty(),
        branch: commit.branch,
        children: Seq::empty(),
        parent: commit.parent,
    }
}

/// `node` with one more child at the end of its list.
pub open spec fn with_child(node: VersionTreeNodeView, child: Text) -> VersionTreeNodeView {
    VersionTreeNodeView { children: node.children.push(child), ..node }
}

/// `branch` pointing at `head`.
pub open spec fn with_head(branch: BranchView, head: Text) -> BranchView {
    BranchView { head, ..branch }
}

/// Adding a branch. Refused, in this order, where the branch's hash is taken
/// and where its head is no node of the version tree. Else the branch and its
/// name are recorded; commits and tree stay as they are.
pub open spec fn add_branch_spec(d: VCDatasetView, branch: BranchView) -> Result<
    VCDatasetView,
    Refusal,
> {
    if d.branches.contains_key(branch.hash) {
        Err(Refusal::BranchHashAlreadyExists)
    } else if !d.version_tree.tree.contains_key(branch.head) {
        Err(Refusal::BranchHeadDoesNotExist)
    } else {
        Ok(
            VCDatasetView {
                branches: d.branches.insert(branch.hash, branch),
                version_tree: VersionTreeView {
                    branches: d.version_tree.branches.insert(branch.hash, branch.name),
                    ..d.version_tree
                },
                ..d
            },
        )
    }
}

/// The dataset after `commit`, whose parent is `parent`, went in.
pub open spec fn with_commit(d: VCDatasetView, commit: CommitView, parent: Text) -> VCDatasetView {
    VCDatasetView {
        commits: d.commits.insert(commit.hash, commit),
        branches: d.branches.insert(commit.branch, with_head(d.branches[commit.branch], commit.hash)),
        version_tree: VersionTreeView {
            tree: d.version_tree.tree.insert(
                parent,
                with_child(d.version_tree.tree[parent], commit.hash),
            ).insert(commit.hash, fresh_node(commit)),
            ..d.version_tree
        },
        ..d
    }
}

/// Adding a commit. Refused, in this order, where its hash is taken, where it
/// names no parent, where the parent is no node of the version tree, where its
/// branch is unknown, and where the parent is not the head of that branch.
/// Else the commit becomes the last child of its parent and the head of its
/// branch.
pub open spec fn add_commit_spec(d: VCDatasetView, commit: CommitView) -> Result<
    VCDatasetView,
    Refusal,
> {
    if d.commits.contains_key(commit.hash) {
        Err(Refusal::CommitHashAlreadyExists)
    } else if commit.parent is None {
        Err(Refusal::CommitIncomplete(missing_parent_detail()))
    } else if !d.version_tree.tree.contains_key(commit.parent->0) {
        Err(Refusal::ParentCommitNotFound)
    } else if !d.branches.contains_key(commit.branch) {
        Err(Refusal::BranchNotFound)
    } else if d.branches[commit.branch].head != commit.parent->0 {
        Err(Refusal::ParentCommitIsNotBranchHead)
    } else {
        Ok(with_commit(d, commit, commit.parent->0))
    }
}

/// Recording the result of a pipeline under a hash that must be new.
pub open spec fn add_pipeline_result_spec(d: VCDatasetView, result: PipelineResultView) -> Result<
    VCDatasetView,
    Refusal,
> {
    if d.pipeline_results.contains_key(result.hash) {
        Err(Refusal::PipelineHashAlreadyExists)
    } else {
        Ok(set_pipeline_result_spec(d, result))
    }
}

/// Recording the result of a pipeline, in place of an earlier one if any.
pub open spec fn set_pipeline_result_spec(
    d: VCDatasetView,
    result: PipelineResultView,
) -> VCDatasetView {
    VCDatasetView { pipeline_results: d.pipeline_results.insert(result.hash, result), ..d }
}

/// What an operation of the engine answered, as views.
pub open spec fn outcome(result: Result<VCDataset, VersionControlError>) -> Result<
    VCDatasetView,
    Refusal,
> {
    match result {
        Ok(d) => Ok(d@),
        Err(e) => Err(e@),
    }
}

} // verus!
