//! Adding a commit.

use crate::model::{Commit, VCDataset, VersionTreeNode};
use crate::text::same_text;
use crate::version_control::consistency::{
    consistent, heads_on_own_branches, lemma_add_commit_keeps_consistency,
    lemma_add_commit_keeps_heads_on_own_branches,
};
use crate::version_control::error::{VCErrorMessage, VersionControlError};
use crate::version_control::rules::{add_commit_spec, outcome};
use vstd::prelude::*;

verus! {

impl VCDataset {
    /// Adds `commit`, or says why not. An accepted commit is the head of its
    /// branch afterwards, and a consistent dataset stays consistent.
    pub fn add_commit(self, commit: &Commit) -> (result: Result<VCDataset, VersionControlError>)
        ensures
            outcome(result) == add_commit_spec(self@, commit@),
            result matches Ok(next) ==> next@.branches[commit.branch@].head == commit.hash@,
            consistent(self@) && result is Ok ==> consistent(result->Ok_0@),
            consistent(self@) && heads_on_own_branches(self@) && result is Ok
                ==> heads_on_own_branches(result->Ok_0@),
    {
        let mut d = self;
        if d.commits.contains_key(commit.hash.as_str()) {
            return Err(VersionControlError::CommitHashAlreadyExists);
        }
        let parent = match &commit.parent {
            Some(parent) => parent.clone(),
            None => {
                let detail = VCErrorMessage::new(
                    "Commit has no parent. Only the root commit can exist in this state.".to_owned(),
                );
                return Err(VersionControlError::CommitIncomplete(detail));
            },
        };
        let mut parent_node = match d.version_tree.tree.get(parent.as_str()) {
            Some(node) => node.clone(),
            None => {
                return Err(VersionControlError::ParentCommitNotFound);
            },
        };
        let mut branch = match d.branches.get(commit.branch.as_str()) {
            Some(branch) => branch.clone(),
            None => {
                return Err(VersionControlError::BranchNotFound);
            },
        };
        if !same_text(branch.head.as_str(), parent.as_str()) {
            return Err(VersionControlError::ParentCommitIsNotBranchHead);
        }
        let ghost children = parent_node.children.deep_view();
        parent_node.children.push(commit.hash.clone());
        assert(parent_node.children.deep_view() =~= children.push(commit.hash@));
        d.version_tree.tree.insert(parent.clone(), parent_node);
        let node = VersionTreeNode {
            name: String::new(),
            branch: commit.branch.clone(),
            children: Vec::new(),
            parent: Some(parent),
        };
        assert(node.children.deep_view() =~= Seq::<Seq<char>>::empty());
        d.version_tree.tree.insert(commit.hash.clone(), node);
        branch.head = commit.hash.clone();
        d.branches.insert(commit.branch.clone(), branch);
        d.commits.insert(commit.hash.clone(), commit.clone());
        proof {
            if consistent(self@) {
                lemma_add_commit_keeps_consistency(self@, commit@);
                if heads_on_own_branches(self@) {
                    lemma_add_commit_keeps_heads_on_own_branches(self@, commit@);
                }
            }
        }
        Ok(d)
    }
}

} // verus!
