//! Creating a dataset and reading from it.

use crate::hash::{create_random_hash, is_hash};
use crate::model::{
    Branch, Commit, Deprecated, Diff, Text, VCDataset, VersionTree, VersionTreeNode,
};
use crate::string_map::StringMap;
use crate::version_control::consistency::{
    consistent, heads_on_own_branches, lemma_initial_dataset_is_consistent,
};
use crate::version_control::error::VersionControlError;
use crate::version_control::rules::initial_dataset;
use vstd::prelude::*;

verus! {

/// A dataset as it is right after its creation.
pub fn create_new_dataset() -> (d: VCDataset)
    ensures
        exists|root: Text, master: Text|
            is_hash(root) && is_hash(master) && d@ == #[trigger] initial_dataset(root, master),
        consistent(d@),
        heads_on_own_branches(d@),
{
    VCDataset::new()
}

impl VCDataset {
    /// The dataset that holds one root commit on a branch named `master`.
    /// The hashes of the two are drawn at random.
    pub fn new() -> (d: VCDataset)
        ensures
            exists|root: Text, master: Text|
                is_hash(root) && is_hash(master) && d@ == #[trigger] initial_dataset(root, master),
            consistent(d@),
            heads_on_own_branches(d@),
    {
        let root = create_random_hash();
        let master = create_random_hash();
        VCDataset::with_hashes(root, master)
    }

    /// The dataset that holds one root commit, with hash `root_commit_hash`,
    /// on a branch named `master`, with hash `master_branch_hash`.
    pub fn with_hashes(root_commit_hash: String, master_branch_hash: String) -> (d: VCDataset)
        ensures
            d@ == initial_dataset(root_commit_hash@, master_branch_hash@),
            consistent(d@),
            heads_on_own_branches(d@),
    {
        let root_commit = Commit {
            hash: root_commit_hash.clone(),
            parent: None,
            branch: master_branch_hash.clone(),
            name: "root".to_owned(),
            description: String::new(),
            files: Vec::new(),
            diff: Diff { added: Vec::new(), updated: Vec::new(), removed: Vec::new() },
            deprecated: Deprecated { value: false, reason: String::new() },
        };
        let root_node = VersionTreeNode {
            name: "root".to_owned(),
            branch: master_branch_hash.clone(),
            children: Vec::new(),
            parent: None,
        };
        let master_branch = Branch {
            hash: master_branch_hash.clone(),
            name: "master".to_owned(),
            head: root_commit_hash.clone(),
        };
        proof {
            assert(root_commit.files.deep_view() =~= Seq::<Text>::empty());
            assert(root_commit.diff.added.deep_view() =~= Seq::<Text>::empty());
            assert(root_commit.diff.updated.deep_view() =~= Seq::<Text>::empty());
            assert(root_commit.diff.removed.deep_view() =~= Seq::<Text>::empty());
            assert(root_node.children.deep_view() =~= Seq::<Text>::empty());
        }
        let mut tree: StringMap<VersionTreeNode> = StringMap::new();
        tree.insert(root_commit_hash.clone(), root_node);
        let mut names: StringMap<String> = StringMap::new();
        names.insert(master_branch_hash.clone(), "master".to_owned());
        let mut commits: StringMap<Commit> = StringMap::new();
        commits.insert(root_commit_hash, root_commit);
        let mut branches: StringMap<Branch> = StringMap::new();
        branches.insert(master_branch_hash, master_branch);
        proof {
            lemma_initial_dataset_is_consistent(root_commit_hash@, master_branch_hash@);
        }
        VCDataset {
            commits,
            branches,
            version_tree: VersionTree { tree, branches: names },
            pipeline_results: StringMap::new(),
        }
    }

    /// The commit with hash `hash`.
    pub fn get_commit(&self, hash: &str) -> (found: Result<&Commit, VersionControlError>)
        ensures
            match found {
                Ok(commit) => self@.commits.contains_key(hash@) && commit@ == self@.commits[hash@],
                Err(e) => !self@.commits.contains_key(hash@) && e
                    == VersionControlError::CommitNotFound,
            },
    {
        match self.commits.get(hash) {
            Some(commit) => Ok(commit),
            None => Err(VersionControlError::CommitNotFound),
        }
    }

    /// The branch with hash `hash`.
    pub fn get_branch(&self, hash: &str) -> (found: Result<&Branch, VersionControlError>)
        ensures
            match found {
                Ok(branch) => self@.branches.contains_key(hash@) && branch@
                    == self@.branches[hash@],
                Err(e) => !self@.branches.contains_key(hash@) && e
                    == VersionControlError::BranchNotFound,
            },
    {
        match self.branches.get(hash) {
            Some(branch) => Ok(branch),
            None => Err(VersionControlError::BranchNotFound),
        }
    }

    /// The version tree.
    pub fn get_vtree(&self) -> (tree: &VersionTree)
        ensures
            tree@ == self@.version_tree,
    {
        &self.version_tree
    }
}

} // verus!
