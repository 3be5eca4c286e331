//! Adding a branch.

use crate::model::{Branch, VCDataset};
use crate::version_control::error::VersionControlError;
use crate::version_control::consistency::{consistent, lemma_add_branch_keeps_consistency};
use crate::version_control::rules::{add_branch_spec, outcome};
use vstd::prelude::*;

verus! {

impl VCDataset {
    /// Adds `branch`, or says why not. Commits and version tree stay as they
    /// are, and a consistent dataset stays consistent.
    pub fn add_branch(self, branch: &Branch) -> (result: Result<VCDataset, VersionControlError>)
        ensures
            outcome(result) == add_branch_spec(self@, branch@),
            result matches Ok(next) ==> {
                &&& next@.commits == self@.commits
                &&& next@.version_tree.tree == self@.version_tree.tree
                &&& next@.branches[branch@.hash] == branch@
            },
            consistent(self@) && result is Ok ==> consistent(result->Ok_0@),
    {
        let mut d = self;
        if d.branches.contains_key(branch.hash.as_str()) {
            return Err(VersionControlError::BranchHashAlreadyExists);
        }
        if !d.version_tree.tree.contains_key(branch.head.as_str()) {
            return Err(VersionControlError::BranchHeadDoesNotExist);
        }
        d.branches.insert(branch.hash.clone(), branch.clone());
        d.version_tree.branches.insert(branch.hash.clone(), branch.name.clone());
        proof {
            if consistent(self@) {
                lemma_add_branch_keeps_consistency(self@, branch@);
            }
        }
        Ok(d)
    }
}

} // verus!
