//! The version-control engine: the rules that take one version tree to the
//! next, and what a request that changes a dataset leads to. Nothing here
//! touches a disk or a network.

pub mod branch;
pub mod commit;
pub mod consistency;
pub mod dataset;
pub mod error;
pub mod pipeline;
pub mod rules;

use crate::backend::plan::{StorageStep, StorageStepView};
use crate::dataset::models::{DatasetConfig, DatasetConfigView};
use crate::error::{DaemonError, Failure};
use crate::hash::is_hash;
use crate::model::{Branch, BranchView, Commit, CommitView, Text, VCDataset, VCDatasetView};
use crate::version_control::consistency::consistent;
use crate::version_control::rules::{add_branch_spec, add_commit_spec, initial_dataset};
use vstd::prelude::*;

verus! {

/// What an accepted request leads to: the next history of the dataset, the
/// plan that makes it durable, and the plan that tidies up afterwards. The
/// history is installed only when `persist` went through; `cleanup` comes
/// last.
#[derive(Debug)]
pub struct Change {
    pub dataset: VCDataset,
    pub persist: Vec<StorageStep>,
    pub cleanup: Vec<StorageStep>,
}

pub struct ChangeView {
    pub dataset: VCDatasetView,
    pub persist: Seq<StorageStepView>,
    pub cleanup: Seq<StorageStepView>,
}

impl View for Change {
    type V = ChangeView;

    open spec fn view(&self) -> ChangeView {
        ChangeView {
            dataset: self.dataset@,
            persist: self.persist.deep_view(),
            cleanup: self.cleanup.deep_view(),
        }
    }
}

/// What a request answered, as views.
pub open spec fn change_outcome(result: Result<Change, DaemonError>) -> Result<ChangeView, Failure> {
    match result {
        Ok(change) => Ok(change@),
        Err(e) => Err(e@),
    }
}

/// The view of a branch that may be absent.
pub open spec fn branch_of(branch: Option<&Branch>) -> Option<BranchView> {
    match branch {
        Some(b) => Some(b@),
        None => None,
    }
}

/// A new history together with the plan that saves it.
pub open spec fn saved(config: DatasetConfigView, next: VCDatasetView) -> Result<ChangeView, Failure> {
    match config.backend.save_dataset(config.name) {
        Ok(plan) => Ok(ChangeView { dataset: next, persist: plan, cleanup: Seq::empty() }),
        Err(failure) => Err(failure),
    }
}

/// Creating a branch: the engine decides, then the history is saved.
pub open spec fn create_branch_spec(
    config: DatasetConfigView,
    d: VCDatasetView,
    branch: BranchView,
) -> Result<ChangeView, Failure> {
    match add_branch_spec(d, branch) {
        Ok(next) => saved(config, next),
        Err(refusal) => Err(Failure::VersionControlError(refusal)),
    }
}

/// Creating a commit whose files wait in `staging`. A branch that came with
/// the commit is added first. Then the commit is added, its files are stored,
/// the history is saved, and at last the staging directory is removed.
pub open spec fn create_commit_spec(
    config: DatasetConfigView,
    d: VCDatasetView,
    branch: Option<BranchView>,
    commit: CommitView,
    staging: Text,
) -> Result<ChangeView, Failure> {
    let branched = match branch {
        Some(b) => add_branch_spec(d, b),
        None => Ok(d),
    };
    match branched {
        Err(refusal) => Err(Failure::VersionControlError(refusal)),
        Ok(with_branch) => match add_commit_spec(with_branch, commit) {
            Err(refusal) => Err(Failure::VersionControlError(refusal)),
            Ok(next) => match config.backend.store_committed_files(
                config.name,
                commit.diff,
                staging,
            ) {
                Err(failure) => Err(failure),
                Ok(files) => match config.backend.save_dataset(config.name) {
                    Err(failure) => Err(failure),
                    Ok(save) => Ok(
                        ChangeView {
                            dataset: next,
                            persist: files + save,
                            cleanup: seq![StorageStepView::RemoveDirAll(staging)],
                        },
                    ),
                },
            },
        },
    }
}

/// Decides on the creation of the dataset that `config` describes.
/// `name_taken` says whether a dataset of that name is known already. A taken
/// name is refused with `AlreadyExists`; else the dataset starts with one root
/// commit on `master`, and the plan saves that history.
pub fn create_dataset(config: &DatasetConfig, name_taken: bool) -> (result: Result<
    Change,
    DaemonError,
>)
    ensures
        match result {
            Ok(change) => {
                &&& !name_taken
                &&& config@.backend.save_dataset(config@.name) == Ok::<_, Failure>(change@.persist)
                &&& change@.cleanup == Seq::<StorageStepView>::empty()
                &&& exists|root: Text, master: Text|
                    is_hash(root) && is_hash(master) && change@.dataset == #[trigger] initial_dataset(
                        root,
                        master,
                    )
                &&& consistent(change@.dataset)
            },
            Err(e) => if name_taken {
                e@ == Failure::AlreadyExists
            } else {
                config@.backend.save_dataset(config@.name) == Err::<Seq<StorageStepView>, _>(e@)
            },
        },
{
    if name_taken {
        return Err(DaemonError::AlreadyExists);
    }
    let dataset = VCDataset::new();
    let persist = config.save_dataset()?;
    let cleanup: Vec<StorageStep> = Vec::new();
    assert(cleanup.deep_view() =~= Seq::<StorageStepView>::empty());
    Ok(Change { dataset, persist, cleanup })
}

/// Decides on the request to add `branch` to `dataset`, which `config`
/// describes.
pub fn create_branch(config: &DatasetConfig, dataset: &VCDataset, branch: &Branch) -> (result:
    Result<Change, DaemonError>)
    ensures
        change_outcome(result) == create_branch_spec(config@, dataset@, branch@),
        consistent(dataset@) && result is Ok ==> consistent(result->Ok_0@.dataset),
{
    let next = match dataset.clone().add_branch(branch) {
        Ok(next) => next,
        Err(refusal) => {
            return Err(DaemonError::VersionControlError(refusal));
        },
    };
    let persist = match config.save_dataset() {
        Ok(plan) => plan,
        Err(failure) => {
            return Err(failure);
        },
    };
    let cleanup: Vec<StorageStep> = Vec::new();
    assert(cleanup.deep_view() =~= Seq::<StorageStepView>::empty());
    Ok(Change { dataset: next, persist, cleanup })
}

/// Decides on the request to add `commit` to `dataset`, which `config`
/// describes. The files of the commit wait in the staging directory
/// `tmp_path`; `branch` is the branch that came with the commit, if one did.
pub fn create_commit(
    config: &DatasetConfig,
    dataset: &VCDataset,
    branch: Option<&Branch>,
    commit: &Commit,
    tmp_path: &str,
) -> (result: Result<Change, DaemonError>)
    ensures
        change_outcome(result) == create_commit_spec(
            config@,
            dataset@,
            branch_of(branch),
            commit@,
            tmp_path@,
        ),
        consistent(dataset@) && result is Ok ==> consistent(result->Ok_0@.dataset),
        result matches Ok(change) ==> change@.dataset.branches[commit@.branch].head == commit@.hash,
{
    let snapshot = dataset.clone();
    let branched = match branch {
        Some(b) => match snapshot.add_branch(b) {
            Ok(next) => next,
            Err(refusal) => {
                return Err(DaemonError::VersionControlError(refusal));
            },
        },
        None => snapshot,
    };
    let next = match branched.add_commit(commit) {
        Ok(next) => next,
        Err(refusal) => {
            return Err(DaemonError::VersionControlError(refusal));
        },
    };
    let mut persist = match config.store_committed_files(commit, tmp_path.to_owned()) {
        Ok(plan) => plan,
        Err(failure) => {
            return Err(failure);
        },
    };
    let mut save = match config.save_dataset() {
        Ok(plan) => plan,
        Err(failure) => {
            return Err(failure);
        },
    };
    let ghost files = persist.deep_view();
    let ghost saving = save.deep_view();
    persist.append(&mut save);
    assert(persist.deep_view() =~= files + saving);
    let cleanup = vec![StorageStep::RemoveDirAll(tmp_path.to_owned())];
    assert(cleanup.deep_view() =~= seq![StorageStepView::RemoveDirAll(tmp_path@)]);
    Ok(Change { dataset: next, persist, cleanup })
}

} // verus!
