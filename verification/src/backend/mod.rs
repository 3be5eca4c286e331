//! The storage interface. A backend says where and how a dataset is kept;
//! only the local one is implemented, and every other answers each request
//! with `NotImplemented`.

pub mod local;
pub mod plan;

use crate::backend::local::layout::{
    get_file_plan, get_pipeline_execution_plan, get_pipeline_executions_plan,
    get_pipeline_fragment_lineage_plan, get_pipeline_fragment_lineages_plan,
    get_pipeline_result_plan, get_pipeline_results_plan, read_dataset_plan,
    remove_dataset_plan, remove_pipeline_execution_plan, save_dataset_plan,
    store_committed_files_plan, store_pipeline_execution_plan,
    store_pipeline_fragment_lineage_plan, store_pipeline_result_files_plan,
};
use crate::backend::local::pipeline::result_files_view;
use crate::backend::local::Local;
use crate::backend::plan::{StorageStep, StorageStepView};
use crate::dataset::models::DatasetConfig;
use crate::error::{DaemonError, Failure};
use crate::model::{Commit, DiffView, Text};
use vstd::prelude::*;

verus! {

/// The kinds of backend, each with its credentials.
#[derive(Debug, PartialEq, Eq)]
pub enum Backend {
    Local(Local),
    AmazonS3,
    GoogleCloud,
}

/// A backend with its credentials as characters: for the local one, the
/// directory below which it keeps its datasets.
pub enum BackendView {
    Local(Text),
    AmazonS3,
    GoogleCloud,
}

impl View for Backend {
    type V = BackendView;

    open spec fn view(&self) -> BackendView {
        match self {
            Backend::Local(local) => BackendView::Local(local@),
            Backend::AmazonS3 => BackendView::AmazonS3,
            Backend::GoogleCloud => BackendView::GoogleCloud,
        }
    }
}

impl Clone for Backend {
    fn clone(&self) -> (copy: Self)
        ensures
            copy@ == self@,
    {
        match self {
            Backend::Local(local) => Backend::Local(local.clone()),
            Backend::AmazonS3 => Backend::AmazonS3,
            Backend::GoogleCloud => Backend::GoogleCloud,
        }
    }
}

/// A plan or a failure, as views.
pub type Planned = Result<Seq<StorageStepView>, Failure>;

/// What a backend answered, as views.
pub open spec fn plan_outcome(result: Result<Vec<StorageStep>, DaemonError>) -> Planned {
    match result {
        Ok(plan) => Ok(plan.deep_view()),
        Err(e) => Err(e@),
    }
}

impl BackendView {
    /// The answer of a backend whose local form would answer `plan`.
    pub open spec fn answer(self, plan: spec_fn(Text) -> Seq<StorageStepView>) -> Planned {
        match self {
            BackendView::Local(root) => Ok(plan(root)),
            _ => Err(Failure::NotImplemented),
        }
    }

    pub open spec fn store_committed_files(self, dataset: Text, diff: DiffView, staging: Text) -> Planned {
        self.answer(|root: Text| store_committed_files_plan(root, dataset, staging, diff))
    }

    pub open spec fn get_file(self, dataset: Text, filename: Text) -> Planned {
        self.answer(|root: Text| get_file_plan(root, dataset, filename))
    }

    pub open spec fn save_dataset(self, dataset: Text) -> Planned {
        self.answer(|root: Text| save_dataset_plan(root, dataset))
    }

    pub open spec fn read_dataset(self, dataset: Text) -> Planned {
        self.answer(|root: Text| read_dataset_plan(root, dataset))
    }

    pub open spec fn remove_dataset(self, dataset: Text) -> Planned {
        self.answer(|root: Text| remove_dataset_plan(root, dataset))
    }

    pub open spec fn get_pipeline_executions(self, dataset: Text) -> Planned {
        self.answer(|root: Text| get_pipeline_executions_plan(root, dataset))
    }

    pub open spec fn get_pipeline_execution(self, dataset: Text, run: Text) -> Planned {
        self.answer(|root: Text| get_pipeline_execution_plan(root, dataset, run))
    }

    pub open spec fn store_pipeline_execution(self, dataset: Text, run: Text) -> Planned {
        self.answer(|root: Text| store_pipeline_execution_plan(root, dataset, run))
    }

    pub open spec fn remove_pipeline_execution(self, dataset: Text, run: Text) -> Planned {
        self.answer(|root: Text| remove_pipeline_execution_plan(root, dataset, run))
    }

    pub open spec fn store_pipeline_result_files(
        self,
        dataset: Text,
        run: Text,
        files: Seq<(Text, Text)>,
    ) -> Planned {
        self.answer(|root: Text| store_pipeline_result_files_plan(root, dataset, run, files))
    }

    pub open spec fn get_pipeline_results(self, dataset: Text, run: Text) -> Planned {
        self.answer(|root: Text| get_pipeline_results_plan(root, dataset, run))
    }

    pub open spec fn get_pipeline_result(self, dataset: Text, run: Text, name: Text) -> Planned {
        self.answer(|root: Text| get_pipeline_result_plan(root, dataset, run, name))
    }

    pub open spec fn store_pipeline_fragment_lineage(self, dataset: Text, run: Text, fragment: Text) -> Planned {
        self.answer(|root: Text| store_pipeline_fragment_lineage_plan(root, dataset, run, fragment))
    }

    pub open spec fn get_pipeline_fragment_lineages(self, dataset: Text, run: Text) -> Planned {
        self.answer(|root: Text| get_pipeline_fragment_lineages_plan(root, dataset, run))
    }

    pub open spec fn get_pipeline_fragment_lineage(self, dataset: Text, run: Text, fragment: Text) -> Planned {
        self.answer(|root: Text| get_pipeline_fragment_lineage_plan(root, dataset, run, fragment))
    }
}

// Datasets and their files.
impl Backend {
    /// How the files of `commit`, which wait in the staging directory `path`,
    /// get into the backend.
    pub fn store_committed_files(&self, dataset: &DatasetConfig, commit: &Commit, path: String) -> (result:
        Result<Vec<StorageStep>, DaemonError>)
        ensures
            plan_outcome(result) == self@.store_committed_files(dataset.name@, commit@.diff, path@),
    {
        match self {
            Backend::Local(backend) => Ok(backend.store_committed_files(dataset, commit, path)),
            _ => Err(DaemonError::NotImplemented),
        }
    }

    /// How a file of a dataset is read.
    pub fn get_file(&self, dataset_path: &str, commit_hash: &str, filename: &str) -> (result: Result<
        Vec<StorageStep>,
        DaemonError,
    >)
        ensures
            plan_outcome(result) == self@.get_file(dataset_path@, filename@),
    {
        match self {
            Backend::Local(backend) => Ok(backend.get_file(dataset_path, commit_hash, filename)),
            _ => Err(DaemonError::NotImplemented),
        }
    }

    /// How the version history of a dataset is saved.
    pub fn save_dataset(&self, dataset_path: &str) -> (result: Result<Vec<StorageStep>, DaemonError>)
        ensures
            plan_outcome(result) == self@.save_dataset(dataset_path@),
    {
        match self {
            Backend::Local(backend) => Ok(backend.save_dataset(dataset_path)),
            _ => Err(DaemonError::NotImplemented),
        }
    }

    /// How the version history of a dataset is read.
    pub fn read_dataset(&self, dataset_path: &str) -> (result: Result<Vec<StorageStep>, DaemonError>)
        ensures
            plan_outcome(result) == self@.read_dataset(dataset_path@),
    {
        match self {
            Backend::Local(backend) => Ok(backend.read_dataset(dataset_path)),
            _ => Err(DaemonError::NotImplemented),
        }
    }

    /// How a dataset is removed as a whole.
    pub fn remove_dataset(&self, dataset_path: &str) -> (result: Result<Vec<StorageStep>, DaemonError>)
        ensures
            plan_outcome(result) == self@.remove_dataset(dataset_path@),
    {
        match self {
            Backend::Local(backend) => Ok(backend.remove_dataset(dataset_path)),
            _ => Err(DaemonError::NotImplemented),
        }
    }
}

// Pipelines.
impl Backend {
    /// How the pipeline runs of a dataset are listed.
    pub fn get_pipeline_executions(&self, dataset_path: &str) -> (result: Result<
        Vec<StorageStep>,
        DaemonError,
    >)
        ensures
            plan_outcome(result) == self@.get_pipeline_executions(dataset_path@),
    {
        match self {
            Backend::Local(backend) => Ok(backend.get_pipeline_executions(dataset_path)),
            _ => Err(DaemonError::NotImplemented),
        }
    }

    /// How the description of a pipeline run is read.
    pub fn get_pipeline_execution(&self, dataset_path: &str, pipeline_hash: &str) -> (result: Result<
        Vec<StorageStep>,
        DaemonError,
    >)
        ensures
            plan_outcome(result) == self@.get_pipeline_execution(dataset_path@, pipeline_hash@),
    {
        match self {
            Backend::Local(backend) => Ok(backend.get_pipeline_execution(dataset_path, pipeline_hash)),
            _ => Err(DaemonError::NotImplemented),
        }
    }

    /// How the description of the pipeline run `pipeline_run_hash` is stored.
    pub fn store_pipeline_execution(&self, dataset: &DatasetConfig, pipeline_run_hash: &str) -> (result:
        Result<Vec<StorageStep>, DaemonError>)
        ensures
            plan_outcome(result) == self@.store_pipeline_execution(
                dataset.name@,
                pipeline_run_hash@,
            ),
    {
        match self {
            Backend::Local(backend) => Ok(backend.store_pipeline_execution(dataset, pipeline_run_hash)),
            _ => Err(DaemonError::NotImplemented),
        }
    }

    /// How a pipeline run is removed.
    pub fn remove_pipeline_execution(&self, dataset: &DatasetConfig, pipeline_hash: &str) -> (result:
        Result<Vec<StorageStep>, DaemonError>)
        ensures
            plan_outcome(result) == self@.remove_pipeline_execution(dataset.name@, pipeline_hash@),
    {
        match self {
            Backend::Local(backend) => Ok(backend.remove_pipeline_execution(dataset, pipeline_hash)),
            _ => Err(DaemonError::NotImplemented),
        }
    }

    /// How result files of a pipeline run are stored.
    pub fn store_pipeline_result_files(
        &self,
        dataset: &DatasetConfig,
        pipeline_result_paths: &[(String, String)],
        pipeline_hash: &str,
        tmp_files_path: &str,
    ) -> (result: Result<Vec<StorageStep>, DaemonError>)
        ensures
            plan_outcome(result) == self@.store_pipeline_result_files(
                dataset.name@,
                pipeline_hash@,
                result_files_view(pipeline_result_paths@),
            ),
    {
        match self {
            Backend::Local(backend) => Ok(
                backend.store_pipeline_result_files(
                    dataset,
                    pipeline_result_paths,
                    pipeline_hash,
                    tmp_files_path,
                ),
            ),
            _ => Err(DaemonError::NotImplemented),
        }
    }

    /// How the result files of a pipeline run are listed: by name, without
    /// their content.
    pub fn get_pipeline_results(&self, dataset_path: &str, pipeline_hash: &str) -> (result: Result<
        Vec<StorageStep>,
        DaemonError,
    >)
        ensures
            plan_outcome(result) == self@.get_pipeline_results(dataset_path@, pipeline_hash@),
    {
        match self {
            Backend::Local(backend) => Ok(backend.get_pipeline_results(dataset_path, pipeline_hash)),
            _ => Err(DaemonError::NotImplemented),
        }
    }

    /// How one result file of a pipeline run is read.
    pub fn get_pipeline_result(&self, dataset_path: &str, pipeline_hash: &str, file_name: &str) -> (result:
        Result<Vec<StorageStep>, DaemonError>)
        ensures
            plan_outcome(result) == self@.get_pipeline_result(
                dataset_path@,
                pipeline_hash@,
                file_name@,
            ),
    {
        match self {
            Backend::Local(backend) => Ok(
                backend.get_pipeline_result(dataset_path, pipeline_hash, file_name),
            ),
            _ => Err(DaemonError::NotImplemented),
        }
    }

    /// How the lineage of the fragment `fragment_id` is stored.
    pub fn store_pipeline_fragment_lineage(
        &self,
        dataset: &DatasetConfig,
        pipeline_hash: &str,
        fragment_id: &str,
    ) -> (result: Result<Vec<StorageStep>, DaemonError>)
        ensures
            plan_outcome(result) == self@.store_pipeline_fragment_lineage(
                dataset.name@,
                pipeline_hash@,
                fragment_id@,
            ),
    {
        match self {
            Backend::Local(backend) => Ok(
                backend.store_pipeline_fragment_lineage(dataset, pipeline_hash, fragment_id),
            ),
            _ => Err(DaemonError::NotImplemented),
        }
    }

    /// How the fragments whose lineage is stored are listed.
    pub fn get_pipeline_fragment_lineages(&self, dataset: &DatasetConfig, pipeline_hash: &str) -> (result:
        Result<Vec<StorageStep>, DaemonError>)
        ensures
            plan_outcome(result) == self@.get_pipeline_fragment_lineages(
                dataset.name@,
                pipeline_hash@,
            ),
    {
        match self {
            Backend::Local(backend) => Ok(backend.get_pipeline_fragment_lineages(dataset, pipeline_hash)),
            _ => Err(DaemonError::NotImplemented),
        }
    }

    /// How the lineage of one fragment is read.
    pub fn get_pipeline_fragment_lineage(
        &self,
        dataset: &DatasetConfig,
        pipeline_hash: &str,
        fragment_id: &str,
    ) -> (result: Result<Vec<StorageStep>, DaemonError>)
        ensures
            plan_outcome(result) == self@.get_pipeline_fragment_lineage(
                dataset.name@,
                pipeline_hash@,
                fragment_id@,
            ),
    {
        match self {
            Backend::Local(backend) => Ok(
                backend.get_pipeline_fragment_lineage(dataset, pipeline_hash, fragment_id),
            ),
            _ => Err(DaemonError::NotImplemented),
        }
    }
}

} // verus!
