//! The configuration of a dataset.

use crate::backend::plan::StorageStep;
use crate::backend::local::pipeline::result_files_view;
use crate::backend::{plan_outcome, Backend, BackendView};
use crate::error::DaemonError;
use crate::model::{Commit, Text};
use vstd::prelude::*;

verus! {

/// What the daemon knows of a dataset besides its history: its name, which
/// is also its place in a URL and on disk, the backend that stores it, and a
/// description.
#[derive(Debug, PartialEq, Eq)]
pub struct DatasetConfig {
    pub name: String,
    pub backend: Backend,
    pub description: String,
}

pub struct DatasetConfigView {
    pub name: Text,
    pub backend: BackendView,
    pub description: Text,
}

impl View for DatasetConfig {
    type V = DatasetConfigView;

    open spec fn view(&self) -> DatasetConfigView {
        DatasetConfigView {
            name: self.name@,
            backend: self.backend@,
            description: self.description@,
        }
    }
}

impl DeepView for DatasetConfig {
    type V = DatasetConfigView;

    open spec fn deep_view(&self) -> DatasetConfigView {
        self@
    }
}

impl Clone for DatasetConfig {
    fn clone(&self) -> (copy: Self)
        ensures
            copy@ == self@,
    {
        DatasetConfig {
            name: self.name.clone(),
            backend: self.backend.clone(),
            description: self.description.clone(),
        }
    }
}

impl DatasetConfig {
    /// The plan that stores the files of `commit`, which wait in `path`.
    pub fn store_committed_files(&self, commit: &Commit, path: String) -> (result: Result<
        Vec<StorageStep>,
        DaemonError,
    >)
        ensures
            plan_outcome(result) == self@.backend.store_committed_files(
                self@.name,
                commit@.diff,
                path@,
            ),
    {
        self.backend.store_committed_files(self, commit, path)
    }

    /// The plan that reads the file `filename` as of the commit
    /// `commit_hash`.
    pub fn get_file(&self, commit_hash: &str, filename: &str) -> (result: Result<
        Vec<StorageStep>,
        DaemonError,
    >)
        ensures
            plan_outcome(result) == self@.backend.get_file(self@.name, filename@),
    {
        self.backend.get_file(self.name.as_str(), commit_hash, filename)
    }

    /// The plan that saves the version history.
    pub fn save_dataset(&self) -> (result: Result<Vec<StorageStep>, DaemonError>)
        ensures
            plan_outcome(result) == self@.backend.save_dataset(self@.name),
    {
        self.backend.save_dataset(self.name.as_str())
    }

    /// The plan that reads the version history.
    pub fn read_dataset(&self) -> (result: Result<Vec<StorageStep>, DaemonError>)
        ensures
            plan_outcome(result) == self@.backend.read_dataset(self@.name),
    {
        self.backend.read_dataset(self.name.as_str())
    }

    /// The plan that removes the dataset from its backend.
    pub fn remove_dataset(&self) -> (result: Result<Vec<StorageStep>, DaemonError>)
        ensures
            plan_outcome(result) == self@.backend.remove_dataset(self@.name),
    {
        self.backend.remove_dataset(self.name.as_str())
    }

    /// The plan that stores result files of the run `pipeline_hash`.
    pub fn store_pipeline_result_files(
        &self,
        pipeline_result_paths: &[(String, String)],
        pipeline_hash: &str,
        tmp_files_path: &str,
    ) -> (result: Result<Vec<StorageStep>, DaemonError>)
        ensures
            plan_outcome(result) == self@.backend.store_pipeline_result_files(
                self@.name,
                pipeline_hash@,
                result_files_view(pipeline_result_paths@),
            ),
    {
        self.backend.store_pipeline_result_files(
            self,
            pipeline_result_paths,
            pipeline_hash,
            tmp_files_path,
        )
    }

    /// The plan that reads the result file `file_name` of the run
    /// `pipeline_hash`.
    pub fn get_pipeline_result(&self, pipeline_hash: &str, file_name: &str) -> (result: Result<
        Vec<StorageStep>,
        DaemonError,
    >)
        ensures
            plan_outcome(result) == self@.backend.get_pipeline_result(
                self@.name,
                pipeline_hash@,
                file_name@,
            ),
    {
        self.backend.get_pipeline_result(self.name.as_str(), pipeline_hash, file_name)
    }
}

} // verus!
