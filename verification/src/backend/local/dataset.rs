//! The plans of the local backend for a dataset and its committed files.

use crate::backend::local::layout::{
    data_file, dataset_dir, dataset_file, get_file_plan, read_dataset_plan, remove_dataset_plan,
    save_dataset_plan, staged_copies, store_committed_files_plan,
};
use crate::backend::local::Local;
use crate::backend::plan::StorageStep;
use crate::dataset::models::DatasetConfig;
use crate::model::Commit;
use crate::text::join2;
use vstd::prelude::*;

verus! {

impl Local {
    /// The directory of the dataset `dataset`.
    pub fn dataset_dir(&self, dataset: &str) -> (path: String)
        ensures
            path@ == dataset_dir(self@, dataset@),
    {
        join2(self.path.as_str(), dataset)
    }

    /// The file that holds the version history of `dataset`.
    pub fn dataset_file(&self, dataset: &str) -> (path: String)
        ensures
            path@ == dataset_file(self@, dataset@),
    {
        let mut path = self.dataset_dir(dataset);
        path.append("/dataset.json");
        path
    }

    /// The committed file of `dataset` with the relative path `file`.
    pub fn data_file(&self, dataset: &str, file: &str) -> (path: String)
        ensures
            path@ == data_file(self@, dataset@, file@),
    {
        let mut path = self.dataset_dir(dataset);
        path.append("/data/");
        path.append(file);
        path
    }

    /// Appends to `plan` one copy from `staging` into the data directory of
    /// `dataset` for each of `files`.
    fn stage_copies(&self, plan: &mut Vec<StorageStep>, dataset: &str, staging: &str, files: &Vec<String>)
        ensures
            final(plan).deep_view() == old(plan).deep_view() + staged_copies(
                self@,
                dataset@,
                staging@,
                files.deep_view(),
            ),
    {
        let ghost start = plan.deep_view();
        let ghost copies = staged_copies(self@, dataset@, staging@, files.deep_view());
        let mut i: usize = 0;
        while i < files.len()
            invariant
                i <= files.len(),
                copies == staged_copies(self@, dataset@, staging@, files.deep_view()),
                plan.deep_view() == start + copies.subrange(0, i as int),
            decreases files.len() - i,
        {
            let mut from = join2(staging, "/");
            from.append(files[i].as_str());
            let to = self.data_file(dataset, files[i].as_str());
            let ghost before = plan.deep_view();
            plan.push(StorageStep::CopyFile { from, to });
            proof {
                assert(files.deep_view()[i as int] == files[i as int]@);
                assert(plan.deep_view() =~= before.push(copies[i as int]));
                assert(start + copies.subrange(0, i + 1) =~= (start + copies.subrange(0, i as int)).push(
                    copies[i as int],
                ));
            }
            i += 1;
        }
        assert(copies.subrange(0, i as int) =~= copies);
    }

    /// The plan that brings the files that `commit` adds or updates from the
    /// staging directory `tmp_files_path` into the data directory of
    /// `dataset`, the added files first.
    pub fn store_committed_files(
        &self,
        dataset: &DatasetConfig,
        commit: &Commit,
        tmp_files_path: String,
    ) -> (plan: Vec<StorageStep>)
        ensures
            plan.deep_view() == store_committed_files_plan(
                self@,
                dataset.name@,
                tmp_files_path@,
                commit@.diff,
            ),
    {
        let mut plan: Vec<StorageStep> = Vec::new();
        assert(plan.deep_view() =~= Seq::empty());
        self.stage_copies(&mut plan, dataset.name.as_str(), tmp_files_path.as_str(), &commit.diff.added);
        self.stage_copies(
            &mut plan,
            dataset.name.as_str(),
            tmp_files_path.as_str(),
            &commit.diff.updated,
        );
        assert(plan.deep_view() =~= store_committed_files_plan(
            self@,
            dataset.name@,
            tmp_files_path@,
            commit@.diff,
        ));
        plan
    }

    /// The plan that reads the file `filename` of the dataset `dataset_path`.
    /// The commit addresses the file; the path does not depend on it.
    pub fn get_file(&self, dataset_path: &str, _commit_hash: &str, filename: &str) -> (plan: Vec<
        StorageStep,
    >)
        ensures
            plan.deep_view() == get_file_plan(self@, dataset_path@, filename@),
    {
        let plan = vec![StorageStep::ReadFile(self.data_file(dataset_path, filename))];
        assert(plan.deep_view() =~= get_file_plan(self@, dataset_path@, filename@));
        plan
    }

    /// The plan that saves the version history of the dataset `dataset_path`.
    pub fn save_dataset(&self, dataset_path: &str) -> (plan: Vec<StorageStep>)
        ensures
            plan.deep_view() == save_dataset_plan(self@, dataset_path@),
    {
        let dir = self.dataset_dir(dataset_path);
        let data = join2(dir.as_str(), "/data");
        let file = self.dataset_file(dataset_path);
        let plan = vec![
            StorageStep::CreateDirAll(dir),
            StorageStep::CreateDirAll(data),
            StorageStep::WriteFile(file),
        ];
        assert(plan.deep_view() =~= save_dataset_plan(self@, dataset_path@));
        plan
    }

    /// The plan that reads the version history of the dataset `dataset_path`.
    pub fn read_dataset(&self, dataset_path: &str) -> (plan: Vec<StorageStep>)
        ensures
            plan.deep_view() == read_dataset_plan(self@, dataset_path@),
    {
        let plan = vec![StorageStep::ReadFile(self.dataset_file(dataset_path))];
        assert(plan.deep_view() =~= read_dataset_plan(self@, dataset_path@));
        plan
    }

    /// The plan that removes the dataset `dataset_path` with its files and
    /// pipeline runs.
    pub fn remove_dataset(&self, dataset_path: &str) -> (plan: Vec<StorageStep>)
        ensures
            plan.deep_view() == remove_dataset_plan(self@, dataset_path@),
    {
        let plan = vec![StorageStep::RemoveDirAll(self.dataset_dir(dataset_path))];
        assert(plan.deep_view() =~= remove_dataset_plan(self@, dataset_path@));
        plan
    }
}

} // verus!
