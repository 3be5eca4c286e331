//! The plans of the local backend for pipeline runs, their results and their
//! lineages.

use crate::backend::local::layout::{
    get_pipeline_execution_plan, get_pipeline_executions_plan,
    get_pipeline_fragment_lineage_plan, get_pipeline_fragment_lineages_plan,
    get_pipeline_result_plan, get_pipeline_results_plan, lineage_dir,
    remove_pipeline_execution_plan, results_dir, run_dir, runs_dir,
    store_pipeline_execution_plan, store_pipeline_fragment_lineage_plan,
    store_pipeline_result_files_plan,
};
use crate::backend::local::Local;
use crate::backend::plan::StorageStep;
use crate::dataset::models::DatasetConfig;
use crate::model::Text;
use vstd::prelude::*;

verus! {

/// The names and waiting places of result files, as characters.
pub open spec fn result_files_view(files: Seq<(String, String)>) -> Seq<(Text, Text)> {
    Seq::new(files.len(), |i: int| (files[i].0@, files[i].1@))
}

impl Local {
    /// The directory of the pipeline runs of `dataset_name`.
    pub fn get_pipelines_path(&self, dataset_name: &str) -> (path: String)
        ensures
            path@ == runs_dir(self@, dataset_name@),
    {
        let mut path = self.dataset_dir(dataset_name);
        path.append("/runs");
        path
    }

    /// The directory of the pipeline run `pipeline_hash` of `dataset_name`.
    pub fn get_pipeline_path(&self, dataset_name: &str, pipeline_hash: &str) -> (path: String)
        ensures
            path@ == run_dir(self@, dataset_name@, pipeline_hash@),
    {
        let mut path = self.get_pipelines_path(dataset_name);
        path.append("/");
        path.append(pipeline_hash);
        path
    }

    /// The directory of the result files of a pipeline run.
    fn results_path(&self, dataset_name: &str, pipeline_hash: &str) -> (path: String)
        ensures
            path@ == results_dir(self@, dataset_name@, pipeline_hash@),
    {
        let mut path = self.get_pipeline_path(dataset_name, pipeline_hash);
        path.append("/results");
        path
    }

    /// The directory of the fragment lineages of a pipeline run.
    fn lineage_path(&self, dataset_name: &str, pipeline_hash: &str) -> (path: String)
        ensures
            path@ == lineage_dir(self@, dataset_name@, pipeline_hash@),
    {
        let mut path = self.get_pipeline_path(dataset_name, pipeline_hash);
        path.append("/lineage");
        path
    }

    /// The plan that lists the pipeline runs of the dataset `dataset_path`.
    pub fn get_pipeline_executions(&self, dataset_path: &str) -> (plan: Vec<StorageStep>)
        ensures
            plan.deep_view() == get_pipeline_executions_plan(self@, dataset_path@),
    {
        let plan = vec![StorageStep::ListDir(self.get_pipelines_path(dataset_path))];
        assert(plan.deep_view() =~= get_pipeline_executions_plan(self@, dataset_path@));
        plan
    }

    /// The plan that reads the description of the run `pipeline_hash`.
    pub fn get_pipeline_execution(&self, dataset_path: &str, pipeline_hash: &str) -> (plan: Vec<
        StorageStep,
    >)
        ensures
            plan.deep_view() == get_pipeline_execution_plan(self@, dataset_path@, pipeline_hash@),
    {
        let mut file = self.get_pipeline_path(dataset_path, pipeline_hash);
        file.append("/execution.json");
        let plan = vec![StorageStep::ReadFile(file)];
        assert(plan.deep_view() =~= get_pipeline_execution_plan(
            self@,
            dataset_path@,
            pipeline_hash@,
        ));
        plan
    }

    /// The plan that stores the description of the run `pipeline_run_hash`.
    pub fn store_pipeline_execution(&self, dataset: &DatasetConfig, pipeline_run_hash: &str) -> (plan:
        Vec<StorageStep>)
        ensures
            plan.deep_view() == store_pipeline_execution_plan(
                self@,
                dataset.name@,
                pipeline_run_hash@,
            ),
    {
        let dir = self.get_pipeline_path(dataset.name.as_str(), pipeline_run_hash);
        let mut file = self.get_pipeline_path(dataset.name.as_str(), pipeline_run_hash);
        file.append("/execution.json");
        let plan = vec![StorageStep::CreateDirAll(dir), StorageStep::WriteFile(file)];
        assert(plan.deep_view() =~= store_pipeline_execution_plan(
            self@,
            dataset.name@,
            pipeline_run_hash@,
        ));
        plan
    }

    /// The plan that removes the run `pipeline_hash` with all that belongs to
    /// it.
    pub fn remove_pipeline_execution(&self, dataset: &DatasetConfig, pipeline_hash: &str) -> (plan:
        Vec<StorageStep>)
        ensures
            plan.deep_view() == remove_pipeline_execution_plan(
                self@,
                dataset.name@,
                pipeline_hash@,
            ),
    {
        let plan = vec![
            StorageStep::RemoveDirAll(self.get_pipeline_path(dataset.name.as_str(), pipeline_hash)),
        ];
        assert(plan.deep_view() =~= remove_pipeline_execution_plan(
            self@,
            dataset.name@,
            pipeline_hash@,
        ));
        plan
    }

    /// The plan that copies result files into the run `pipeline_hash`. Each
    /// pair holds the name that the file gets and the path where it waits.
    pub fn store_pipeline_result_files(
        &self,
        dataset: &DatasetConfig,
        pipeline_result_paths: &[(String, String)],
        pipeline_hash: &str,
        _tmp_files_path: &str,
    ) -> (plan: Vec<StorageStep>)
        ensures
            plan.deep_view() == store_pipeline_result_files_plan(
                self@,
                dataset.name@,
                pipeline_hash@,
                result_files_view(pipeline_result_paths@),
            ),
    {
        let ghost copies = store_pipeline_result_files_plan(
            self@,
            dataset.name@,
            pipeline_hash@,
            result_files_view(pipeline_result_paths@),
        );
        let mut plan: Vec<StorageStep> = Vec::new();
        let mut i: usize = 0;
        while i < pipeline_result_paths.len()
            invariant
                i <= pipeline_result_paths.len(),
                copies == store_pipeline_result_files_plan(
                    self@,
                    dataset.name@,
                    pipeline_hash@,
                    result_files_view(pipeline_result_paths@),
                ),
                plan.deep_view() =~= copies.subrange(0, i as int),
            decreases pipeline_result_paths.len() - i,
        {
            let mut to = self.results_path(dataset.name.as_str(), pipeline_hash);
            to.append("/");
            to.append(pipeline_result_paths[i].0.as_str());
            let from = pipeline_result_paths[i].1.clone();
            let ghost before = plan.deep_view();
            plan.push(StorageStep::CopyFile { from, to });
            proof {
                assert(plan.deep_view() =~= before.push(copies[i as int]));
            }
            i += 1;
        }
        assert(copies.subrange(0, i as int) =~= copies);
        plan
    }

    /// The plan that lists the result files of the run `pipeline_hash`.
    pub fn get_pipeline_results(&self, dataset_path: &str, pipeline_hash: &str) -> (plan: Vec<
        StorageStep,
    >)
        ensures
            plan.deep_view() == get_pipeline_results_plan(self@, dataset_path@, pipeline_hash@),
    {
        let plan = vec![StorageStep::ListDir(self.results_path(dataset_path, pipeline_hash))];
        assert(plan.deep_view() =~= get_pipeline_results_plan(self@, dataset_path@, pipeline_hash@));
        plan
    }

    /// The plan that reads the result file `file_name` of the run
    /// `pipeline_hash`.
    pub fn get_pipeline_result(&self, dataset_path: &str, pipeline_hash: &str, file_name: &str) -> (plan:
        Vec<StorageStep>)
        ensures
            plan.deep_view() == get_pipeline_result_plan(
                self@,
                dataset_path@,
                pipeline_hash@,
                file_name@,
            ),
    {
        let mut file = self.results_path(dataset_path, pipeline_hash);
        file.append("/");
        file.append(file_name);
        let plan = vec![StorageStep::ReadFile(file)];
        assert(plan.deep_view() =~= get_pipeline_result_plan(
            self@,
            dataset_path@,
            pipeline_hash@,
            file_name@,
        ));
        plan
    }

    /// The plan that stores the lineage of the fragment `fragment_id` of the
    /// run `pipeline_hash`.
    pub fn store_pipeline_fragment_lineage(
        &self,
        dataset: &DatasetConfig,
        pipeline_hash: &str,
        fragment_id: &str,
    ) -> (plan: Vec<StorageStep>)
        ensures
            plan.deep_view() == store_pipeline_fragment_lineage_plan(
                self@,
                dataset.name@,
                pipeline_hash@,
                fragment_id@,
            ),
    {
        let dir = self.lineage_path(dataset.name.as_str(), pipeline_hash);
        let mut file = self.lineage_path(dataset.name.as_str(), pipeline_hash);
        file.append("/");
        file.append(fragment_id);
        let plan = vec![StorageStep::CreateDirAll(dir), StorageStep::WriteFile(file)];
        assert(plan.deep_view() =~= store_pipeline_fragment_lineage_plan(
            self@,
            dataset.name@,
            pipeline_hash@,
            fragment_id@,
        ));
        plan
    }

    /// The plan that lists the fragments of the run `pipeline_hash` whose
    /// lineage is stored.
    pub fn get_pipeline_fragment_lineages(&self, dataset: &DatasetConfig, pipeline_hash: &str) -> (plan:
        Vec<StorageStep>)
        ensures
            plan.deep_view() == get_pipeline_fragment_lineages_plan(
                self@,
                dataset.name@,
                pipeline_hash@,
            ),
    {
        let plan = vec![StorageStep::ListDir(self.lineage_path(dataset.name.as_str(), pipeline_hash))];
        assert(plan.deep_view() =~= get_pipeline_fragment_lineages_plan(
            self@,
            dataset.name@,
            pipeline_hash@,
        ));
        plan
    }

    /// The plan that reads the lineage of the fragment `fragment_id` of the
    /// run `pipeline_hash`.
    pub fn get_pipeline_fragment_lineage(
        &self,
        dataset: &DatasetConfig,
        pipeline_hash: &str,
        fragment_id: &str,
    ) -> (plan: Vec<StorageStep>)
        ensures
            plan.deep_view() == get_pipeline_fragment_lineage_plan(
                self@,
                dataset.name@,
                pipeline_hash@,
                fragment_id@,
            ),
    {
        let mut file = self.lineage_path(dataset.name.as_str(), pipeline_hash);
        file.append("/");
        file.append(fragment_id);
        let plan = vec![StorageStep::ReadFile(file)];
        assert(plan.deep_view() =~= get_pipeline_fragment_lineage_plan(
            self@,
            dataset.name@,
            pipeline_hash@,
            fragment_id@,
        ));
        plan
    }
}

} // verus!
