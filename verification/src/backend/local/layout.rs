//! Where the local backend keeps what.
//!
//! ```text
//! <root><dataset>/dataset.json                        the version history
//! <root><dataset>/data/<path>                         a committed file
//! <root><dataset>/runs/<run>/execution.json           a pipeline execution
//! <root><dataset>/runs/<run>/results/<name>           a result file
//! <root><dataset>/runs/<run>/lineage/<fragment>       the lineage of a fragment
//! ```

use crate::backend::plan::StorageStepView;
use crate::model::{DiffView, Text};
use vstd::prelude::*;

verus! {

/// The directory of a dataset.
pub open spec fn dataset_dir(root: Text, dataset: Text) -> Text {
    root + dataset
}

/// The file that holds the version history of a dataset.
pub open spec fn dataset_file(root: Text, dataset: Text) -> Text {
    dataset_dir(root, dataset) + "/dataset.json"@
}

/// The directory of the committed files of a dataset.
pub open spec fn data_dir(root: Text, dataset: Text) -> Text {
    dataset_dir(root, dataset) + "/data"@
}

/// The committed file with the dataset-relative path `path`.
pub open spec fn data_file(root: Text, dataset: Text, path: Text) -> Text {
    dataset_dir(root, dataset) + "/data/"@ + path
}

/// The directory of the pipeline runs of a dataset.
pub open spec fn runs_dir(root: Text, dataset: Text) -> Text {
    dataset_dir(root, dataset) + "/runs"@
}

/// The directory of one pipeline run.
pub open spec fn run_dir(root: Text, dataset: Text, run: Text) -> Text {
    runs_dir(root, dataset) + "/"@ + run
}

/// The file that describes one pipeline run.
pub open spec fn execution_file(root: Text, dataset: Text, run: Text) -> Text {
    run_dir(root, dataset, run) + "/execution.json"@
}

/// The directory of the result files of one pipeline run.
pub open spec fn results_dir(root: Text, dataset: Text, run: Text) -> Text {
    run_dir(root, dataset, run) + "/results"@
}

/// One result file of one pipeline run.
pub open spec fn result_file(root: Text, dataset: Text, run: Text, name: Text) -> Text {
    results_dir(root, dataset, run) + "/"@ + name
}

/// The directory of the fragment lineages of one pipeline run.
pub open spec fn lineage_dir(root: Text, dataset: Text, run: Text) -> Text {
    run_dir(root, dataset, run) + "/lineage"@
}

/// The lineage of one fragment of one pipeline run.
pub open spec fn lineage_file(root: Text, dataset: Text, run: Text, fragment: Text) -> Text {
    lineage_dir(root, dataset, run) + "/"@ + fragment
}

/// Where an uploaded file with the dataset-relative path `path` waits in the
/// staging directory `staging`.
pub open spec fn staged_file(staging: Text, path: Text) -> Text {
    staging + "/"@ + path
}

/// Saving the version history: make sure that the dataset's directory and
/// its data directory are there, then write the history.
pub open spec fn save_dataset_plan(root: Text, dataset: Text) -> Seq<StorageStepView> {
    seq![
        StorageStepView::CreateDirAll(dataset_dir(root, dataset)),
        StorageStepView::CreateDirAll(data_dir(root, dataset)),
        StorageStepView::WriteFile(dataset_file(root, dataset)),
    ]
}

/// Reading the version history.
pub open spec fn read_dataset_plan(root: Text, dataset: Text) -> Seq<StorageStepView> {
    seq![StorageStepView::ReadFile(dataset_file(root, dataset))]
}

/// Removing a dataset with all that belongs to it.
pub open spec fn remove_dataset_plan(root: Text, dataset: Text) -> Seq<StorageStepView> {
    seq![StorageStepView::RemoveDirAll(dataset_dir(root, dataset))]
}

/// One copy from the staging directory into the data directory for each of
/// `paths`, in their order.
pub open spec fn staged_copies(
    root: Text,
    dataset: Text,
    staging: Text,
    paths: Seq<Text>,
) -> Seq<StorageStepView> {
    Seq::new(
        paths.len(),
        |i: int|
            StorageStepView::CopyFile {
                from: staged_file(staging, paths[i]),
                to: data_file(root, dataset, paths[i]),
            },
    )
}

/// Storing the files of a commit: the added files, then the updated ones.
pub open spec fn store_committed_files_plan(
    root: Text,
    dataset: Text,
    staging: Text,
    diff: DiffView,
) -> Seq<StorageStepView> {
    staged_copies(root, dataset, staging, diff.added) + staged_copies(
        root,
        dataset,
        staging,
        diff.updated,
    )
}

/// Reading a committed file. The local backend keeps the current body of
/// each path only, so the commit does not enter the path.
pub open spec fn get_file_plan(root: Text, dataset: Text, path: Text) -> Seq<StorageStepView> {
    seq![StorageStepView::ReadFile(data_file(root, dataset, path))]
}

/// Listing the pipeline runs of a dataset.
pub open spec fn get_pipeline_executions_plan(root: Text, dataset: Text) -> Seq<StorageStepView> {
    seq![StorageStepView::ListDir(runs_dir(root, dataset))]
}

/// Reading the description of a pipeline run.
pub open spec fn get_pipeline_execution_plan(root: Text, dataset: Text, run: Text) -> Seq<
    StorageStepView,
> {
    seq![StorageStepView::ReadFile(execution_file(root, dataset, run))]
}

/// Storing the description of a pipeline run.
pub open spec fn store_pipeline_execution_plan(root: Text, dataset: Text, run: Text) -> Seq<
    StorageStepView,
> {
    seq![
        StorageStepView::CreateDirAll(run_dir(root, dataset, run)),
        StorageStepView::WriteFile(execution_file(root, dataset, run)),
    ]
}

/// Removing a pipeline run with its results and lineages.
pub open spec fn remove_pipeline_execution_plan(root: Text, dataset: Text, run: Text) -> Seq<
    StorageStepView,
> {
    seq![StorageStepView::RemoveDirAll(run_dir(root, dataset, run))]
}

/// Storing result files: one copy for each pair of a file name and the path
/// where the file waits, in their order.
pub open spec fn store_pipeline_result_files_plan(
    root: Text,
    dataset: Text,
    run: Text,
    files: Seq<(Text, Text)>,
) -> Seq<StorageStepView> {
    Seq::new(
        files.len(),
        |i: int|
            StorageStepView::CopyFile {
                from: files[i].1,
                to: result_file(root, dataset, run, files[i].0),
            },
    )
}

/// Listing the result files of a pipeline run.
pub open spec fn get_pipeline_results_plan(root: Text, dataset: Text, run: Text) -> Seq<
    StorageStepView,
> {
    seq![StorageStepView::ListDir(results_dir(root, dataset, run))]
}

/// Reading one result file.
pub open spec fn get_pipeline_result_plan(root: Text, dataset: Text, run: Text, name: Text) -> Seq<
    StorageStepView,
> {
    seq![StorageStepView::ReadFile(result_file(root, dataset, run, name))]
}

/// Storing the lineage of a fragment.
pub open spec fn store_pipeline_fragment_lineage_plan(
    root: Text,
    dataset: Text,
    run: Text,
    fragment: Text,
) -> Seq<StorageStepView> {
    seq![
        StorageStepView::CreateDirAll(lineage_dir(root, dataset, run)),
        StorageStepView::WriteFile(lineage_file(root, dataset, run, fragment)),
    ]
}

/// Listing the fragments whose lineage is stored.
pub open spec fn get_pipeline_fragment_lineages_plan(root: Text, dataset: Text, run: Text) -> Seq<
    StorageStepView,
> {
    seq![StorageStepView::ListDir(lineage_dir(root, dataset, run))]
}

/// Reading the lineage of a fragment.
pub open spec fn get_pipeline_fragment_lineage_plan(
    root: Text,
    dataset: Text,
    run: Text,
    fragment: Text,
) -> Seq<StorageStepView> {
    seq![StorageStepView::ReadFile(lineage_file(root, dataset, run, fragment))]
}

/// The path that a plan writes last, if it writes any.
pub open spec fn written(plan: Seq<StorageStepView>) -> Option<Text> {
    if plan.len() > 0 && plan.last() is WriteFile {
        Some(plan.last()->WriteFile_0)
    } else {
        None
    }
}

/// The path that a plan of one step reads.
pub open spec fn read(plan: Seq<StorageStepView>) -> Option<Text> {
    if plan.len() == 1 && plan[0] is ReadFile {
        Some(plan[0]->ReadFile_0)
    } else {
        None
    }
}

/// What is saved is read back from where it was written: the version
/// history, the description of a pipeline run, and the lineage of a fragment.
pub proof fn lemma_read_where_written(root: Text, dataset: Text, run: Text, fragment: Text)
    ensures
        written(save_dataset_plan(root, dataset)) is Some,
        read(read_dataset_plan(root, dataset)) == written(save_dataset_plan(root, dataset)),
        written(store_pipeline_execution_plan(root, dataset, run)) is Some,
        read(get_pipeline_execution_plan(root, dataset, run)) == written(
            store_pipeline_execution_plan(root, dataset, run),
        ),
        written(store_pipeline_fragment_lineage_plan(root, dataset, run, fragment)) is Some,
        read(get_pipeline_fragment_lineage_plan(root, dataset, run, fragment)) == written(
            store_pipeline_fragment_lineage_plan(root, dataset, run, fragment),
        ),
{
}

/// A file is read from where it was copied to: each file of a commit, added
/// or updated, and each result file of a pipeline run.
pub proof fn lemma_read_where_copied(
    root: Text,
    dataset: Text,
    staging: Text,
    diff: DiffView,
    run: Text,
    files: Seq<(Text, Text)>,
)
    ensures
        forall|i: int|
            0 <= i < diff.added.len() ==> (#[trigger] store_committed_files_plan(
                root,
                dataset,
                staging,
                diff,
            )[i])->to == read(get_file_plan(root, dataset, diff.added[i]))->0,
        forall|i: int|
            0 <= i < diff.updated.len() ==> (#[trigger] store_committed_files_plan(
                root,
                dataset,
                staging,
                diff,
            )[diff.added.len() + i])->to == read(get_file_plan(root, dataset, diff.updated[i]))->0,
        forall|i: int|
            0 <= i < files.len() ==> (#[trigger] store_pipeline_result_files_plan(
                root,
                dataset,
                run,
                files,
            )[i])->to == read(get_pipeline_result_plan(root, dataset, run, files[i].0))->0,
{
}

} // verus!
