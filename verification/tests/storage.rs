use iterum_daemon::backend::local::Local;
use iterum_daemon::backend::plan::StorageStep;
use iterum_daemon::backend::Backend;
use iterum_daemon::dataset::models::DatasetConfig;
use iterum_daemon::error::{DaemonError, IoFailure};
use iterum_daemon::model::{Commit, Deprecated, Diff};

fn local() -> Backend {
    Backend::Local(Local { path: "./storage/".to_string() })
}

fn config(backend: Backend) -> DatasetConfig {
    DatasetConfig { name: "ds1".to_string(), backend, description: String::new() }
}

fn commit_with(added: &[&str], updated: &[&str], removed: &[&str]) -> Commit {
    let texts = |items: &[&str]| items.iter().map(|s| s.to_string()).collect::<Vec<String>>();
    Commit {
        hash: "c1".to_string(),
        parent: Some("R".to_string()),
        branch: "M".to_string(),
        name: "a".to_string(),
        description: String::new(),
        files: texts(added),
        diff: Diff { added: texts(added), updated: texts(updated), removed: texts(removed) },
        deprecated: Deprecated { value: false, reason: String::new() },
    }
}

fn read(path: &str) -> Vec<StorageStep> {
    vec![StorageStep::ReadFile(path.to_string())]
}

fn list(path: &str) -> Vec<StorageStep> {
    vec![StorageStep::ListDir(path.to_string())]
}

fn copy(from: &str, to: &str) -> StorageStep {
    StorageStep::CopyFile { from: from.to_string(), to: to.to_string() }
}

#[test]
fn history_is_saved_below_the_dataset() {
    assert_eq!(
        local().save_dataset("ds1"),
        Ok(vec![
            StorageStep::CreateDirAll("./storage/ds1".to_string()),
            StorageStep::CreateDirAll("./storage/ds1/data".to_string()),
            StorageStep::WriteFile("./storage/ds1/dataset.json".to_string()),
        ])
    );
    assert_eq!(local().read_dataset("ds1"), Ok(read("./storage/ds1/dataset.json")));
    assert_eq!(config(local()).save_dataset(), local().save_dataset("ds1"));
    assert_eq!(config(local()).read_dataset(), local().read_dataset("ds1"));
}

#[test]
fn root_is_used_as_it_is_written() {
    let bare = Backend::Local(Local { path: "/srv/data".to_string() });
    assert_eq!(bare.read_dataset("ds1"), Ok(read("/srv/datads1/dataset.json")));
    let empty = Backend::Local(Local { path: String::new() });
    assert_eq!(empty.read_dataset(""), Ok(read("/dataset.json")));
}

#[test]
fn dataset_is_removed_as_a_whole() {
    let plan = vec![StorageStep::RemoveDirAll("./storage/ds1".to_string())];
    assert_eq!(local().remove_dataset("ds1"), Ok(plan));
    assert_eq!(config(local()).remove_dataset(), local().remove_dataset("ds1"));
}

#[test]
fn committed_files_are_copied_added_first() {
    let commit = commit_with(&["a.jpg", "sub/b.jpg"], &["c.txt"], &["gone.txt"]);
    let plan = local()
        .store_committed_files(&config(local()), &commit, "./.tmp/h/".to_string())
        .unwrap();
    assert_eq!(
        plan,
        vec![
            copy("./.tmp/h//a.jpg", "./storage/ds1/data/a.jpg"),
            copy("./.tmp/h//sub/b.jpg", "./storage/ds1/data/sub/b.jpg"),
            copy("./.tmp/h//c.txt", "./storage/ds1/data/c.txt"),
        ]
    );
    assert_eq!(
        config(local()).store_committed_files(&commit, "./.tmp/h/".to_string()),
        Ok(plan)
    );
}

#[test]
fn commit_without_new_files_needs_no_copy() {
    let commit = commit_with(&[], &[], &["gone.txt"]);
    assert_eq!(
        config(local()).store_committed_files(&commit, "tmp".to_string()),
        Ok(vec![])
    );
}

#[test]
fn file_is_read_from_where_it_was_copied_to() {
    let commit = commit_with(&["a.jpg"], &[], &[]);
    let stored = config(local()).store_committed_files(&commit, "tmp".to_string()).unwrap();
    assert_eq!(stored, vec![copy("tmp/a.jpg", "./storage/ds1/data/a.jpg")]);
    assert_eq!(config(local()).get_file("c1", "a.jpg"), Ok(read("./storage/ds1/data/a.jpg")));
    // The commit addresses the file; the local backend keeps one body per path.
    assert_eq!(local().get_file("ds1", "c0", "a.jpg"), local().get_file("ds1", "c1", "a.jpg"));
}

#[test]
fn pipeline_runs_live_below_runs() {
    let backend = local();
    let cfg = config(local());
    assert_eq!(backend.get_pipeline_executions("ds1"), Ok(list("./storage/ds1/runs")));
    assert_eq!(
        backend.get_pipeline_execution("ds1", "run1"),
        Ok(read("./storage/ds1/runs/run1/execution.json"))
    );
    assert_eq!(
        backend.store_pipeline_execution(&cfg, "run1"),
        Ok(vec![
            StorageStep::CreateDirAll("./storage/ds1/runs/run1".to_string()),
            StorageStep::WriteFile("./storage/ds1/runs/run1/execution.json".to_string()),
        ])
    );
    assert_eq!(
        backend.remove_pipeline_execution(&cfg, "run1"),
        Ok(vec![StorageStep::RemoveDirAll("./storage/ds1/runs/run1".to_string())])
    );
}

#[test]
fn result_files_live_below_results() {
    let backend = local();
    let cfg = config(local());
    let files = vec![
        ("out.csv".to_string(), "./.tmp/h/out.csv".to_string()),
        ("plot.jpg".to_string(), "./.tmp/h/plot.jpg".to_string()),
    ];
    let plan = vec![
        copy("./.tmp/h/out.csv", "./storage/ds1/runs/run1/results/out.csv"),
        copy("./.tmp/h/plot.jpg", "./storage/ds1/runs/run1/results/plot.jpg"),
    ];
    assert_eq!(backend.store_pipeline_result_files(&cfg, &files, "run1", "./.tmp/h/"), Ok(plan));
    assert_eq!(
        cfg.store_pipeline_result_files(&files, "run1", "./.tmp/h/"),
        backend.store_pipeline_result_files(&cfg, &files, "run1", "elsewhere")
    );
    assert_eq!(backend.store_pipeline_result_files(&cfg, &[], "run1", "./.tmp/h/"), Ok(vec![]));
    assert_eq!(
        backend.get_pipeline_results("ds1", "run1"),
        Ok(list("./storage/ds1/runs/run1/results"))
    );
    assert_eq!(
        backend.get_pipeline_result("ds1", "run1", "out.csv"),
        Ok(read("./storage/ds1/runs/run1/results/out.csv"))
    );
    assert_eq!(
        cfg.get_pipeline_result("run1", "out.csv"),
        backend.get_pipeline_result("ds1", "run1", "out.csv")
    );
}

#[test]
fn lineages_live_below_lineage() {
    let backend = local();
    let cfg = config(local());
    assert_eq!(
        backend.store_pipeline_fragment_lineage(&cfg, "run1", "f7"),
        Ok(vec![
            StorageStep::CreateDirAll("./storage/ds1/runs/run1/lineage".to_string()),
            StorageStep::WriteFile("./storage/ds1/runs/run1/lineage/f7".to_string()),
        ])
    );
    assert_eq!(
        backend.get_pipeline_fragment_lineages(&cfg, "run1"),
        Ok(list("./storage/ds1/runs/run1/lineage"))
    );
    assert_eq!(
        backend.get_pipeline_fragment_lineage(&cfg, "run1", "f7"),
        Ok(read("./storage/ds1/runs/run1/lineage/f7"))
    );
}

#[test]
fn local_paths_are_built_piece_by_piece() {
    let local = Local { path: "./storage/".to_string() };
    assert_eq!(local.dataset_dir("ds1"), "./storage/ds1");
    assert_eq!(local.dataset_file("ds1"), "./storage/ds1/dataset.json");
    assert_eq!(local.data_file("ds1", "sub/a.jpg"), "./storage/ds1/data/sub/a.jpg");
    assert_eq!(local.get_pipelines_path("ds1"), "./storage/ds1/runs");
    assert_eq!(local.get_pipeline_path("ds1", "run1"), "./storage/ds1/runs/run1");
}

#[test]
fn other_backends_are_not_implemented() {
    for backend in [Backend::AmazonS3, Backend::GoogleCloud] {
        let cfg = config(backend.clone());
        let commit = commit_with(&["a.jpg"], &[], &[]);
        let files = vec![("a".to_string(), "b".to_string())];
        let no = Err(DaemonError::NotImplemented);
        assert_eq!(backend.store_committed_files(&cfg, &commit, "tmp".to_string()), no);
        assert_eq!(backend.get_file("ds1", "c1", "a.jpg"), no);
        assert_eq!(backend.save_dataset("ds1"), no);
        assert_eq!(backend.read_dataset("ds1"), no);
        assert_eq!(backend.remove_dataset("ds1"), no);
        assert_eq!(backend.get_pipeline_executions("ds1"), no);
        assert_eq!(backend.get_pipeline_execution("ds1", "run1"), no);
        assert_eq!(backend.store_pipeline_execution(&cfg, "run1"), no);
        assert_eq!(backend.remove_pipeline_execution(&cfg, "run1"), no);
        assert_eq!(backend.store_pipeline_result_files(&cfg, &files, "run1", "tmp"), no);
        assert_eq!(backend.get_pipeline_results("ds1", "run1"), no);
        assert_eq!(backend.get_pipeline_result("ds1", "run1", "a"), no);
        assert_eq!(backend.store_pipeline_fragment_lineage(&cfg, "run1", "f"), no);
        assert_eq!(backend.get_pipeline_fragment_lineages(&cfg, "run1"), no);
        assert_eq!(backend.get_pipeline_fragment_lineage(&cfg, "run1", "f"), no);
        assert_eq!(cfg.save_dataset(), no);
        assert_eq!(cfg.read_dataset(), no);
        assert_eq!(cfg.remove_dataset(), no);
        assert_eq!(cfg.get_file("c1", "a.jpg"), no);
        assert_eq!(cfg.get_pipeline_result("run1", "a"), no);
        assert_eq!(cfg.store_committed_files(&commit, "tmp".to_string()), no);
        assert_eq!(cfg.store_pipeline_result_files(&files, "run1", "tmp"), no);
    }
}

#[test]
fn removing_what_is_not_there_is_no_failure() {
    let remove = StorageStep::RemoveDirAll("./storage/ds1".to_string());
    assert_eq!(remove.settle(IoFailure::NotFound), Ok(()));
    assert_eq!(
        remove.settle(IoFailure::Other("permission denied".to_string())),
        Err(DaemonError::Io("permission denied".to_string()))
    );
}

#[test]
fn every_other_failed_step_ends_the_request() {
    let steps = vec![
        StorageStep::CreateDirAll("d".to_string()),
        StorageStep::WriteFile("f".to_string()),
        StorageStep::ReadFile("f".to_string()),
        StorageStep::ListDir("d".to_string()),
        copy("a", "b"),
    ];
    for step in steps {
        assert_eq!(step.settle(IoFailure::NotFound), Err(DaemonError::NotFound));
        assert_eq!(
            step.settle(IoFailure::Other("disk full".to_string())),
            Err(DaemonError::Io("disk full".to_string()))
        );
    }
}
