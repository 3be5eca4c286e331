use iterum_daemon::backend::local::Local;
use iterum_daemon::backend::plan::StorageStep;
use iterum_daemon::backend::Backend;
use iterum_daemon::content::content_type;
use iterum_daemon::dataset::models::DatasetConfig;
use iterum_daemon::error::DaemonError;
use iterum_daemon::hash::create_random_hash;
use iterum_daemon::model::{Branch, Commit, Deprecated, Diff, VCDataset};
use iterum_daemon::pipeline::{contains_text, find_all_pipelines, find_dataset_conf_for_pipeline_hash};
use iterum_daemon::staging::{create_staging_dir, staged_branch, staged_commit, staged_upload};
use iterum_daemon::text::{join2, same_text};
use iterum_daemon::version_control::error::VersionControlError;
use iterum_daemon::version_control::{create_branch, create_commit, create_dataset};

fn config(name: &str) -> DatasetConfig {
    DatasetConfig {
        name: name.to_string(),
        backend: Backend::Local(Local { path: "./storage/".to_string() }),
        description: String::new(),
    }
}

fn remote(name: &str) -> DatasetConfig {
    DatasetConfig { name: name.to_string(), backend: Backend::AmazonS3, description: String::new() }
}

fn commit(hash: &str, parent: &str, branch: &str, added: &[&str]) -> Commit {
    let files: Vec<String> = added.iter().map(|s| s.to_string()).collect();
    Commit {
        hash: hash.to_string(),
        parent: Some(parent.to_string()),
        branch: branch.to_string(),
        name: "a".to_string(),
        description: String::new(),
        files: files.clone(),
        diff: Diff { added: files, updated: vec![], removed: vec![] },
        deprecated: Deprecated { value: false, reason: String::new() },
    }
}

fn save_plan() -> Vec<StorageStep> {
    vec![
        StorageStep::CreateDirAll("./storage/ds1".to_string()),
        StorageStep::CreateDirAll("./storage/ds1/data".to_string()),
        StorageStep::WriteFile("./storage/ds1/dataset.json".to_string()),
    ]
}

fn fresh() -> VCDataset {
    VCDataset::with_hashes("R".to_string(), "M".to_string())
}

#[test]
fn created_dataset_starts_with_a_root_and_is_saved() {
    let change = create_dataset(&config("ds1"), false).unwrap();
    assert_eq!(change.persist, save_plan());
    assert_eq!(change.cleanup, vec![]);
    assert_eq!(change.dataset.version_tree.tree.len(), 1);
    let (root, node) = change.dataset.version_tree.tree.entry_at(0).unwrap();
    assert!(node.children.is_empty());
    assert_eq!(node.parent, None);
    assert_eq!(change.dataset.commits.entry_at(0).unwrap().0, root);
}

#[test]
fn taken_dataset_name_is_refused() {
    assert_eq!(create_dataset(&config("ds1"), true).unwrap_err(), DaemonError::AlreadyExists);
    // A taken name is reported before a backend that is not implemented.
    assert_eq!(create_dataset(&remote("ds1"), true).unwrap_err(), DaemonError::AlreadyExists);
    assert_eq!(create_dataset(&remote("ds1"), false).unwrap_err(), DaemonError::NotImplemented);
}

#[test]
fn commit_with_files_is_stored_saved_and_tidied() {
    let c1 = commit("c1", "R", "M", &["a.jpg"]);
    let dataset = fresh();
    let change = create_commit(&config("ds1"), &dataset, None, &c1, "./.tmp/h/").unwrap();
    let mut plan = vec![StorageStep::CopyFile {
        from: "./.tmp/h//a.jpg".to_string(),
        to: "./storage/ds1/data/a.jpg".to_string(),
    }];
    plan.extend(save_plan());
    assert_eq!(change.persist, plan);
    assert_eq!(change.cleanup, vec![StorageStep::RemoveDirAll("./.tmp/h/".to_string())]);
    assert_eq!(change.dataset.get_commit("c1").unwrap(), &c1);
    assert_eq!(change.dataset.get_branch("M").unwrap().head, "c1");
    assert_eq!(
        change.dataset.version_tree.tree.get("R").unwrap().children,
        vec!["c1".to_string()]
    );
    assert_eq!(
        change.dataset.version_tree.tree.get("c1").unwrap().parent,
        Some("R".to_string())
    );
    // The snapshot that the request started from is as it was.
    assert_eq!(dataset.commits.len(), 1);
    assert_eq!(dataset.get_branch("M").unwrap().head, "R");
    assert_eq!(content_type("a.jpg"), "image/jpeg");
}

#[test]
fn repeated_commit_is_a_conflict_and_changes_nothing() {
    let c1 = commit("c1", "R", "M", &["a.jpg"]);
    let cfg = config("ds1");
    let dataset = create_commit(&cfg, &fresh(), None, &c1, "tmp").unwrap().dataset;
    let error = create_commit(&cfg, &dataset, None, &c1, "tmp").unwrap_err();
    assert_eq!(
        error,
        DaemonError::VersionControlError(VersionControlError::CommitHashAlreadyExists)
    );
    assert_eq!(error.status_code(), 409);
    assert!(error.message().contains("Commit hash already exists"));
    assert_eq!(dataset.version_tree.tree.len(), 2);
}

#[test]
fn commit_on_unknown_branch_is_a_conflict() {
    let error = create_commit(
        &config("ds1"),
        &fresh(),
        None,
        &commit("c2", "R", "does-not-exist", &[]),
        "tmp",
    )
    .unwrap_err();
    assert_eq!(error, DaemonError::VersionControlError(VersionControlError::BranchNotFound));
    assert_eq!(error.status_code(), 409);
}

#[test]
fn branch_that_comes_with_a_commit_is_added_first() {
    let dev = Branch { hash: "b2".to_string(), name: "dev".to_string(), head: "R".to_string() };
    let c1 = commit("c1", "R", "b2", &[]);
    let cfg = config("ds1");
    let change = create_commit(&cfg, &fresh(), Some(&dev), &c1, "tmp").unwrap();
    assert_eq!(change.dataset.get_branch("b2").unwrap().head, "c1");
    assert_eq!(change.dataset.get_branch("M").unwrap().head, "R");
    assert_eq!(change.dataset.version_tree.branches.get("b2"), Some(&"dev".to_string()));
    // Without its branch the same commit is refused.
    assert_eq!(
        create_commit(&cfg, &fresh(), None, &c1, "tmp").unwrap_err(),
        DaemonError::VersionControlError(VersionControlError::BranchNotFound)
    );
    // A refused branch ends the request before the commit is looked at.
    let taken = Branch { hash: "M".to_string(), name: "dev".to_string(), head: "R".to_string() };
    assert_eq!(
        create_commit(&cfg, &fresh(), Some(&taken), &commit("R", "R", "M", &[]), "tmp")
            .unwrap_err(),
        DaemonError::VersionControlError(VersionControlError::BranchHashAlreadyExists)
    );
}

#[test]
fn engine_decides_before_the_backend_is_asked() {
    let c1 = commit("c1", "R", "M", &[]);
    assert_eq!(
        create_commit(&remote("ds1"), &fresh(), None, &c1, "tmp").unwrap_err(),
        DaemonError::NotImplemented
    );
    assert_eq!(
        create_commit(&remote("ds1"), &fresh(), None, &commit("R", "R", "M", &[]), "tmp")
            .unwrap_err(),
        DaemonError::VersionControlError(VersionControlError::CommitHashAlreadyExists)
    );
    let dev = Branch { hash: "b2".to_string(), name: "dev".to_string(), head: "R".to_string() };
    assert_eq!(
        create_branch(&remote("ds1"), &fresh(), &dev).unwrap_err(),
        DaemonError::NotImplemented
    );
}

#[test]
fn created_branch_is_saved() {
    let cfg = config("ds1");
    let dataset = create_commit(&cfg, &fresh(), None, &commit("c1", "R", "M", &[]), "tmp")
        .unwrap()
        .dataset;
    let dev = Branch { hash: "b2".to_string(), name: "dev".to_string(), head: "c1".to_string() };
    let change = create_branch(&cfg, &dataset, &dev).unwrap();
    assert_eq!(change.persist, save_plan());
    assert_eq!(change.cleanup, vec![]);
    assert_eq!(change.dataset.get_branch("b2").unwrap(), &dev);
    assert_eq!(
        create_branch(&cfg, &change.dataset, &dev).unwrap_err(),
        DaemonError::VersionControlError(VersionControlError::BranchHashAlreadyExists)
    );
    let lost = Branch { hash: "b3".to_string(), name: "x".to_string(), head: "zzz".to_string() };
    let error = create_branch(&cfg, &change.dataset, &lost).unwrap_err();
    assert_eq!(
        error,
        DaemonError::VersionControlError(VersionControlError::BranchHeadDoesNotExist)
    );
    assert_eq!(error.status_code(), 409);
}

#[test]
fn jpg_files_are_served_as_images() {
    assert_eq!(content_type("a.jpg"), "image/jpeg");
    assert_eq!(content_type("sub/dir/photo.jpg"), "image/jpeg");
    assert_eq!(content_type("..jpg"), "image/jpeg");
    assert_eq!(content_type("ä.jpg"), "image/jpeg");
}

#[test]
fn other_files_are_served_as_bytes() {
    for name in ["a.png", "a.jpeg", "a.JPG", "jpg", ".jpg", "dir/.jpg", "a.jpg.txt", "", "a.jp"] {
        assert_eq!(content_type(name), "application/octet-stream");
    }
}

#[test]
fn staging_directory_is_fresh_for_each_request() {
    let dir = create_staging_dir();
    assert!(dir.starts_with("./.tmp/"));
    assert!(dir.ends_with('/'));
    let token = &dir["./.tmp/".len()..dir.len() - 1];
    assert_eq!(token.len(), 32);
    assert!(token.chars().all(|c| c.is_ascii_alphanumeric()));
    assert_ne!(create_staging_dir(), dir);
}

#[test]
fn uploads_wait_under_their_names() {
    assert_eq!(staged_upload("./.tmp/h/", "a.jpg"), "./.tmp/h/a.jpg");
    assert_eq!(staged_upload("./.tmp/h/", "sub/b.jpg"), "./.tmp/h/sub/b.jpg");
    assert_eq!(staged_commit("./.tmp/h/"), "./.tmp/h//commit");
    assert_eq!(staged_branch("./.tmp/h/"), "./.tmp/h//branch.json");
}

#[test]
fn random_hash_has_thirty_two_letters_and_digits() {
    let hash = create_random_hash();
    assert_eq!(hash.chars().count(), 32);
    assert!(hash.chars().all(|c| c.is_ascii_alphanumeric()));
    assert_ne!(create_random_hash(), hash);
}

#[test]
fn run_is_found_in_the_first_dataset_that_has_it() {
    let listing = vec![
        (config("ds1"), vec!["run1".to_string(), "run2".to_string()]),
        (config("ds2"), vec![]),
        (config("ds3"), vec!["run3".to_string(), "run2".to_string()]),
    ];
    assert_eq!(find_dataset_conf_for_pipeline_hash(&listing, "run3"), Some(config("ds3")));
    assert_eq!(find_dataset_conf_for_pipeline_hash(&listing, "run2"), Some(config("ds1")));
    assert_eq!(find_dataset_conf_for_pipeline_hash(&listing, "run9"), None);
    assert_eq!(find_dataset_conf_for_pipeline_hash(&vec![], "run1"), None);
}

#[test]
fn all_runs_are_listed_dataset_after_dataset() {
    let listing = vec![
        (config("ds1"), vec!["run1".to_string(), "run2".to_string()]),
        (config("ds2"), vec![]),
        (config("ds3"), vec!["run3".to_string(), "run2".to_string()]),
    ];
    assert_eq!(find_all_pipelines(&listing), vec!["run1", "run2", "run3", "run2"]);
    assert_eq!(find_all_pipelines(&vec![]), Vec::<String>::new());
}

#[test]
fn texts_are_compared_and_joined_by_their_characters() {
    assert!(same_text("", ""));
    assert!(same_text("añb", "añb"));
    assert!(!same_text("a", "b"));
    assert!(!same_text("a", "ab"));
    assert!(!same_text("ab", "a"));
    assert_eq!(join2("ab", "cd"), "abcd");
    assert_eq!(join2("", ""), "");
    assert!(contains_text(&vec!["x".to_string(), "y".to_string()], "y"));
    assert!(!contains_text(&vec!["x".to_string(), "y".to_string()], "z"));
    assert!(!contains_text(&vec![], ""));
}
