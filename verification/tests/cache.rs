use iterum_daemon::backend::local::Local;
use iterum_daemon::backend::plan::StorageStep;
use iterum_daemon::backend::Backend;
use iterum_daemon::cache::{reset_state, DatasetCache};
use iterum_daemon::dataset::models::DatasetConfig;
use iterum_daemon::error::DaemonError;
use iterum_daemon::model::{Commit, Deprecated, Diff, VCDataset};

fn config(name: &str) -> DatasetConfig {
    DatasetConfig {
        name: name.to_string(),
        backend: Backend::Local(Local { path: "./storage/".to_string() }),
        description: String::new(),
    }
}

fn remote(name: &str) -> DatasetConfig {
    DatasetConfig { name: name.to_string(), backend: Backend::GoogleCloud, description: String::new() }
}

fn history(root: &str) -> VCDataset {
    VCDataset::with_hashes(root.to_string(), "M".to_string())
}

fn child_of(root: &str, hash: &str) -> Commit {
    Commit {
        hash: hash.to_string(),
        parent: Some(root.to_string()),
        branch: "M".to_string(),
        name: String::new(),
        description: String::new(),
        files: vec![],
        diff: Diff { added: vec![], updated: vec![], removed: vec![] },
        deprecated: Deprecated { value: false, reason: String::new() },
    }
}

#[test]
fn empty_cache_knows_no_dataset() {
    let cache = DatasetCache::new();
    assert_eq!(cache.len(), 0);
    assert_eq!(cache.names(), Vec::<String>::new());
    assert_eq!(cache.get("ds1").unwrap_err(), DaemonError::NotFound);
    assert_eq!(cache.snapshot("ds1").unwrap_err(), DaemonError::NotFound);
}

#[test]
fn reader_sees_what_the_last_writer_installed() {
    let mut cache = DatasetCache::new();
    cache.install("ds1".to_string(), history("Ra"));
    cache.install("ds2".to_string(), history("Rb"));
    assert_eq!(cache.len(), 2);
    assert_eq!(cache.names(), vec!["ds1", "ds2"]);
    assert!(cache.get("ds1").unwrap().commits.contains_key("Ra"));
    assert!(cache.get("ds2").unwrap().commits.contains_key("Rb"));

    let next = cache.snapshot("ds1").unwrap().add_commit(&child_of("Ra", "c1")).unwrap();
    // Until the writer installs it, readers see the history as it was.
    assert_eq!(cache.get("ds1").unwrap().commits.len(), 1);
    cache.install("ds1".to_string(), next);
    assert_eq!(cache.len(), 2);
    assert_eq!(cache.get("ds1").unwrap().commits.len(), 2);
    assert_eq!(cache.get("ds1").unwrap().get_branch("M").unwrap().head, "c1");
    assert_eq!(cache.get("ds2").unwrap().commits.len(), 1);
}

#[test]
fn deleted_dataset_leaves_the_cache_before_its_backend() {
    let mut cache = DatasetCache::new();
    cache.install("ds1".to_string(), history("Ra"));
    cache.install("ds2".to_string(), history("Rb"));
    assert_eq!(
        cache.delete_dataset(&config("ds1")),
        Ok(vec![StorageStep::RemoveDirAll("./storage/ds1".to_string())])
    );
    assert_eq!(cache.names(), vec!["ds2"]);
    assert_eq!(cache.get("ds1").unwrap_err(), DaemonError::NotFound);
    assert_eq!(cache.delete_dataset(&config("ds1")), Err(DaemonError::NotFound));
    assert_eq!(cache.len(), 1);
}

#[test]
fn dataset_without_a_removal_plan_stays_loaded() {
    let mut cache = DatasetCache::new();
    cache.install("ds1".to_string(), history("Ra"));
    assert_eq!(cache.delete_dataset(&remote("ds1")), Err(DaemonError::NotImplemented));
    assert_eq!(cache.len(), 1);
    assert_eq!(cache.delete_dataset(&remote("ds9")), Err(DaemonError::NotFound));
}

#[test]
fn reset_removes_every_dataset_in_turn() {
    assert_eq!(reset_state(&vec![]), Ok(vec![]));
    assert_eq!(
        reset_state(&vec![config("ds1"), config("ds2")]),
        Ok(vec![
            StorageStep::RemoveDirAll("./storage/ds1".to_string()),
            StorageStep::RemoveDirAll("./storage/ds2".to_string()),
        ])
    );
    assert_eq!(
        reset_state(&vec![config("ds1"), remote("ds2"), config("ds3")]),
        Err(DaemonError::NotImplemented)
    );
    let mut cache = DatasetCache::new();
    cache.install("ds1".to_string(), history("Ra"));
    cache.clear();
    assert_eq!(cache.len(), 0);
    assert_eq!(cache.get("ds1").unwrap_err(), DaemonError::NotFound);
}
