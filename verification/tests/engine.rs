use iterum_daemon::model::{
    Branch, Commit, Deprecated, Diff, PipelineResult, VCDataset, VersionTreeNode,
};
use iterum_daemon::version_control::dataset::create_new_dataset;
use iterum_daemon::version_control::error::{VCErrorMessage, VersionControlError};

fn texts(items: &[&str]) -> Vec<String> {
    items.iter().map(|s| s.to_string()).collect()
}

fn commit(hash: &str, parent: Option<&str>, branch: &str, added: &[&str]) -> Commit {
    Commit {
        hash: hash.to_string(),
        parent: parent.map(|p| p.to_string()),
        branch: branch.to_string(),
        name: "a".to_string(),
        description: String::new(),
        files: texts(added),
        diff: Diff { added: texts(added), updated: vec![], removed: vec![] },
        deprecated: Deprecated { value: false, reason: String::new() },
    }
}

fn branch(hash: &str, name: &str, head: &str) -> Branch {
    Branch { hash: hash.to_string(), name: name.to_string(), head: head.to_string() }
}

fn fresh() -> VCDataset {
    VCDataset::with_hashes("R".to_string(), "M".to_string())
}

fn sorted(mut keys: Vec<String>) -> Vec<String> {
    keys.sort();
    keys
}

/// The invariant of a dataset's history, checked on a concrete value.
fn assert_consistent(d: &VCDataset) {
    assert_eq!(sorted(d.commits.keys()), sorted(d.version_tree.tree.keys()));
    assert_eq!(sorted(d.branches.keys()), sorted(d.version_tree.branches.keys()));
    for hash in sorted(d.branches.keys()) {
        let b = d.branches.get(&hash).unwrap();
        assert_eq!(b.hash, hash);
        assert!(d.commits.contains_key(&b.head));
        assert_eq!(d.version_tree.branches.get(&hash), Some(&b.name));
    }
    for hash in sorted(d.commits.keys()) {
        let c = d.commits.get(&hash).unwrap();
        let node = d.version_tree.tree.get(&hash).unwrap();
        assert_eq!(c.hash, hash);
        assert!(d.branches.contains_key(&c.branch));
        assert_eq!(node.parent, c.parent);
        assert_eq!(node.branch, c.branch);
        if let Some(parent) = &c.parent {
            assert!(d.commits.contains_key(parent));
            assert!(d.version_tree.tree.get(parent).unwrap().children.contains(&hash));
        }
        for child in &node.children {
            assert_eq!(d.version_tree.tree.get(child).unwrap().parent, Some(hash.clone()));
        }
        // Walking up from a commit ends at a root within as many steps as
        // there are commits.
        let mut at = hash.clone();
        let mut steps = 0;
        while let Some(parent) = d.version_tree.tree.get(&at).unwrap().parent.clone() {
            at = parent;
            steps += 1;
            assert!(steps <= d.commits.len());
        }
    }
}

#[test]
fn new_dataset_has_one_root_commit_on_master() {
    let d = fresh();
    assert_eq!(d.commits.len(), 1);
    assert_eq!(d.branches.len(), 1);
    assert_eq!(d.version_tree.tree.len(), 1);
    assert_eq!(d.version_tree.branches.len(), 1);
    assert_eq!(d.pipeline_results.len(), 0);
    assert_eq!(
        d.get_commit("R").unwrap(),
        &Commit {
            hash: "R".to_string(),
            parent: None,
            branch: "M".to_string(),
            name: "root".to_string(),
            description: String::new(),
            files: vec![],
            diff: Diff { added: vec![], updated: vec![], removed: vec![] },
            deprecated: Deprecated { value: false, reason: String::new() },
        }
    );
    assert_eq!(
        d.version_tree.tree.get("R"),
        Some(&VersionTreeNode {
            name: "root".to_string(),
            branch: "M".to_string(),
            children: vec![],
            parent: None,
        })
    );
    assert_eq!(d.version_tree.branches.get("M"), Some(&"master".to_string()));
    assert_eq!(d.get_branch("M").unwrap(), &branch("M", "master", "R"));
    assert_consistent(&d);
}

#[test]
fn new_dataset_draws_its_hashes() {
    let d = VCDataset::new();
    assert_eq!(d.commits.len(), 1);
    assert_eq!(d.branches.len(), 1);
    let (root, root_commit) = d.commits.entry_at(0).unwrap();
    let (master, master_branch) = d.branches.entry_at(0).unwrap();
    assert_eq!(root.len(), 32);
    assert_eq!(master.len(), 32);
    assert!(root.chars().all(|c| c.is_ascii_alphanumeric()));
    assert!(master.chars().all(|c| c.is_ascii_alphanumeric()));
    assert_eq!(&root_commit.branch, master);
    assert_eq!(&master_branch.head, root);
    assert_eq!(master_branch.name, "master");
    assert_consistent(&d);
    let other = create_new_dataset();
    assert_ne!(other.commits.entry_at(0).unwrap().0, root);
    assert_consistent(&other);
}

#[test]
fn accepted_commit_becomes_head_and_last_child() {
    let c1 = commit("c1", Some("R"), "M", &["a.jpg"]);
    let d = fresh().add_commit(&c1).unwrap();
    assert_eq!(d.get_branch("M").unwrap().head, "c1");
    assert_eq!(d.version_tree.tree.get("R").unwrap().children, texts(&["c1"]));
    assert_eq!(
        d.version_tree.tree.get("c1"),
        Some(&VersionTreeNode {
            name: String::new(),
            branch: "M".to_string(),
            children: vec![],
            parent: Some("R".to_string()),
        })
    );
    assert_eq!(d.get_commit("c1").unwrap(), &c1);
    assert_eq!(d.commits.len(), 2);
    assert_eq!(d.branches.len(), 1);
    assert_consistent(&d);
}

#[test]
fn children_keep_the_order_of_their_arrival() {
    let d = fresh()
        .add_branch(&branch("b2", "dev", "R"))
        .unwrap()
        .add_branch(&branch("b3", "exp", "R"))
        .unwrap()
        .add_commit(&commit("x", Some("R"), "b3", &[]))
        .unwrap()
        .add_commit(&commit("y", Some("R"), "M", &[]))
        .unwrap()
        .add_commit(&commit("z", Some("R"), "b2", &[]))
        .unwrap();
    assert_eq!(d.version_tree.tree.get("R").unwrap().children, texts(&["x", "y", "z"]));
    assert_eq!(d.get_branch("b3").unwrap().head, "x");
    assert_eq!(d.get_branch("M").unwrap().head, "y");
    assert_eq!(d.get_branch("b2").unwrap().head, "z");
    assert_consistent(&d);
}

#[test]
fn history_is_linear_on_a_branch() {
    let d = fresh()
        .add_commit(&commit("c1", Some("R"), "M", &[]))
        .unwrap()
        .add_commit(&commit("c2", Some("c1"), "M", &[]))
        .unwrap();
    assert_eq!(d.get_branch("M").unwrap().head, "c2");
    assert_eq!(d.version_tree.tree.get("c1").unwrap().children, texts(&["c2"]));
    assert_consistent(&d);
    assert_eq!(
        d.add_commit(&commit("c3", Some("c1"), "M", &[])).unwrap_err(),
        VersionControlError::ParentCommitIsNotBranchHead
    );
}

#[test]
fn repeated_commit_hash_is_refused() {
    let c1 = commit("c1", Some("R"), "M", &["a.jpg"]);
    let d = fresh().add_commit(&c1).unwrap();
    let kept = d.clone();
    assert_eq!(d.add_commit(&c1).unwrap_err(), VersionControlError::CommitHashAlreadyExists);
    assert_eq!(kept.version_tree.tree.len(), 2);
    assert_eq!(kept.version_tree.tree.get("R").unwrap().children, texts(&["c1"]));
    assert_eq!(kept.get_branch("M").unwrap().head, "c1");
}

#[test]
fn commit_without_parent_is_incomplete() {
    let error = fresh().add_commit(&commit("c1", None, "M", &[])).unwrap_err();
    assert_eq!(
        error,
        VersionControlError::CommitIncomplete(VCErrorMessage::new(
            "Commit has no parent. Only the root commit can exist in this state.".to_string()
        ))
    );
}

#[test]
fn commit_with_unknown_parent_is_refused() {
    assert_eq!(
        fresh().add_commit(&commit("c1", Some("nope"), "M", &[])).unwrap_err(),
        VersionControlError::ParentCommitNotFound
    );
}

#[test]
fn commit_on_unknown_branch_is_refused() {
    assert_eq!(
        fresh().add_commit(&commit("c1", Some("R"), "does-not-exist", &[])).unwrap_err(),
        VersionControlError::BranchNotFound
    );
}

#[test]
fn commit_behind_the_head_is_refused() {
    let d = fresh().add_commit(&commit("c1", Some("R"), "M", &[])).unwrap();
    assert_eq!(
        d.add_commit(&commit("c2", Some("R"), "M", &[])).unwrap_err(),
        VersionControlError::ParentCommitIsNotBranchHead
    );
}

#[test]
fn commit_checks_come_in_order() {
    // A taken hash is reported before a missing parent.
    assert_eq!(
        fresh().add_commit(&commit("R", None, "nope", &[])).unwrap_err(),
        VersionControlError::CommitHashAlreadyExists
    );
    // A missing parent is reported before an unknown parent or branch.
    assert!(matches!(
        fresh().add_commit(&commit("c1", None, "nope", &[])).unwrap_err(),
        VersionControlError::CommitIncomplete(_)
    ));
    // An unknown parent is reported before an unknown branch.
    assert_eq!(
        fresh().add_commit(&commit("c1", Some("nope"), "nope", &[])).unwrap_err(),
        VersionControlError::ParentCommitNotFound
    );
}

#[test]
fn branch_rules() {
    let b2 = branch("b2", "dev", "R");
    let d = fresh().add_branch(&b2).unwrap();
    assert_eq!(d.get_branch("b2").unwrap(), &b2);
    assert_eq!(d.version_tree.branches.get("b2"), Some(&"dev".to_string()));
    assert_eq!(d.commits.len(), 1);
    assert_eq!(d.version_tree.tree.len(), 1);
    assert_consistent(&d);
    assert_eq!(
        d.clone().add_branch(&b2).unwrap_err(),
        VersionControlError::BranchHashAlreadyExists
    );
    assert_eq!(
        d.clone().add_branch(&branch("b3", "x", "zzz")).unwrap_err(),
        VersionControlError::BranchHeadDoesNotExist
    );
    // A taken hash is reported before a missing head.
    assert_eq!(
        d.add_branch(&branch("b2", "x", "zzz")).unwrap_err(),
        VersionControlError::BranchHashAlreadyExists
    );
}

#[test]
fn new_branch_starts_on_a_commit_of_another_branch() {
    let d = fresh().add_branch(&branch("b2", "dev", "R")).unwrap();
    let head = d.get_branch("b2").unwrap().head.clone();
    assert_eq!(d.get_commit(&head).unwrap().branch, "M");
    let d = d.add_commit(&commit("c1", Some("R"), "b2", &[])).unwrap();
    let head = d.get_branch("b2").unwrap().head.clone();
    assert_eq!(d.get_commit(&head).unwrap().branch, "b2");
    assert_eq!(d.get_branch("M").unwrap().head, "R");
    assert_consistent(&d);
}

#[test]
fn lookups_name_what_is_missing() {
    let d = fresh();
    assert_eq!(d.get_commit("c9").unwrap_err(), VersionControlError::CommitNotFound);
    assert_eq!(d.get_branch("b9").unwrap_err(), VersionControlError::BranchNotFound);
    assert_eq!(d.get_vtree().tree.len(), 1);
}

#[test]
fn pipeline_results_are_filed_once() {
    let result = PipelineResult {
        hash: "run1".to_string(),
        dataset_hash: "ds".to_string(),
        commit_hash: "R".to_string(),
        files: texts(&["out.csv"]),
    };
    let d = fresh().add_pipeline_result(&result).unwrap();
    assert_eq!(d.pipeline_results.get("run1"), Some(&result));
    assert_eq!(d.commits.len(), 1);
    assert_eq!(
        d.clone().add_pipeline_result(&result).unwrap_err(),
        VersionControlError::PipelineHashAlreadyExists
    );
    let newer = PipelineResult { files: texts(&["out.csv", "log.txt"]), ..result.clone() };
    let d = d.set_pipeline_result(&newer).unwrap();
    assert_eq!(d.pipeline_results.len(), 1);
    assert_eq!(d.pipeline_results.get("run1"), Some(&newer));
    assert_consistent(&d);
}

#[test]
fn a_copy_holds_what_its_source_holds() {
    let d = fresh()
        .add_branch(&branch("b2", "dev", "R"))
        .unwrap()
        .add_commit(&commit("c1", Some("R"), "M", &["a.jpg"]))
        .unwrap();
    let copy = d.clone();
    assert_eq!(sorted(copy.commits.keys()), sorted(d.commits.keys()));
    assert_eq!(sorted(copy.branches.keys()), sorted(d.branches.keys()));
    assert_eq!(copy.get_commit("c1").unwrap(), d.get_commit("c1").unwrap());
    assert_eq!(copy.get_branch("M").unwrap(), d.get_branch("M").unwrap());
    assert_eq!(copy.version_tree.tree.get("R"), d.version_tree.tree.get("R"));
    assert_eq!(copy.version_tree.branches.get("b2"), Some(&"dev".to_string()));
    // The copy is a value of its own.
    let changed = copy.add_commit(&commit("c2", Some("c1"), "M", &[])).unwrap();
    assert_eq!(changed.commits.len(), 3);
    assert_eq!(d.commits.len(), 2);
}

#[test]
fn history_only_grows() {
    let before = fresh()
        .add_branch(&branch("b2", "dev", "R"))
        .unwrap()
        .add_commit(&commit("c1", Some("R"), "M", &["a.jpg"]))
        .unwrap();
    let after = before
        .clone()
        .add_commit(&commit("c2", Some("c1"), "M", &["b.jpg"]))
        .unwrap()
        .add_commit(&commit("c3", Some("R"), "b2", &[]))
        .unwrap()
        .add_branch(&branch("b3", "exp", "c2"))
        .unwrap();
    for hash in before.commits.keys() {
        assert_eq!(after.get_commit(&hash).unwrap(), before.get_commit(&hash).unwrap());
        let old = before.version_tree.tree.get(&hash).unwrap();
        let new = after.version_tree.tree.get(&hash).unwrap();
        assert_eq!(new.parent, old.parent);
        assert_eq!(new.branch, old.branch);
        assert_eq!(new.name, old.name);
        assert!(new.children.starts_with(&old.children));
    }
    for hash in before.branches.keys() {
        let old = before.get_branch(&hash).unwrap();
        let new = after.get_branch(&hash).unwrap();
        assert_eq!(new.hash, old.hash);
        assert_eq!(new.name, old.name);
    }
    assert_eq!(after.version_tree.tree.get("R").unwrap().children, texts(&["c1", "c3"]));
    assert_consistent(&after);
}
