//! What holds of every dataset that the engine made, and the proofs that each
//! accepted change keeps it so.

use crate::model::{
    BranchView, CommitView, PipelineResultView, Text, VCDatasetView, VersionTreeNodeView,
};
use crate::version_control::rules::{
    add_branch_spec, add_commit_spec, add_pipeline_result_spec, fresh_node, initial_dataset,
    set_pipeline_result_spec, with_child,
};
use vstd::prelude::*;

verus! {

/// Every commit and every branch is filed under its own hash.
pub open spec fn filed_under_own_hash(d: VCDatasetView) -> bool {
    &&& forall|h: Text| #[trigger] d.commits.contains_key(h) ==> d.commits[h].hash == h
    &&& forall|h: Text| #[trigger] d.branches.contains_key(h) ==> d.branches[h].hash == h
}

/// The head of every branch is a commit.
pub open spec fn heads_exist(d: VCDatasetView) -> bool {
    forall|h: Text| #[trigger] d.branches.contains_key(h) ==> d.commits.contains_key(d.branches[h].head)
}

/// The branch of every commit is a branch.
pub open spec fn commit_branches_exist(d: VCDatasetView) -> bool {
    forall|h: Text| #[trigger] d.commits.contains_key(h) ==> d.branches.contains_key(d.commits[h].branch)
}

/// The parent of every commit that has one is a commit.
pub open spec fn parents_exist(d: VCDatasetView) -> bool {
    forall|h: Text| #[trigger]
        d.commits.contains_key(h) && d.commits[h].parent is Some ==> d.commits.contains_key(
            d.commits[h].parent->0,
        )
}

/// The version tree has one node for each commit and no other, and the node
/// repeats the commit's parent and branch.
pub open spec fn tree_mirrors_commits(d: VCDatasetView) -> bool {
    &&& d.version_tree.tree.dom() =~= d.commits.dom()
    &&& forall|h: Text| #[trigger]
        d.commits.contains_key(h) ==> {
            &&& d.version_tree.tree[h].parent == d.commits[h].parent
            &&& d.version_tree.tree[h].branch == d.commits[h].branch
        }
}

/// The version tree names each branch and no other, by the branch's name.
pub open spec fn names_mirror_branches(d: VCDatasetView) -> bool {
    &&& d.version_tree.branches.dom() =~= d.branches.dom()
    &&& forall|h: Text| #[trigger]
        d.branches.contains_key(h) ==> d.version_tree.branches[h] == d.branches[h].name
}

/// Parents and children agree: a node is listed among the children of its
/// parent, and whatever is listed among the children of a node is a node that
/// has it as parent.
pub open spec fn links_agree(tree: Map<Text, VersionTreeNodeView>) -> bool {
    &&& forall|h: Text| #[trigger]
        tree.contains_key(h) && tree[h].parent is Some ==> {
            &&& tree.contains_key(tree[h].parent->0)
            &&& tree[tree[h].parent->0].children.contains(h)
        }
    &&& forall|h: Text, i: int|
        tree.contains_key(h) && 0 <= i < tree[h].children.len() ==> {
            &&& tree.contains_key(#[trigger] tree[h].children[i])
            &&& tree[tree[h].children[i]].parent == Some(h)
        }
}

/// `rank` grows along every edge from a parent to its child.
pub open spec fn ranks(tree: Map<Text, VersionTreeNodeView>, rank: spec_fn(Text) -> nat) -> bool {
    forall|h: Text| #[trigger]
        tree.contains_key(h) && tree[h].parent is Some ==> rank(tree[h].parent->0) < rank(h)
}

/// No node is its own ancestor: the nodes can be numbered so that every
/// parent has a smaller number than its child.
pub open spec fn acyclic(tree: Map<Text, VersionTreeNodeView>) -> bool {
    exists|rank: spec_fn(Text) -> nat| ranks(tree, rank)
}

/// The invariant of a dataset's history.
pub open spec fn consistent(d: VCDatasetView) -> bool {
    &&& filed_under_own_hash(d)
    &&& heads_exist(d)
    &&& commit_branches_exist(d)
    &&& parents_exist(d)
    &&& tree_mirrors_commits(d)
    &&& names_mirror_branches(d)
    &&& links_agree(d.version_tree.tree)
    &&& acyclic(d.version_tree.tree)
}

/// A dataset that was just created is consistent.
pub proof fn lemma_initial_dataset_is_consistent(root: Text, master: Text)
    ensures
        consistent(initial_dataset(root, master)),
{
    let d = initial_dataset(root, master);
    let rank = |h: Text| 0nat;
    assert(ranks(d.version_tree.tree, rank));
}

/// In a consistent dataset every commit that has a parent hangs below it:
/// the parent is a commit, lists the commit among its children, and is the
/// parent of the commit's node.
pub proof fn lemma_commit_hangs_below_its_parent(d: VCDatasetView, h: Text)
    requires
        consistent(d),
        d.commits.contains_key(h),
        d.commits[h].parent is Some,
    ensures
        d.commits.contains_key(d.commits[h].parent->0),
        d.version_tree.tree[d.commits[h].parent->0].children.contains(d.commits[h].hash),
        d.version_tree.tree[d.commits[h].hash].parent == d.commits[h].parent,
{
    assert(d.version_tree.tree.dom().contains(h));
}

/// In a consistent dataset the version tree and the commits have the same
/// hashes, and so have the names of the branches and the branches.
pub proof fn lemma_tree_and_names_cover_the_same_hashes(d: VCDatasetView)
    requires
        consistent(d),
    ensures
        d.version_tree.tree.dom() == d.commits.dom(),
        d.version_tree.branches.dom() == d.branches.dom(),
{
}

/// The head of the branch `h` is a commit of that branch.
pub open spec fn head_on_own_branch(d: VCDatasetView, h: Text) -> bool {
    d.commits[d.branches[h].head].branch == h
}

/// The head of every branch is a commit of that branch. This holds of a new
/// dataset and is kept by every commit. A new branch breaks it for itself
/// until its first commit arrives: it starts at a commit of another branch.
pub open spec fn heads_on_own_branches(d: VCDatasetView) -> bool {
    forall|h: Text| #[trigger] d.branches.contains_key(h) ==> head_on_own_branch(d, h)
}

/// In a dataset that was just created, the head of the one branch is a
/// commit of that branch.
pub proof fn lemma_initial_heads_on_own_branches(root: Text, master: Text)
    ensures
        heads_on_own_branches(initial_dataset(root, master)),
{
}

/// An accepted commit keeps the head of every branch on that branch.
pub proof fn lemma_add_commit_keeps_heads_on_own_branches(d: VCDatasetView, commit: CommitView)
    requires
        consistent(d),
        heads_on_own_branches(d),
    ensures
        add_commit_spec(d, commit) matches Ok(next) ==> heads_on_own_branches(next),
{
    if let Ok(next) = add_commit_spec(d, commit) {
        assert forall|h: Text| #[trigger] next.branches.contains_key(h) implies head_on_own_branch(
            next,
            h,
        ) by {
            assert(d.branches.contains_key(h));
            if h != commit.branch {
                assert(head_on_own_branch(d, h));
                assert(d.commits.contains_key(d.branches[h].head));
            }
        }
    }
}

/// An accepted branch leaves the heads of the other branches where they
/// were; its own head is a commit of another branch.
pub proof fn lemma_add_branch_and_heads(d: VCDatasetView, branch: BranchView)
    requires
        consistent(d),
    ensures
        add_branch_spec(d, branch) matches Ok(next) ==> {
            &&& forall|h: Text| #[trigger]
                d.branches.contains_key(h) ==> (head_on_own_branch(next, h) <==> head_on_own_branch(
                    d,
                    h,
                ))
            &&& !head_on_own_branch(next, branch.hash)
        },
{
    if let Ok(next) = add_branch_spec(d, branch) {
        assert(d.version_tree.tree.dom().contains(branch.head));
        assert(d.commits.contains_key(branch.head));
        assert(d.branches.contains_key(d.commits[branch.head].branch));
    }
}

/// The commit reached from `h` by going to the parent `steps` times.
pub open spec fn ancestor(tree: Map<Text, VersionTreeNodeView>, h: Text, steps: nat) -> Option<Text>
    decreases steps,
{
    if steps == 0 {
        Some(h)
    } else {
        match ancestor(tree, h, (steps - 1) as nat) {
            Some(a) => if tree.contains_key(a) {
                tree[a].parent
            } else {
                None
            },
            None => None,
        }
    }
}

proof fn lemma_ancestors_rank_lower(
    tree: Map<Text, VersionTreeNodeView>,
    rank: spec_fn(Text) -> nat,
    h: Text,
    steps: nat,
)
    requires
        ranks(tree, rank),
    ensures
        ancestor(tree, h, steps) matches Some(a) ==> rank(a) + steps <= rank(h),
    decreases steps,
{
    if steps > 0 {
        lemma_ancestors_rank_lower(tree, rank, h, (steps - 1) as nat);
    }
}

/// In an acyclic version tree, going to the parent one or more times never
/// leads back to where one started.
pub proof fn lemma_no_commit_is_its_own_ancestor(
    tree: Map<Text, VersionTreeNodeView>,
    h: Text,
    steps: nat,
)
    requires
        acyclic(tree),
        steps > 0,
    ensures
        ancestor(tree, h, steps) != Some(h),
{
    let rank = choose|rank: spec_fn(Text) -> nat| ranks(tree, rank);
    lemma_ancestors_rank_lower(tree, rank, h, steps);
}

/// An accepted branch leaves a consistent dataset consistent.
pub proof fn lemma_add_branch_keeps_consistency(d: VCDatasetView, branch: BranchView)
    requires
        consistent(d),
    ensures
        add_branch_spec(d, branch) matches Ok(next) ==> consistent(next),
{
    if let Ok(next) = add_branch_spec(d, branch) {
        assert(next.commits == d.commits);
        assert(next.version_tree.tree == d.version_tree.tree);
        assert(d.version_tree.tree.dom().contains(branch.head));
        assert(d.commits.contains_key(branch.head));
        assert forall|h: Text| #[trigger] next.branches.contains_key(h) implies {
            &&& next.commits.contains_key(next.branches[h].head)
            &&& next.branches[h].hash == h
            &&& next.version_tree.branches[h] == next.branches[h].name
        } by {
            if h != branch.hash {
                assert(d.branches.contains_key(h));
            }
        }
        assert forall|h: Text| #[trigger] next.commits.contains_key(h) implies next.branches.contains_key(
            next.commits[h].branch,
        ) by {
            assert(d.commits.contains_key(h));
        }
    }
}

/// An accepted commit leaves a consistent dataset consistent, and is the head
/// of its branch afterwards.
pub proof fn lemma_add_commit_keeps_consistency(d: VCDatasetView, commit: CommitView)
    requires
        consistent(d),
    ensures
        add_commit_spec(d, commit) matches Ok(next) ==> {
            &&& consistent(next)
            &&& next.branches[commit.branch].head == commit.hash
        },
{
    if let Ok(next) = add_commit_spec(d, commit) {
        let c = commit.hash;
        let p = commit.parent->0;
        let old_tree = d.version_tree.tree;
        let tree = next.version_tree.tree;
        assert(!old_tree.dom().contains(c));
        assert(old_tree.dom().contains(p));
        assert(d.commits.contains_key(p));
        assert(p != c);
        assert(tree[c] == fresh_node(commit));
        assert(tree[p] == with_child(old_tree[p], c));
        assert(tree[p].children[old_tree[p].children.len() as int] == c);

        assert forall|h: Text| #[trigger] next.commits.contains_key(h) implies {
            &&& next.commits[h].hash == h
            &&& next.branches.contains_key(next.commits[h].branch)
            &&& (next.commits[h].parent is Some ==> next.commits.contains_key(
                next.commits[h].parent->0,
            ))
            &&& tree[h].parent == next.commits[h].parent
            &&& tree[h].branch == next.commits[h].branch
        } by {
            if h != c {
                assert(d.commits.contains_key(h));
            }
        }
        assert forall|h: Text| #[trigger] next.branches.contains_key(h) implies {
            &&& next.branches[h].hash == h
            &&& next.commits.contains_key(next.branches[h].head)
            &&& next.version_tree.branches[h] == next.branches[h].name
        } by {
            assert(d.branches.contains_key(h));
            assert(d.branches.contains_key(commit.branch));
        }
        assert(tree.dom() =~= next.commits.dom());

        assert forall|h: Text| #[trigger] tree.contains_key(h) && tree[h].parent is Some implies {
            &&& tree.contains_key(tree[h].parent->0)
            &&& tree[tree[h].parent->0].children.contains(h)
        } by {
            if h != c {
                assert(old_tree.contains_key(h));
                let q = old_tree[h].parent->0;
                assert(old_tree.contains_key(q));
                let i = choose|i: int| 0 <= i < old_tree[q].children.len() && old_tree[q].children[i] == h;
                assert(tree[q].children[i] == h);
            }
        }
        assert forall|h: Text, i: int| tree.contains_key(h) && 0 <= i < tree[h].children.len() implies {
            &&& tree.contains_key(#[trigger] tree[h].children[i])
            &&& tree[tree[h].children[i]].parent == Some(h)
        } by {
            if h == p {
                if i < old_tree[p].children.len() {
                    assert(tree[p].children[i] == old_tree[p].children[i]);
                    assert(old_tree.contains_key(old_tree[p].children[i]));
                }
            } else if h != c {
                assert(old_tree.contains_key(old_tree[h].children[i]));
            }
        }

        let rank = choose|rank: spec_fn(Text) -> nat| ranks(old_tree, rank);
        let next_rank = |h: Text| if h == c { rank(p) + 1 } else { rank(h) };
        assert forall|h: Text| #[trigger] tree.contains_key(h) && tree[h].parent is Some implies next_rank(
            tree[h].parent->0,
        ) < next_rank(h) by {
            if h != c {
                assert(old_tree.contains_key(h));
                assert(old_tree.contains_key(old_tree[h].parent->0));
            }
        }
        assert(ranks(tree, next_rank));
    }
}

/// Recording the result of a pipeline leaves a consistent dataset consistent.
pub proof fn lemma_pipeline_results_keep_consistency(d: VCDatasetView, result: PipelineResultView)
    requires
        consistent(d),
    ensures
        consistent(set_pipeline_result_spec(d, result)),
        add_pipeline_result_spec(d, result) matches Ok(next) ==> consistent(next),
{
}

/// `next` holds all that `d` holds: every commit as it was, every branch
/// under its hash and name, and every node of the version tree with its
/// parent, branch and name, its children followed by those that came later.
pub open spec fn extends(d: VCDatasetView, next: VCDatasetView) -> bool {
    &&& forall|h: Text| #[trigger]
        d.commits.contains_key(h) ==> next.commits.contains_key(h) && next.commits[h]
            == d.commits[h]
    &&& forall|h: Text| #[trigger]
        d.branches.contains_key(h) ==> {
            &&& next.branches.contains_key(h)
            &&& next.branches[h].hash == d.branches[h].hash
            &&& next.branches[h].name == d.branches[h].name
        }
    &&& forall|h: Text| #[trigger]
        d.version_tree.tree.contains_key(h) ==> {
            &&& next.version_tree.tree.contains_key(h)
            &&& next.version_tree.tree[h].parent == d.version_tree.tree[h].parent
            &&& next.version_tree.tree[h].branch == d.version_tree.tree[h].branch
            &&& next.version_tree.tree[h].name == d.version_tree.tree[h].name
            &&& d.version_tree.tree[h].children.is_prefix_of(next.version_tree.tree[h].children)
        }
    &&& forall|h: Text| #[trigger]
        d.pipeline_results.contains_key(h) ==> next.pipeline_results.contains_key(h)
}

/// History only grows: whatever the engine accepts, in a consistent dataset,
/// leaves every commit as it was and drops no branch, no node and no result.
pub proof fn lemma_history_only_grows(
    d: VCDatasetView,
    branch: BranchView,
    commit: CommitView,
    result: PipelineResultView,
)
    requires
        consistent(d),
    ensures
        add_branch_spec(d, branch) matches Ok(next) ==> extends(d, next),
        add_commit_spec(d, commit) matches Ok(next) ==> extends(d, next),
        add_pipeline_result_spec(d, result) matches Ok(next) ==> extends(d, next),
        extends(d, set_pipeline_result_spec(d, result)),
{
    if let Ok(next) = add_commit_spec(d, commit) {
        let c = commit.hash;
        let p = commit.parent->0;
        assert(!d.version_tree.tree.dom().contains(c));
        assert forall|h: Text| #[trigger] d.version_tree.tree.contains_key(h) implies {
            &&& next.version_tree.tree.contains_key(h)
            &&& next.version_tree.tree[h].parent == d.version_tree.tree[h].parent
            &&& next.version_tree.tree[h].branch == d.version_tree.tree[h].branch
            &&& next.version_tree.tree[h].name == d.version_tree.tree[h].name
            &&& d.version_tree.tree[h].children.is_prefix_of(next.version_tree.tree[h].children)
        } by {
            if h == p {
                assert(next.version_tree.tree[p] == with_child(d.version_tree.tree[p], c));
            }
        }
    }
}

} // verus!
