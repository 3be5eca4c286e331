//! Finding pipeline runs among the datasets.
//!
//! A listing pairs each dataset with the hashes of its pipeline runs, the
//! datasets in the order in which the daemon knows them.

use crate::dataset::models::DatasetConfig;
use crate::model::Text;
use crate::text::same_text;
use vstd::prelude::*;

verus! {

/// The hashes of the runs of the `i`-th dataset of a listing.
pub open spec fn runs_of(listing: Seq<(DatasetConfig, Vec<String>)>, i: int) -> Seq<Text> {
    listing[i].1.deep_view()
}

/// Whether the `i`-th dataset of a listing has the run `hash`.
pub open spec fn has_run(listing: Seq<(DatasetConfig, Vec<String>)>, i: int, hash: Text) -> bool {
    runs_of(listing, i).contains(hash)
}

/// The runs of all datasets of a listing, dataset after dataset.
pub open spec fn all_runs(listing: Seq<(DatasetConfig, Vec<String>)>) -> Seq<Text>
    decreases listing.len(),
{
    if listing.len() == 0 {
        Seq::empty()
    } else {
        all_runs(listing.drop_last()) + listing.last().1.deep_view()
    }
}

/// Whether `names` holds `name`.
pub fn contains_text(names: &Vec<String>, name: &str) -> (held: bool)
    ensures
        held == names.deep_view().contains(name@),
{
    let mut i: usize = 0;
    while i < names.len()
        invariant
            i <= names.len(),
            forall|j: int| 0 <= j < i ==> names.deep_view()[j] != name@,
        decreases names.len() - i,
    {
        if same_text(names[i].as_str(), name) {
            assert(names.deep_view()[i as int] == name@);
            return true;
        }
        i += 1;
    }
    false
}

/// The first dataset of the listing that has the run `pipeline_hash`.
pub fn find_dataset_conf_for_pipeline_hash(
    listing: &Vec<(DatasetConfig, Vec<String>)>,
    pipeline_hash: &str,
) -> (found: Option<DatasetConfig>)
    ensures
        match found {
            Some(config) => exists|i: int|
                {
                    &&& 0 <= i < listing.len()
                    &&& #[trigger] has_run(listing@, i, pipeline_hash@)
                    &&& config@ == listing[i].0@
                    &&& forall|j: int| 0 <= j < i ==> !has_run(listing@, j, pipeline_hash@)
                },
            None => forall|i: int| 0 <= i < listing.len() ==> !has_run(listing@, i, pipeline_hash@),
        },
{
    let mut i: usize = 0;
    while i < listing.len()
        invariant
            i <= listing.len(),
            forall|j: int| 0 <= j < i ==> !has_run(listing@, j, pipeline_hash@),
        decreases listing.len() - i,
    {
        if contains_text(&listing[i].1, pipeline_hash) {
            assert(has_run(listing@, i as int, pipeline_hash@));
            return Some(listing[i].0.clone());
        }
        i += 1;
    }
    None
}

/// The runs of all datasets of the listing, dataset after dataset.
pub fn find_all_pipelines(listing: &Vec<(DatasetConfig, Vec<String>)>) -> (runs: Vec<String>)
    ensures
        runs.deep_view() == all_runs(listing@),
{
    let mut runs: Vec<String> = Vec::new();
    let mut i: usize = 0;
    assert(listing@.subrange(0, 0) =~= Seq::empty());
    assert(runs.deep_view() =~= Seq::<Text>::empty());
    while i < listing.len()
        invariant
            i <= listing.len(),
            runs.deep_view() == all_runs(listing@.subrange(0, i as int)),
        decreases listing.len() - i,
    {
        let ghost before = runs.deep_view();
        let names = &listing[i].1;
        let mut k: usize = 0;
        while k < names.len()
            invariant
                k <= names.len(),
                runs.deep_view() == before + names.deep_view().subrange(0, k as int),
            decreases names.len() - k,
        {
            let ghost sofar = runs.deep_view();
            runs.push(names[k].clone());
            proof {
                assert(runs.deep_view() =~= sofar.push(names.deep_view()[k as int]));
                assert(before + names.deep_view().subrange(0, k + 1) =~= (before
                    + names.deep_view().subrange(0, k as int)).push(names.deep_view()[k as int]));
            }
            k += 1;
        }
        proof {
            assert(names.deep_view().subrange(0, k as int) =~= names.deep_view());
            let next = listing@.subrange(0, i + 1);
            assert(next.drop_last() =~= listing@.subrange(0, i as int));
            assert(next.last() == listing@[i as int]);
        }
        i += 1;
    }
    assert(listing@.subrange(0, i as int) =~= listing@);
    runs
}

} // verus!
