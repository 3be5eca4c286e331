//! The datasets that are loaded, by name.
//!
//! The cache holds the history of every dataset as the last writer left it.
//! A reader takes a copy; a writer makes the next history durable first and
//! installs it afterwards, whole, in place of the one before. Whoever shares
//! the cache between threads keeps it behind one reader-writer lock and holds
//! the lock for writing from before the first storage step of a change until
//! after the history is installed.

use crate::backend::plan::{StorageStep, StorageStepView};
use crate::backend::{plan_outcome, Planned};
use crate::dataset::models::{DatasetConfig, DatasetConfigView};
use crate::error::{DaemonError, Failure};
use crate::model::{Text, VCDataset, VCDatasetView};
use crate::string_map::StringMap;
use crate::version_control::consistency::consistent;
use vstd::prelude::*;

verus! {

/// The histories of the loaded datasets, keyed by the names of the datasets.
#[derive(Debug)]
pub struct DatasetCache {
    datasets: StringMap<VCDataset>,
}

impl View for DatasetCache {
    type V = Map<Text, VCDatasetView>;

    closed spec fn view(&self) -> Map<Text, VCDatasetView> {
        self.datasets@
    }
}

/// Every history in the cache is consistent.
pub open spec fn all_consistent(cache: Map<Text, VCDatasetView>) -> bool {
    forall|name: Text| #[trigger] cache.contains_key(name) ==> consistent(cache[name])
}

/// The plans that remove the datasets of `configs`, one after the other, or
/// the failure of the first dataset whose backend has no plan.
pub open spec fn removal_plans(configs: Seq<DatasetConfigView>) -> Planned
    decreases configs.len(),
{
    if configs.len() == 0 {
        Ok(Seq::empty())
    } else {
        match removal_plans(configs.drop_last()) {
            Err(failure) => Err(failure),
            Ok(plans) => match configs.last().backend.remove_dataset(configs.last().name) {
                Err(failure) => Err(failure),
                Ok(plan) => Ok(plans + plan),
            },
        }
    }
}

impl DatasetCache {
    /// A cache that holds no dataset.
    pub fn new() -> (cache: DatasetCache)
        ensures
            cache@ == Map::<Text, VCDatasetView>::empty(),
    {
        DatasetCache { datasets: StringMap::new() }
    }

    /// The number of datasets that are loaded.
    pub fn len(&self) -> (n: usize)
        ensures
            n == self@.len(),
    {
        self.datasets.len()
    }

    /// The names of the loaded datasets, in the order in which they were
    /// first installed.
    pub fn names(&self) -> (names: Vec<String>)
        ensures
            names.deep_view().no_duplicates(),
            forall|name: Text| names.deep_view().contains(name) <==> self@.contains_key(name),
    {
        let names = self.datasets.keys();
        let n = self.datasets.len();
        proof {
            assert forall|name: Text| names.deep_view().contains(name) <==> self@.contains_key(
                name,
            ) by {
                assert(self@.dom() =~= names.deep_view().to_set());
                assert(names.deep_view().to_set().contains(name) <==> names.deep_view().contains(
                    name,
                ));
            }
        }
        names
    }

    /// The history of the dataset `name`, for reading.
    pub fn get(&self, name: &str) -> (found: Result<&VCDataset, DaemonError>)
        ensures
            match found {
                Ok(dataset) => self@.contains_key(name@) && dataset@ == self@[name@],
                Err(e) => !self@.contains_key(name@) && e@ == Failure::NotFound,
            },
    {
        match self.datasets.get(name) {
            Some(dataset) => Ok(dataset),
            None => Err(DaemonError::NotFound),
        }
    }

    /// A copy of the history of the dataset `name`, to work on.
    pub fn snapshot(&self, name: &str) -> (found: Result<VCDataset, DaemonError>)
        ensures
            match found {
                Ok(dataset) => self@.contains_key(name@) && dataset@ == self@[name@],
                Err(e) => !self@.contains_key(name@) && e@ == Failure::NotFound,
            },
    {
        match self.datasets.get(name) {
            Some(dataset) => Ok(dataset.clone()),
            None => Err(DaemonError::NotFound),
        }
    }

    /// Puts `dataset` in the place of the history of `name`, or loads it
    /// under that name if none was there. No other dataset is touched.
    pub fn install(&mut self, name: String, dataset: VCDataset)
        ensures
            final(self)@ == old(self)@.insert(name@, dataset@),
            all_consistent(old(self)@) && consistent(dataset@) ==> all_consistent(final(self)@),
    {
        self.datasets.insert(name, dataset);
    }

    /// Drops every dataset.
    pub fn clear(&mut self)
        ensures
            final(self)@ == Map::<Text, VCDatasetView>::empty(),
    {
        self.datasets.clear();
    }

    /// Decides on the deletion of the dataset that `config` describes. A
    /// dataset that is not loaded is `NotFound`, and one whose backend has no
    /// plan fails with what the backend says; the cache stays as it is. Else
    /// the dataset leaves the cache at once, and the plan removes it from its
    /// backend.
    pub fn delete_dataset(&mut self, config: &DatasetConfig) -> (result: Result<
        Vec<StorageStep>,
        DaemonError,
    >)
        ensures
            plan_outcome(result) == if old(self)@.contains_key(config@.name) {
                config@.backend.remove_dataset(config@.name)
            } else {
                Err(Failure::NotFound)
            },
            final(self)@ == if result is Ok {
                old(self)@.remove(config@.name)
            } else {
                old(self)@
            },
            all_consistent(old(self)@) ==> all_consistent(final(self)@),
    {
        if !self.datasets.contains_key(config.name.as_str()) {
            return Err(DaemonError::NotFound);
        }
        let plan = config.remove_dataset()?;
        let _ = self.datasets.remove(config.name.as_str());
        Ok(plan)
    }
}

/// Decides on the removal of all state. `configs` are the datasets that the
/// daemon knows. The plan removes them from their backends one after the
/// other; when it went through, the cache and the list of known datasets are
/// emptied. With a dataset whose backend has no plan there is no plan at all.
pub fn reset_state(configs: &Vec<DatasetConfig>) -> (result: Result<Vec<StorageStep>, DaemonError>)
    ensures
        plan_outcome(result) == removal_plans(configs.deep_view()),
{
    let mut plans: Vec<StorageStep> = Vec::new();
    let mut i: usize = 0;
    proof {
        assert(configs.deep_view().subrange(0, 0) =~= Seq::empty());
        assert(plans.deep_view() =~= Seq::<StorageStepView>::empty());
    }
    while i < configs.len()
        invariant
            i <= configs.len(),
            removal_plans(configs.deep_view().subrange(0, i as int)) == Ok::<_, Failure>(
                plans.deep_view(),
            ),
        decreases configs.len() - i,
    {
        proof {
            let next = configs.deep_view().subrange(0, i + 1);
            assert(next.drop_last() =~= configs.deep_view().subrange(0, i as int));
            assert(next.last() == configs[i as int]@);
        }
        match configs[i].remove_dataset() {
            Ok(mut plan) => {
                let ghost sofar = plans.deep_view();
                let ghost added = plan.deep_view();
                plans.append(&mut plan);
                assert(plans.deep_view() =~= sofar + added);
            },
            Err(failure) => {
                proof {
                    lemma_removal_plans_fail_for_good(configs.deep_view(), i + 1);
                }
                return Err(failure);
            },
        }
        i += 1;
    }
    assert(configs.deep_view().subrange(0, i as int) =~= configs.deep_view());
    Ok(plans)
}

/// Once the datasets up to `n` have no plan, no longer list has one: the
/// failure stays the same.
proof fn lemma_removal_plans_fail_for_good(configs: Seq<DatasetConfigView>, n: int)
    requires
        0 <= n <= configs.len(),
        removal_plans(configs.subrange(0, n)) is Err,
    ensures
        removal_plans(configs) == removal_plans(configs.subrange(0, n)),
    decreases configs.len() - n,
{
    if n < configs.len() {
        let longer = configs.subrange(0, n + 1);
        assert(longer.drop_last() =~= configs.subrange(0, n));
        lemma_removal_plans_fail_for_good(configs, n + 1);
    } else {
        assert(configs.subrange(0, n) =~= configs);
    }
}

} // verus!
