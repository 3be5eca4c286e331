//! The backend that keeps datasets in a directory of the local file system.

pub mod dataset;
pub mod layout;
pub mod pipeline;

use crate::model::Text;
use vstd::prelude::*;

verus! {

/// Local storage. Its one credential is `path`, the directory below which
/// every dataset lives. The path is used as it is written: a dataset named
/// `ds` is kept under `path` followed by `ds`, so `path` ends in a separator.
#[derive(Debug, PartialEq, Eq)]
pub struct Local {
    pub path: String,
}

impl View for Local {
    type V = Text;

    open spec fn view(&self) -> Text {
        self.path@
    }
}

impl Clone for Local {
    fn clone(&self) -> (copy: Self)
        ensures
            copy@ == self@,
    {
        Local { path: self.path.clone() }
    }
}

} // verus!
