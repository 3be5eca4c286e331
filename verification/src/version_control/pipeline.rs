//! Recording what pipelines produced.

use crate::model::{PipelineResult, VCDataset};
use crate::version_control::consistency::consistent;
use crate::version_control::error::VersionControlError;
use crate::version_control::rules::{add_pipeline_result_spec, outcome, set_pipeline_result_spec};
use vstd::prelude::*;

verus! {

impl VCDataset {
    /// Records `pipeline_result` under its hash, which must be new.
    pub fn add_pipeline_result(self, pipeline_result: &PipelineResult) -> (result: Result<
        VCDataset,
        VersionControlError,
    >)
        ensures
            outcome(result) == add_pipeline_result_spec(self@, pipeline_result@),
            consistent(self@) && result is Ok ==> consistent(result->Ok_0@),
    {
        if self.pipeline_results.contains_key(pipeline_result.hash.as_str()) {
            return Err(VersionControlError::PipelineHashAlreadyExists);
        }
        self.set_pipeline_result(pipeline_result)
    }

    /// Records `pipeline_result` under its hash, in place of an earlier
    /// result with that hash if there is one. This never fails.
    pub fn set_pipeline_result(self, pipeline_result: &PipelineResult) -> (result: Result<
        VCDataset,
        VersionControlError,
    >)
        ensures
            outcome(result) == Ok::<_, crate::version_control::error::Refusal>(
                set_pipeline_result_spec(self@, pipeline_result@),
            ),
            consistent(self@) ==> consistent(result->Ok_0@),
    {
        let mut d = self;
        d.pipeline_results.insert(pipeline_result.hash.clone(), pipeline_result.clone());
        Ok(d)
    }
}

} // verus!
