//! Records of a run (retrieval references, tool invocations, MCP events)
//! belong to a generation run, a workflow run, or both.

use vstd::prelude::*;

use crate::error::{fails_validation, AppError};

verus! {

/// Refuses a record that names neither a generation run nor a workflow run.
pub fn validate_run_scope(generation_run_id: Option<&str>, workflow_run_id: Option<&str>) -> (r: Result<(), AppError>)
    ensures
        r is Ok <==> (generation_run_id is Some || workflow_run_id is Some),
        r is Err ==> fails_validation(
            r,
            "VALIDATION_ERROR"@,
            "at least one of generation_run_id or workflow_run_id is required"@,
        ),
{
    if generation_run_id.is_none() && workflow_run_id.is_none() {
        return Err(
            AppError::validation(
                "VALIDATION_ERROR",
                "at least one of generation_run_id or workflow_run_id is required",
            ),
        );
    }
    Ok(())
}

} // verus!
