//! Validation and normalisation of model input.

use vstd::prelude::*;

use crate::error::{is_validation, AppError};
use crate::services::agent_service::optional_text;
use crate::services::channel_service::opt_view;
use crate::text::{is_blank, is_blank_seq, trim};

verus! {

/// Rejects a model identifier that is empty once trimmed.
pub fn validate_model_id(model_id: &str) -> (r: Result<(), AppError>)
    ensures
        r is Ok <==> !is_blank_seq(model_id@),
        r matches Err(e) ==> is_validation(e, "VALIDATION_ERROR"@, "model_id cannot be empty"@),
{
    if is_blank(model_id) {
        return Err(AppError::validation("VALIDATION_ERROR", "model_id cannot be empty"));
    }
    Ok(())
}

/// Trims an optional text; a blank one becomes none.
pub fn normalize_optional_text(value: Option<String>) -> (r: Option<String>)
    ensures
        opt_view(r) == optional_text(opt_view(value)),
{
    match value {
        Some(text) => {
            let trimmed = trim(text.as_str());
            if trimmed.as_str().unicode_len() == 0 {
                None
            } else {
                Some(trimmed)
            }
        },
        None => None,
    }
}

} // verus!
