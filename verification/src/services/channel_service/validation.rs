//! Validation and default resolution for channel input.

use vstd::prelude::*;

use crate::channel_types::{config_for, is_config_result, ChannelTypeConfig};
use crate::error::{is_validation, AppError};
use crate::text::{is_blank, is_blank_seq, starts_with};

verus! {

/// Whether a base URL is accepted: it starts with `http://` or `https://`.
pub open spec fn is_http_url(s: Seq<char>) -> bool {
    "http://"@.is_prefix_of(s) || "https://"@.is_prefix_of(s)
}

/// The family a channel without one belongs to.
pub open spec fn default_channel_type() -> Seq<char> {
    "openai_compatible"@
}

/// The family named by an optional channel type.
pub open spec fn channel_type_or_default(t: Option<Seq<char>>) -> Seq<char> {
    match t {
        Some(t) => t,
        None => default_channel_type(),
    }
}

/// Rejects a name that is empty once trimmed.
pub fn validate_name(name: &str) -> (r: Result<(), AppError>)
    ensures
        r is Ok <==> !is_blank_seq(name@),
        r matches Err(e) ==> is_validation(e, "NAME_EMPTY"@, "channel name cannot be empty"@),
{
    if is_blank(name) {
        return Err(AppError::validation("NAME_EMPTY", "channel name cannot be empty"));
    }
    Ok(())
}

/// Rejects a base URL that starts with neither `http://` nor `https://`.
pub fn validate_base_url(base_url: &str) -> (r: Result<(), AppError>)
    ensures
        r is Ok <==> is_http_url(base_url@),
        r matches Err(e) ==> is_validation(
            e,
            "INVALID_URL"@,
            "base_url must start with http:// or https://"@,
        ),
{
    if !(starts_with(base_url, "http://") || starts_with(base_url, "https://")) {
        return Err(
            AppError::validation("INVALID_URL", "base_url must start with http:// or https://"),
        );
    }
    Ok(())
}

/// The defaults of the given family, `openai_compatible` when none is given.
pub fn resolve_config(channel_type: Option<&str>) -> (r: Result<ChannelTypeConfig, AppError>)
    ensures
        is_config_result(
            r,
            channel_type_or_default(
                match channel_type {
                    Some(t) => Some(t@),
                    None => None,
                },
            ),
        ),
{
    match channel_type {
        Some(t) => config_for(t),
        None => config_for("openai_compatible"),
    }
}

} // verus!
