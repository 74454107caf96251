//! Reading provider channels and their models from their stored rows: every
//! JSON column must hold a JSON document.

use vstd::prelude::*;

use crate::domain::{ApiChannel, ApiChannelModel};
use crate::error::{fails_validation, AppError};
use crate::support::{json_parse_of, parse_json_text};
use crate::text::concat3;

verus! {

/// Why `text` is not a JSON document, as `serde_json` reports it, or none when it is one.
pub open spec fn json_error_of(text: Seq<char>) -> Option<Seq<char>> {
    match json_parse_of(text) {
        Ok(_) => None,
        Err(e) => Some(e),
    }
}

/// The message of the error for a column that does not hold JSON.
pub open spec fn bad_json_message(field: Seq<char>, err: Seq<char>) -> Seq<char> {
    "failed to parse "@ + field + " as json: "@ + err
}

/// Whether `r` is what checking the JSON column `field` holding `raw` gives.
pub open spec fn is_json_check(r: Result<String, AppError>, raw: Seq<char>, field: Seq<char>) -> bool {
    match json_error_of(raw) {
        None => r matches Ok(s) && s@ == raw,
        Some(e) => fails_validation(r, "VALIDATION_ERROR"@, bad_json_message(field, e)),
    }
}

/// The text of the JSON column `field`, which must hold a JSON document.
pub fn parse_json(raw: &str, field: &str) -> (r: Result<String, AppError>)
    ensures
        is_json_check(r, raw@, field@),
{
    match parse_json_text(raw) {
        Ok(_) => Ok(String::from_str(raw)),
        Err(err) => {
            let mut message = concat3("failed to parse ", field, " as json: ");
            message.append(err.as_str());
            Err(AppError::validation("VALIDATION_ERROR", message.as_str()))
        },
    }
}

/// A provider channel as stored.
#[derive(Debug, Clone, PartialEq, Eq)]
pub struct ApiChannelRow {
    pub id: String,
    pub name: String,
    pub channel_type: String,
    pub base_url: String,
    pub auth_type: String,
    pub api_key: Option<String>,
    pub models_endpoint: Option<String>,
    pub chat_endpoint: Option<String>,
    pub stream_endpoint: Option<String>,
    pub models_mode: String,
    pub enabled: bool,
    pub sort_order: i64,
    pub config_json: String,
    pub created_at: i64,
    pub updated_at: i64,
}

/// A model of a provider channel as stored.
#[derive(Debug, Clone, PartialEq, Eq)]
pub struct ApiChannelModelRow {
    pub id: String,
    pub channel_id: String,
    pub model_id: String,
    pub display_name: Option<String>,
    pub model_type: Option<String>,
    pub context_window: Option<i64>,
    pub max_output_tokens: Option<i64>,
    pub capabilities_json: String,
    pub pricing_json: String,
    pub default_parameters_json: String,
    pub sort_order: i64,
    pub config_json: String,
}

/// A channel read from its row; its settings column must hold JSON.
pub fn map_channel_row(row: ApiChannelRow) -> (r: Result<ApiChannel, AppError>)
    ensures
        match json_error_of(row.config_json@) {
            None => r matches Ok(c) && (c.id == row.id && c.name == row.name && c.channel_type
                == row.channel_type && c.base_url == row.base_url && c.auth_type == row.auth_type
                && c.api_key == row.api_key && c.models_endpoint == row.models_endpoint
                && c.chat_endpoint == row.chat_endpoint && c.stream_endpoint == row.stream_endpoint
                && c.models_mode == row.models_mode && c.enabled == row.enabled && c.sort_order
                == row.sort_order && c.config_json@ == row.config_json@ && c.created_at == row.created_at
                && c.updated_at == row.updated_at),
            Some(e) => fails_validation(r, "VALIDATION_ERROR"@, bad_json_message("api_channels.config_json"@, e)),
        },
{
    let config_json = match parse_json(row.config_json.as_str(), "api_channels.config_json") {
        Ok(j) => j,
        Err(e) => return Err(e),
    };
    Ok(ApiChannel {
        id: row.id,
        name: row.name,
        channel_type: row.channel_type,
        base_url: row.base_url,
        auth_type: row.auth_type,
        api_key: row.api_key,
        models_endpoint: row.models_endpoint,
        chat_endpoint: row.chat_endpoint,
        stream_endpoint: row.stream_endpoint,
        models_mode: row.models_mode,
        enabled: row.enabled,
        sort_order: row.sort_order,
        config_json,
        created_at: row.created_at,
        updated_at: row.updated_at,
    })
}

/// A channel model read from its row; its four JSON columns must hold JSON,
/// checked in the order capabilities, pricing, default parameters, settings.
pub fn map_channel_model_row(row: ApiChannelModelRow) -> (r: Result<ApiChannelModel, AppError>)
    ensures
        match (
            json_error_of(row.capabilities_json@),
            json_error_of(row.pricing_json@),
            json_error_of(row.default_parameters_json@),
            json_error_of(row.config_json@),
        ) {
            (Some(e), _, _, _) => fails_validation(
                r,
                "VALIDATION_ERROR"@,
                bad_json_message("api_channel_models.capabilities_json"@, e),
            ),
            (None, Some(e), _, _) => fails_validation(
                r,
                "VALIDATION_ERROR"@,
                bad_json_message("api_channel_models.pricing_json"@, e),
            ),
            (None, None, Some(e), _) => fails_validation(
                r,
                "VALIDATION_ERROR"@,
                bad_json_message("api_channel_models.default_parameters_json"@, e),
            ),
            (None, None, None, Some(e)) => fails_validation(
                r,
                "VALIDATION_ERROR"@,
                bad_json_message("api_channel_models.config_json"@, e),
            ),
            (None, None, None, None) => r matches Ok(m) && (m.id == row.id && m.channel_id == row.channel_id
                && m.model_id == row.model_id && m.display_name == row.display_name && m.model_type
                == row.model_type && m.context_window == row.context_window && m.max_output_tokens
                == row.max_output_tokens && m.capabilities_json@ == row.capabilities_json@
                && m.pricing_json@ == row.pricing_json@ && m.default_parameters_json@
                == row.default_parameters_json@ && m.sort_order == row.sort_order && m.config_json@
                == row.config_json@),
        },
{
    let capabilities_json = match parse_json(row.capabilities_json.as_str(), "api_channel_models.capabilities_json") {
        Ok(j) => j,
        Err(e) => return Err(e),
    };
    let pricing_json = match parse_json(row.pricing_json.as_str(), "api_channel_models.pricing_json") {
        Ok(j) => j,
        Err(e) => return Err(e),
    };
    let default_parameters_json = match parse_json(
        row.default_parameters_json.as_str(),
        "api_channel_models.default_parameters_json",
    ) {
        Ok(j) => j,
        Err(e) => return Err(e),
    };
    let config_json = match parse_json(row.config_json.as_str(), "api_channel_models.config_json") {
        Ok(j) => j,
        Err(e) => return Err(e),
    };
    Ok(ApiChannelModel {
        id: row.id,
        channel_id: row.channel_id,
        model_id: row.model_id,
        display_name: row.display_name,
        model_type: row.model_type,
        context_window: row.context_window,
        max_output_tokens: row.max_output_tokens,
        capabilities_json,
        pricing_json,
        default_parameters_json,
        sort_order: row.sort_order,
        config_json,
    })
}

} // verus!
