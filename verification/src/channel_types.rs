//! The provider families a channel can belong to, with the endpoints and the
//! authentication scheme each uses when a channel does not say otherwise.

use vstd::prelude::*;

use crate::error::{AppError, is_validation};
use crate::text::{concat3, str_eq};

verus! {

/// Defaults of one provider family.
#[derive(Debug, Clone, PartialEq, Eq)]
pub struct ChannelTypeConfig {
    /// The family's name.
    pub channel_type: String,
    /// Default authentication scheme.
    pub auth_type: String,
    /// Default endpoint that lists models.
    pub models_endpoint: String,
    /// Default non-streaming chat endpoint.
    pub chat_endpoint: String,
    /// Default streaming chat endpoint.
    pub stream_endpoint: String,
}

/// Whether `t` names a known provider family.
pub open spec fn is_known_channel_type(t: Seq<char>) -> bool {
    t == "openai_compatible"@ || t == "anthropic"@ || t == "gemini"@
}

/// The defaults of the known family `t`: authentication scheme, models,
/// chat and streaming endpoints.
pub open spec fn family_defaults(t: Seq<char>) -> (Seq<char>, Seq<char>, Seq<char>, Seq<char>) {
    if t == "anthropic"@ {
        ("x_api_key"@, "/v1/models"@, "/v1/messages"@, "/v1/messages"@)
    } else if t == "gemini"@ {
        ("x_api_key"@, "/v1beta/models"@, "/v1beta/models"@, "/v1beta/models"@)
    } else {
        ("bearer"@, "/v1/models"@, "/v1/chat/completions"@, "/v1/chat/completions"@)
    }
}

/// Whether `c` holds the defaults of the known family `t`.
pub open spec fn is_config_of(c: ChannelTypeConfig, t: Seq<char>) -> bool {
    let d = family_defaults(t);
    &&& c.channel_type@ == t
    &&& c.auth_type@ == d.0
    &&& c.models_endpoint@ == d.1
    &&& c.chat_endpoint@ == d.2
    &&& c.stream_endpoint@ == d.3
}

/// The message of the error for an unknown family.
pub open spec fn unsupported_type_message(t: Seq<char>) -> Seq<char> {
    "unsupported channel_type '"@ + t + "'"@
}

/// Whether `r` is what looking up the family `t` gives: its defaults when
/// it is known, else a validation error.
pub open spec fn is_config_result(r: Result<ChannelTypeConfig, AppError>, t: Seq<char>) -> bool {
    match r {
        Ok(c) => is_known_channel_type(t) && is_config_of(c, t),
        Err(e) => !is_known_channel_type(t) && is_validation(
            e,
            "VALIDATION_ERROR"@,
            unsupported_type_message(t),
        ),
    }
}

/// The defaults of the family `channel_type`, or a validation error when it is unknown.
pub fn config_for(channel_type: &str) -> (r: Result<ChannelTypeConfig, AppError>)
    ensures
        is_config_result(r, channel_type@),
{
    if str_eq(channel_type, "anthropic") {
        Ok(ChannelTypeConfig {
            channel_type: String::from_str(channel_type),
            auth_type: String::from_str("x_api_key"),
            models_endpoint: String::from_str("/v1/models"),
            chat_endpoint: String::from_str("/v1/messages"),
            stream_endpoint: String::from_str("/v1/messages"),
        })
    } else if str_eq(channel_type, "gemini") {
        Ok(ChannelTypeConfig {
            channel_type: String::from_str(channel_type),
            auth_type: String::from_str("x_api_key"),
            models_endpoint: String::from_str("/v1beta/models"),
            chat_endpoint: String::from_str("/v1beta/models"),
            stream_endpoint: String::from_str("/v1beta/models"),
        })
    } else if str_eq(channel_type, "openai_compatible") {
        Ok(ChannelTypeConfig {
            channel_type: String::from_str(channel_type),
            auth_type: String::from_str("bearer"),
            models_endpoint: String::from_str("/v1/models"),
            chat_endpoint: String::from_str("/v1/chat/completions"),
            stream_endpoint: String::from_str("/v1/chat/completions"),
        })
    } else {
        let message = concat3("unsupported channel_type '", channel_type, "'");
        Err(AppError::validation("VALIDATION_ERROR", message.as_str()))
    }
}

} // verus!
