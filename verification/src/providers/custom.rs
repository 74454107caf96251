//! A custom channel, an OpenAI provider whose key, base URL and paths come
//! from the channel's stored row: the key is given in its auth settings or
//! named there and read from the secret store.

use vstd::prelude::*;

use crate::error::{fails_internal, AppError};
use crate::providers::openai::{or_default, OpenAiProvider};
use crate::services::channel_service::opt_view;
use crate::services::keyring::KeyringService;
use crate::support::{json_parse_of, parse_json_text, string_member, string_member_of};

verus! {

/// A custom channel as stored.
#[derive(Debug, Clone, PartialEq, Eq)]
pub struct CustomChannelRow {
    pub id: String,
    pub name: String,
    pub channel_type: String,
    pub base_url: String,
    /// How to authenticate, a JSON document: an `api_key`, or a `key_ref`
    /// naming a stored secret.
    pub auth_json: String,
    /// The paths of the provider, a JSON document: `models` and `chat`.
    pub endpoints_json: String,
}

/// A provider for a custom channel.
#[derive(Debug, Clone, PartialEq, Eq)]
pub struct CustomChannelProvider {
    pub inner: OpenAiProvider,
}

/// The key of a custom channel: the `api_key` of its auth settings, else
/// the stored secret its `key_ref` names, if there is one.
pub open spec fn custom_key(auth: Seq<char>, secrets: Map<Seq<char>, Seq<char>>) -> Option<Seq<char>> {
    match string_member(auth, "api_key"@) {
        Some(k) => Some(k),
        None => match string_member(auth, "key_ref"@) {
            Some(r) => if secrets.contains_key(r) {
                Some(secrets[r])
            } else {
                None
            },
            None => None,
        },
    }
}

impl CustomChannelProvider {
    /// The provider of a stored custom channel, named `custom:` and its id;
    /// settings that are not JSON are refused, the auth settings first.
    pub fn from_row(row: CustomChannelRow, keyring: &KeyringService) -> (r: Result<Self, AppError>)
        requires
            keyring.wf(),
        ensures
            match (json_parse_of(row.auth_json@), json_parse_of(row.endpoints_json@)) {
                (Err(e), _) => fails_internal(r, e),
                (Ok(_), Err(e)) => fails_internal(r, e),
                (Ok(_), Ok(_)) => r matches Ok(p) && p.inner.name@ == "custom:"@ + row.id@ && opt_view(p.inner.api_key)
                    == custom_key(row.auth_json@, keyring@) && p.inner.base_url@ == row.base_url@
                    && p.inner.models_path@ == or_default(string_member(row.endpoints_json@, "models"@), "models"@)
                    && p.inner.chat_path@ == or_default(
                    string_member(row.endpoints_json@, "chat"@),
                    "chat/completions"@,
                ),
            },
    {
        if let Err(e) = parse_json_text(row.auth_json.as_str()) {
            return Err(AppError::internal(e.as_str()));
        }
        if let Err(e) = parse_json_text(row.endpoints_json.as_str()) {
            return Err(AppError::internal(e.as_str()));
        }
        let api_key = match string_member_of(row.auth_json.as_str(), "api_key") {
            Some(k) => Some(k),
            None => match string_member_of(row.auth_json.as_str(), "key_ref") {
                Some(key_ref) => match keyring.get_optional(key_ref.as_str()) {
                    Ok(found) => found,
                    Err(e) => return Err(e),
                },
                None => None,
            },
        };
        let mut name = String::from_str("custom:");
        name.append(row.id.as_str());
        let models = string_member_of(row.endpoints_json.as_str(), "models");
        let chat = string_member_of(row.endpoints_json.as_str(), "chat");
        Ok(CustomChannelProvider {
            inner: OpenAiProvider::new_named(name, api_key, Some(row.base_url), models, chat),
        })
    }
}

} // verus!
