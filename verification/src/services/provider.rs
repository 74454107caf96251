//! Provider settings: where a raw request goes, which stored secret holds a
//! provider's key, and what saving a provider's settings keeps.

use vstd::prelude::*;

use crate::error::AppError;
use crate::services::channel_service::opt_view;
use crate::services::keyring::KeyringService;
use crate::text::{is_blank, is_blank_seq, strip_leading, strip_trailing, trim_end_char, trim_start_char};

verus! {

/// What a raw request to a provider brought back.
#[derive(Debug, Clone, PartialEq, Eq)]
pub struct RawProviderResponse {
    pub url: String,
    pub status: u16,
    pub headers: Vec<(String, String)>,
    pub body: String,
}

/// The address of a raw request: the base URL without its trailing
/// slashes, a slash, and the path without its leading slashes.
pub open spec fn raw_url(base_url: Seq<char>, path: Seq<char>) -> Seq<char> {
    strip_trailing(base_url, '/') + "/"@ + strip_leading(path, '/')
}

/// The address of a raw request to a provider.
pub fn raw_request_url(base_url: &str, path: &str) -> (r: String)
    ensures
        r@ == raw_url(base_url@, path@),
{
    let mut url = trim_end_char(base_url, '/');
    url.append("/");
    let rest = trim_start_char(path, '/');
    url.append(rest.as_str());
    url
}

/// The id of the stored secret that holds a provider's key.
pub open spec fn provider_key_id(provider: Seq<char>) -> Seq<char> {
    "provider:"@ + provider
}

/// The saved settings of a provider that matter here.
#[derive(Debug, Clone, PartialEq, Eq)]
pub struct ProviderConfig {
    /// The id of the stored secret with its key, if any.
    pub api_key_id: Option<String>,
    /// Its base URL, if any.
    pub base_url: Option<String>,
}

/// What saving a provider's settings stores.
#[derive(Debug, Clone, PartialEq, Eq)]
pub struct ProviderConfigPlan {
    /// The id of the stored secret with the key, if the provider has one.
    pub api_key_id: Option<String>,
    /// The base URL.
    pub base_url: Option<String>,
}

/// Saves a provider's settings as far as the secrets go: a key that is not
/// blank is stored under the provider's secret id; a blank key removes that
/// secret; no key keeps the secret of the saved settings when the store
/// still holds it. The base URL given wins over the saved one. The
/// provider is registered again when it has a key.
pub fn plan_provider_config(
    keyring: &mut KeyringService,
    provider: &str,
    api_key: Option<&str>,
    base_url: Option<&str>,
    existing: Option<&ProviderConfig>,
) -> (r: Result<ProviderConfigPlan, AppError>)
    requires
        old(keyring).wf(),
    ensures
        final(keyring).wf(),
        r matches Ok(p) ==> match api_key {
            Some(k) => if !is_blank_seq(k@) {
                final(keyring)@ == old(keyring)@.insert(provider_key_id(provider@), k@) && opt_view(p.api_key_id)
                    == Some(provider_key_id(provider@))
            } else {
                final(keyring)@ == old(keyring)@.remove(provider_key_id(provider@)) && p.api_key_id is None
            },
            None => final(keyring)@ == old(keyring)@ && opt_view(p.api_key_id) == match existing {
                Some(c) => match c.api_key_id {
                    Some(id) => if old(keyring)@.contains_key(id@) {
                        Some(id@)
                    } else {
                        None
                    },
                    None => None,
                },
                None => None,
            },
        },
        r matches Ok(p) ==> opt_view(p.base_url) == match base_url {
            Some(b) => Some(b@),
            None => match existing {
                Some(c) => opt_view(c.base_url),
                None => None,
            },
        },
        r is Ok,
{
    let mut key_id = String::from_str("provider:");
    key_id.append(provider);
    let api_key_id = match api_key {
        Some(value) => {
            if !is_blank(value) {
                match keyring.save(key_id.as_str(), value) {
                    Ok(()) => {},
                    Err(e) => return Err(e),
                }
                Some(key_id)
            } else {
                match keyring.delete(key_id.as_str()) {
                    Ok(()) => {},
                    Err(e) => return Err(e),
                }
                None
            }
        },
        None => match existing {
            Some(c) => match &c.api_key_id {
                Some(id) => match keyring.contains(id.as_str()) {
                    Ok(true) => Some(id.clone()),
                    Ok(false) => None,
                    Err(e) => return Err(e),
                },
                None => None,
            },
            None => None,
        },
    };
    let final_base_url = match base_url {
        Some(b) => Some(String::from_str(b)),
        None => match existing {
            Some(c) => c.base_url.clone(),
            None => None,
        },
    };
    Ok(ProviderConfigPlan { api_key_id, base_url: final_base_url })
}

/// A provider's key from the store: none when the saved settings name no
/// secret or the store no longer holds it.
pub fn stored_api_key(keyring: &KeyringService, existing: Option<&ProviderConfig>) -> (r: Result<Option<String>, AppError>)
    requires
        keyring.wf(),
    ensures
        match existing {
            Some(c) => match c.api_key_id {
                Some(id) => if keyring@.contains_key(id@) {
                    r matches Ok(Some(v)) && v@ == keyring@[id@]
                } else {
                    r matches Ok(None)
                },
                None => r matches Ok(None),
            },
            None => r matches Ok(None),
        },
{
    let key_id = match existing {
        Some(c) => match &c.api_key_id {
            Some(id) => id,
            None => return Ok(None),
        },
        None => return Ok(None),
    };
    match keyring.contains(key_id.as_str()) {
        Ok(true) => {},
        Ok(false) => return Ok(None),
        Err(e) => return Err(e),
    }
    match keyring.get(key_id.as_str()) {
        Ok(v) => Ok(Some(v)),
        Err(e) => Err(e),
    }
}

} // verus!
