//! Channel management: creation with defaults, listing, lookup, partial
//! update, deletion and the connectivity test.
//!
//! Storage, time, identifiers and the network come in through traits, so
//! each operation is stated for whatever they answer: the functions named
//! `*_outcome` map an answer to the result exactly.

use vstd::prelude::*;

use crate::channel_types::{family_defaults, is_config_of, is_known_channel_type, unsupported_type_message, ChannelTypeConfig};
use crate::error::{
    fails_internal, fails_not_found, fails_unreachable, fails_validation, is_internal, not_found_is,
    AppError, ErrorKind,
};
use crate::models::{
    Channel, ChannelPatch, ChannelTestResult, CreateChannelInput, NewChannel, TestChannelRequest,
    UpdateChannelInput,
};
use crate::repo::channel_repo::ChannelRepo;
use crate::support::{current_timestamp_ms, new_uuid_v7};
use crate::text::{concat3, str_eq, strip_trailing, trim, trim_end_char, trim_seq, is_blank_seq};

pub mod validation;

use self::validation::{
    channel_type_or_default, is_http_url, resolve_config, validate_base_url, validate_name,
};

verus! {

/// A source of the current time.
pub trait Clock {
    /// The current time in milliseconds since the Unix epoch.
    fn now_ms(&self) -> i64;
}

/// A source of fresh record identifiers.
pub trait IdGenerator {
    /// A new identifier.
    fn new_id(&self) -> String;
}

/// Something that can send the connectivity probe of a channel.
pub trait HttpClient {
    /// Sends a GET to the probe's URL with its header; the failure as a message.
    fn get(&self, request: &TestChannelRequest) -> Result<(), String>;
}

/// The system clock.
pub struct SystemClock;

impl Clock for SystemClock {
    fn now_ms(&self) -> i64 {
        current_timestamp_ms()
    }
}

/// Identifiers made of UUID version 7.
pub struct UuidV7Generator;

impl IdGenerator for UuidV7Generator {
    fn new_id(&self) -> (id: String)
        ensures
            id@.len() == 36,
    {
        new_uuid_v7()
    }
}

/// The text of an optional string.
pub open spec fn opt_view(o: Option<String>) -> Option<Seq<char>> {
    match o {
        Some(s) => Some(s@),
        None => None,
    }
}

/// The text of an optional header.
pub open spec fn header_view(h: Option<(String, String)>) -> Option<(Seq<char>, Seq<char>)> {
    match h {
        Some((n, v)) => Some((n@, v@)),
        None => None,
    }
}

/// The given value, or the default `d` when none is given.
pub open spec fn or_default(o: Option<String>, d: Seq<char>) -> Seq<char> {
    match o {
        Some(s) => s@,
        None => d,
    }
}

/// The authentication scheme a channel uses: its own, or its family's default.
pub open spec fn auth_type_of(c: Channel) -> Seq<char> {
    or_default(c.auth_type, family_defaults(c.channel_type@).0)
}

/// The models endpoint a channel uses: its own, or its family's default.
pub open spec fn models_endpoint_of(c: Channel) -> Seq<char> {
    or_default(c.models_endpoint, family_defaults(c.channel_type@).1)
}

/// Whether the probe knows how to send credentials with the scheme `auth`.
pub open spec fn is_supported_auth(auth: Seq<char>) -> bool {
    auth == "bearer"@ || auth == "x_api_key"@ || auth == "none"@
}

/// The header that carries `api_key` under the scheme `auth`.
pub open spec fn auth_header_for(auth: Seq<char>, api_key: Option<Seq<char>>) -> Option<(Seq<char>, Seq<char>)> {
    if auth == "bearer"@ {
        match api_key {
            Some(k) => Some(("Authorization"@, "Bearer "@ + k)),
            None => None,
        }
    } else if auth == "x_api_key"@ {
        match api_key {
            Some(k) => Some(("x-api-key"@, k)),
            None => None,
        }
    } else {
        None
    }
}

/// The message of the error for an unsupported scheme.
pub open spec fn unsupported_auth_message(auth: Seq<char>) -> Seq<char> {
    "unsupported auth_type '"@ + auth + "'"@
}

/// The message of the error for a channel that does not exist.
pub open spec fn channel_not_found_message(id: Seq<char>) -> Seq<char> {
    "channel '"@ + id + "' not found"@
}

/// Whether `r` is the probe of the channel `c`: its URL is the base URL
/// without trailing slashes followed by the models endpoint, with the header
/// that its scheme asks for; or the error for an unknown family or scheme.
pub open spec fn is_test_request_of(r: Result<TestChannelRequest, AppError>, c: Channel) -> bool {
    if !is_known_channel_type(c.channel_type@) {
        fails_validation(r, "VALIDATION_ERROR"@, unsupported_type_message(c.channel_type@))
    } else if !is_supported_auth(auth_type_of(c)) {
        fails_validation(r, "VALIDATION_ERROR"@, unsupported_auth_message(auth_type_of(c)))
    } else {
        r matches Ok(req) && (req.url@ == strip_trailing(c.base_url@, '/') + models_endpoint_of(c)
            && header_view(req.auth_header) == auth_header_for(auth_type_of(c), opt_view(c.api_key)))
    }
}

fn clone_opt(o: &Option<String>) -> (r: Option<String>)
    ensures
        opt_view(r) == opt_view(*o),
{
    match o {
        Some(s) => Some(s.clone()),
        None => None,
    }
}

fn value_or(o: &Option<String>, d: &String) -> (r: String)
    ensures
        r@ == or_default(*o, d@),
{
    match o {
        Some(s) => s.clone(),
        None => d.clone(),
    }
}

/// The connectivity probe of a channel.
pub fn build_test_request(channel: &Channel) -> (r: Result<TestChannelRequest, AppError>)
    ensures
        is_test_request_of(r, *channel),
{
    let config = match resolve_config(Some(channel.channel_type.as_str())) {
        Ok(c) => c,
        Err(e) => return Err(e),
    };
    let endpoint = value_or(&channel.models_endpoint, &config.models_endpoint);
    let auth_type = value_or(&channel.auth_type, &config.auth_type);
    let auth_header = if str_eq(auth_type.as_str(), "bearer") {
        match &channel.api_key {
            Some(key) => {
                let mut value = String::from_str("Bearer ");
                value.append(key.as_str());
                Some((String::from_str("Authorization"), value))
            },
            None => None,
        }
    } else if str_eq(auth_type.as_str(), "x_api_key") {
        match &channel.api_key {
            Some(key) => Some((String::from_str("x-api-key"), key.clone())),
            None => None,
        }
    } else if str_eq(auth_type.as_str(), "none") {
        None
    } else {
        let message = concat3("unsupported auth_type '", auth_type.as_str(), "'");
        return Err(AppError::validation("VALIDATION_ERROR", message.as_str()));
    };
    let mut url = trim_end_char(channel.base_url.as_str(), '/');
    url.append(endpoint.as_str());
    Ok(TestChannelRequest { url, auth_header })
}

/// The record that creating a channel from `input` stores, with the id `id`
/// and the time `ts`: name and base URL trimmed, the family's defaults where
/// the input gives no value, enabled unless the input says otherwise.
pub open spec fn is_new_channel_for(n: NewChannel, input: CreateChannelInput, config: ChannelTypeConfig, id: Seq<char>, ts: i64) -> bool {
    &&& n.id@ == id
    &&& n.name@ == trim_seq(input.name@)
    &&& n.channel_type@ == config.channel_type@
    &&& n.base_url@ == trim_seq(input.base_url@)
    &&& opt_view(n.api_key) == opt_view(input.api_key)
    &&& opt_view(n.auth_type) == Some(or_default(input.auth_type, config.auth_type@))
    &&& opt_view(n.models_endpoint) == Some(or_default(input.models_endpoint, config.models_endpoint@))
    &&& opt_view(n.chat_endpoint) == Some(or_default(input.chat_endpoint, config.chat_endpoint@))
    &&& opt_view(n.stream_endpoint) == Some(or_default(input.stream_endpoint, config.stream_endpoint@))
    &&& n.enabled == match input.enabled {
        Some(b) => b,
        None => true,
    }
    &&& n.created_at == ts
    &&& n.updated_at == ts
}

/// The record to store for a new channel.
pub fn new_channel_record(input: CreateChannelInput, config: &ChannelTypeConfig, id: String, ts: i64) -> (n: NewChannel)
    ensures
        is_new_channel_for(n, input, *config, id@, ts),
{
    let name = trim(input.name.as_str());
    let base_url = trim(input.base_url.as_str());
    let auth_type = Some(value_or(&input.auth_type, &config.auth_type));
    let models_endpoint = Some(value_or(&input.models_endpoint, &config.models_endpoint));
    let chat_endpoint = Some(value_or(&input.chat_endpoint, &config.chat_endpoint));
    let stream_endpoint = Some(value_or(&input.stream_endpoint, &config.stream_endpoint));
    let enabled = match input.enabled {
        Some(b) => b,
        None => true,
    };
    NewChannel {
        id,
        name,
        channel_type: config.channel_type.clone(),
        base_url,
        api_key: input.api_key,
        auth_type,
        models_endpoint,
        chat_endpoint,
        stream_endpoint,
        enabled,
        created_at: ts,
        updated_at: ts,
    }
}

/// Wraps a storage failure as an internal error whose message starts with `context`.
fn storage_error(context: &str, err: &String) -> (e: AppError)
    ensures
        is_internal(e, context@ + err@),
{
    let mut message = String::from_str(context);
    message.append(err.as_str());
    AppError::internal(message.as_str())
}

/// The result of storing a new channel: the stored channel, or an internal error.
pub fn create_outcome(stored: Result<Channel, String>) -> (r: Result<Channel, AppError>)
    ensures
        match stored {
            Ok(c) => r == Ok::<Channel, AppError>(c),
            Err(s) => fails_internal(r, "failed to create channel: "@ + s@),
        },
{
    match stored {
        Ok(c) => Ok(c),
        Err(s) => Err(storage_error("failed to create channel: ", &s)),
    }
}

/// Whether `r` is what creating a channel from `input` gives, where `n` is
/// the record stored, `config` the defaults of its family and `stored`
/// storage's answer: a blank name, then a base URL that is not HTTP(S),
/// then an unknown family are refused, and nothing is stored; otherwise
/// `n` is the new record for `input` with the family's defaults, and `r`
/// is the channel stored or the storage failure.
pub open spec fn channel_created(
    input: CreateChannelInput,
    config: ChannelTypeConfig,
    n: NewChannel,
    stored: Result<Channel, String>,
    r: Result<Channel, AppError>,
) -> bool {
    let t = channel_type_or_default(opt_view(input.channel_type));
    if is_blank_seq(input.name@) {
        fails_validation(r, "NAME_EMPTY"@, "channel name cannot be empty"@)
    } else if !is_http_url(input.base_url@) {
        fails_validation(r, "INVALID_URL"@, "base_url must start with http:// or https://"@)
    } else if !is_known_channel_type(t) {
        fails_validation(r, "VALIDATION_ERROR"@, unsupported_type_message(t))
    } else {
        &&& is_config_of(config, t)
        &&& is_new_channel_for(n, input, config, n.id@, n.created_at)
        &&& match stored {
            Ok(c) => r == Ok::<Channel, AppError>(c),
            Err(s) => fails_internal(r, "failed to create channel: "@ + s@),
        }
    }
}

/// Creates a channel from `input`, with an id from `ids` and the time from `clock`.
/// The name must not be blank and the base URL must be an HTTP(S) URL; the
/// family, `openai_compatible` when not given, must be known.
pub fn create_with<R: ChannelRepo, I: IdGenerator, C: Clock>(
    repo: &R,
    ids: &I,
    clock: &C,
    input: CreateChannelInput,
) -> (r: Result<Channel, AppError>)
    ensures
        r matches Err(e) ==> (e.kind == ErrorKind::Validation || e.kind == ErrorKind::Internal),
        exists|config: ChannelTypeConfig, n: NewChannel, stored: Result<Channel, String>|
            #[trigger] channel_created(input, config, n, stored, r),
{
    let ghost inp = input;
    match validate_name(input.name.as_str()) {
        Ok(()) => {},
        Err(e) => {
            let r = Err(e);
            assert(channel_created(inp, vstd::pervasive::arbitrary(), vstd::pervasive::arbitrary(), vstd::pervasive::arbitrary(), r));
            return r;
        },
    }
    match validate_base_url(input.base_url.as_str()) {
        Ok(()) => {},
        Err(e) => {
            let r = Err(e);
            assert(channel_created(inp, vstd::pervasive::arbitrary(), vstd::pervasive::arbitrary(), vstd::pervasive::arbitrary(), r));
            return r;
        },
    }
    let config = match &input.channel_type {
        Some(t) => resolve_config(Some(t.as_str())),
        None => resolve_config(None),
    };
    let config = match config {
        Ok(c) => c,
        Err(e) => {
            let r = Err(e);
            assert(channel_created(inp, vstd::pervasive::arbitrary(), vstd::pervasive::arbitrary(), vstd::pervasive::arbitrary(), r));
            return r;
        },
    };
    let ts = clock.now_ms();
    let id = ids.new_id();
    let record = new_channel_record(input, &config, id, ts);
    let stored = repo.insert(&record);
    let ghost answer = stored;
    let r = create_outcome(stored);
    assert(channel_created(inp, config, record, answer, r));
    r
}

/// Whether `r` is what storage's answer `listed` gives: the channels, or
/// an internal error.
pub open spec fn channels_listed(listed: Result<Vec<Channel>, String>, r: Result<Vec<Channel>, AppError>) -> bool {
    match listed {
        Ok(v) => r == Ok::<Vec<Channel>, AppError>(v),
        Err(s) => fails_internal(r, "failed to list channels: "@ + s@),
    }
}

/// The result of listing: the channels, or an internal error.
pub fn list_outcome(listed: Result<Vec<Channel>, String>) -> (r: Result<Vec<Channel>, AppError>)
    ensures
        channels_listed(listed, r),
{
    match listed {
        Ok(v) => Ok(v),
        Err(s) => Err(storage_error("failed to list channels: ", &s)),
    }
}

/// Lists the channels, disabled ones only when `include_disabled`.
pub fn list_with<R: ChannelRepo>(repo: &R, include_disabled: bool) -> (r: Result<Vec<Channel>, AppError>)
    ensures
        r matches Err(e) ==> (e.kind == ErrorKind::Internal),
        exists|listed: Result<Vec<Channel>, String>| #[trigger] channels_listed(listed, r),
{
    let listed = repo.list(include_disabled);
    let ghost answer = listed;
    let r = list_outcome(listed);
    assert(channels_listed(answer, r));
    r
}

/// Whether `r` is what storage's answer `found` for the channel `id` gives:
/// the channel, not found, or an internal error.
pub open spec fn channel_found(id: Seq<char>, found: Result<Option<Channel>, String>, r: Result<Channel, AppError>) -> bool {
    match found {
        Ok(Some(c)) => r == Ok::<Channel, AppError>(c),
        Ok(None) => fails_not_found(r, channel_not_found_message(id)),
        Err(s) => fails_internal(r, "failed to get channel: "@ + s@),
    }
}

/// The result of looking up the channel `id`: the channel, not found, or an internal error.
pub fn get_outcome(id: &str, found: Result<Option<Channel>, String>) -> (r: Result<Channel, AppError>)
    ensures
        channel_found(id@, found, r),
{
    match found {
        Ok(Some(c)) => Ok(c),
        Ok(None) => {
            let message = concat3("channel '", id, "' not found");
            Err(AppError::not_found(message.as_str()))
        },
        Err(s) => Err(storage_error("failed to get channel: ", &s)),
    }
}

/// The channel `id`.
pub fn get_with<R: ChannelRepo>(repo: &R, id: &str) -> (r: Result<Channel, AppError>)
    ensures
        r matches Err(e) ==> (e.kind == ErrorKind::NotFound || e.kind == ErrorKind::Internal),
        not_found_is(r, channel_not_found_message(id@)),
        exists|found: Result<Option<Channel>, String>| #[trigger] channel_found(id@, found, r),
{
    let found = repo.get(id);
    let ghost answer = found;
    let r = get_outcome(id, found);
    assert(channel_found(id@, answer, r));
    r
}

/// Whether `p` is the patch that `input` asks for at the time `ts`: name and
/// base URL trimmed, every other field as given.
pub open spec fn is_patch_for(p: ChannelPatch, input: UpdateChannelInput, ts: i64) -> bool {
    &&& opt_view(p.name) == match input.name {
        Some(n) => Some(trim_seq(n@)),
        None => None,
    }
    &&& opt_view(p.base_url) == match input.base_url {
        Some(u) => Some(trim_seq(u@)),
        None => None,
    }
    &&& opt_view(p.channel_type) == opt_view(input.channel_type)
    &&& opt_view(p.api_key) == opt_view(input.api_key)
    &&& opt_view(p.auth_type) == opt_view(input.auth_type)
    &&& opt_view(p.models_endpoint) == opt_view(input.models_endpoint)
    &&& opt_view(p.chat_endpoint) == opt_view(input.chat_endpoint)
    &&& opt_view(p.stream_endpoint) == opt_view(input.stream_endpoint)
    &&& p.enabled == input.enabled
    &&& p.updated_at == ts
}

fn trim_opt(o: Option<String>) -> (r: Option<String>)
    ensures
        opt_view(r) == match o {
            Some(s) => Some(trim_seq(s@)),
            None => None,
        },
{
    match o {
        Some(s) => Some(trim(s.as_str())),
        None => None,
    }
}

/// The patch for an update.
pub fn channel_patch(input: UpdateChannelInput, ts: i64) -> (p: ChannelPatch)
    ensures
        is_patch_for(p, input, ts),
{
    ChannelPatch {
        name: trim_opt(input.name),
        base_url: trim_opt(input.base_url),
        channel_type: input.channel_type,
        api_key: input.api_key,
        auth_type: input.auth_type,
        models_endpoint: input.models_endpoint,
        chat_endpoint: input.chat_endpoint,
        stream_endpoint: input.stream_endpoint,
        enabled: input.enabled,
        updated_at: ts,
    }
}

/// The result of updating the channel `id`: the channel, not found, or an internal error.
pub fn update_outcome(id: &str, updated: Result<Option<Channel>, String>) -> (r: Result<Channel, AppError>)
    ensures
        match updated {
            Ok(Some(c)) => r == Ok::<Channel, AppError>(c),
            Ok(None) => fails_not_found(r, channel_not_found_message(id@)),
            Err(s) => fails_internal(r, "failed to update channel: "@ + s@),
        },
{
    match updated {
        Ok(Some(c)) => Ok(c),
        Ok(None) => {
            let message = concat3("channel '", id, "' not found");
            Err(AppError::not_found(message.as_str()))
        },
        Err(s) => Err(storage_error("failed to update channel: ", &s)),
    }
}

/// Whether `r` is what updating the channel `id` with `input` gives, where
/// `p` is the patch sent and `updated` storage's answer: a blank new name,
/// then a new base URL that is not HTTP(S), then an unknown new family are
/// refused, and nothing is sent; otherwise `p` is the patch of `input` and
/// `r` the channel updated, not found, or the storage failure.
pub open spec fn channel_updated(
    id: Seq<char>,
    input: UpdateChannelInput,
    p: ChannelPatch,
    updated: Result<Option<Channel>, String>,
    r: Result<Channel, AppError>,
) -> bool {
    if input.name matches Some(n) && is_blank_seq(n@) {
        fails_validation(r, "NAME_EMPTY"@, "channel name cannot be empty"@)
    } else if input.base_url matches Some(u) && !is_http_url(u@) {
        fails_validation(r, "INVALID_URL"@, "base_url must start with http:// or https://"@)
    } else if input.channel_type matches Some(t) && !is_known_channel_type(t@) {
        fails_validation(r, "VALIDATION_ERROR"@, unsupported_type_message(input.channel_type->0@))
    } else {
        &&& is_patch_for(p, input, p.updated_at)
        &&& match updated {
            Ok(Some(c)) => r == Ok::<Channel, AppError>(c),
            Ok(None) => fails_not_found(r, channel_not_found_message(id)),
            Err(s) => fails_internal(r, "failed to update channel: "@ + s@),
        }
    }
}

/// Updates the fields of the channel `id` that `input` gives. A given name
/// must not be blank, a given base URL must be an HTTP(S) URL and a given
/// family must be known.
pub fn update_with<R: ChannelRepo, C: Clock>(
    repo: &R,
    clock: &C,
    id: &str,
    input: UpdateChannelInput,
) -> (r: Result<Channel, AppError>)
    ensures
        not_found_is(r, channel_not_found_message(id@)),
        r matches Err(e) ==> (e.kind == ErrorKind::Validation || e.kind == ErrorKind::NotFound
            || e.kind == ErrorKind::Internal),
        exists|p: ChannelPatch, updated: Result<Option<Channel>, String>|
            #[trigger] channel_updated(id@, input, p, updated, r),
{
    let ghost inp = input;
    match &input.name {
        Some(name) => match validate_name(name.as_str()) {
            Ok(()) => {},
            Err(e) => {
                let r = Err(e);
                assert(channel_updated(id@, inp, vstd::pervasive::arbitrary(), vstd::pervasive::arbitrary(), r));
                return r;
            },
        },
        None => {},
    }
    match &input.base_url {
        Some(base_url) => match validate_base_url(base_url.as_str()) {
            Ok(()) => {},
            Err(e) => {
                let r = Err(e);
                assert(channel_updated(id@, inp, vstd::pervasive::arbitrary(), vstd::pervasive::arbitrary(), r));
                return r;
            },
        },
        None => {},
    }
    match &input.channel_type {
        Some(t) => match resolve_config(Some(t.as_str())) {
            Ok(_) => {},
            Err(e) => {
                let r = Err(e);
                assert(channel_updated(id@, inp, vstd::pervasive::arbitrary(), vstd::pervasive::arbitrary(), r));
                return r;
            },
        },
        None => {},
    }
    let patch = channel_patch(input, clock.now_ms());
    let updated = repo.update(id, &patch);
    let ghost answer = updated;
    let r = update_outcome(id, updated);
    assert(channel_updated(id@, inp, patch, answer, r));
    r
}

/// Whether `r` is what storage's answer `deleted` for the channel `id`
/// gives: done, not found, or an internal error.
pub open spec fn channel_deleted(id: Seq<char>, deleted: Result<bool, String>, r: Result<(), AppError>) -> bool {
    match deleted {
        Ok(true) => r is Ok,
        Ok(false) => fails_not_found(r, channel_not_found_message(id)),
        Err(s) => fails_internal(r, "failed to delete channel: "@ + s@),
    }
}

/// The result of deleting the channel `id`: done, not found, or an internal error.
pub fn delete_outcome(id: &str, deleted: Result<bool, String>) -> (r: Result<(), AppError>)
    ensures
        channel_deleted(id@, deleted, r),
{
    match deleted {
        Ok(true) => Ok(()),
        Ok(false) => {
            let message = concat3("channel '", id, "' not found");
            Err(AppError::not_found(message.as_str()))
        },
        Err(s) => Err(storage_error("failed to delete channel: ", &s)),
    }
}

/// Deletes the channel `id`.
pub fn delete_with<R: ChannelRepo>(repo: &R, id: &str) -> (r: Result<(), AppError>)
    ensures
        r matches Err(e) ==> (e.kind == ErrorKind::NotFound || e.kind == ErrorKind::Internal),
        not_found_is(r, channel_not_found_message(id@)),
        exists|deleted: Result<bool, String>| #[trigger] channel_deleted(id@, deleted, r),
{
    let deleted = repo.delete(id);
    let r = delete_outcome(id, deleted);
    assert(channel_deleted(id@, deleted, r));
    r
}

/// Whether `r` is the successful test result.
pub open spec fn is_reachable_result(r: ChannelTestResult) -> bool {
    r.success && opt_view(r.message) == Some("channel is reachable"@)
}

/// The result of a probe: reachable, or unreachable with the failure.
pub fn probe_outcome(probed: Result<(), String>) -> (r: Result<ChannelTestResult, AppError>)
    ensures
        match probed {
            Ok(()) => r matches Ok(t) && (is_reachable_result(t)),
            Err(s) => fails_unreachable(r, "failed to reach channel: "@ + s@),
        },
{
    match probed {
        Ok(()) => Ok(
            ChannelTestResult { success: true, message: Some(String::from_str("channel is reachable")) },
        ),
        Err(s) => {
            let mut message = String::from_str("failed to reach channel: ");
            message.append(s.as_str());
            Err(AppError::channel_unreachable(message.as_str()))
        },
    }
}

/// Whether `r` is what testing the channel `id` gives, given storage's
/// answer `found` to the lookup, the request `built` from the channel and
/// the client's answer `probed`: the lookup's failure or not found; else
/// the error of building the request; else reachable when the probe
/// succeeded, unreachable with its failure otherwise.
pub open spec fn channel_tested(
    id: Seq<char>,
    found: Result<Option<Channel>, String>,
    built: Result<TestChannelRequest, AppError>,
    probed: Result<(), String>,
    r: Result<ChannelTestResult, AppError>,
) -> bool {
    match found {
        Ok(None) => fails_not_found(r, channel_not_found_message(id)),
        Err(s) => fails_internal(r, "failed to get channel: "@ + s@),
        Ok(Some(c)) => {
            &&& is_test_request_of(built, c)
            &&& match built {
                Err(e) => r == Err::<ChannelTestResult, AppError>(e),
                Ok(_) => match probed {
                    Ok(()) => r matches Ok(t) && is_reachable_result(t),
                    Err(s) => fails_unreachable(r, "failed to reach channel: "@ + s@),
                },
            }
        },
    }
}

/// Tests that the channel `id` answers on its models endpoint.
pub fn test_with<R: ChannelRepo, H: HttpClient>(repo: &R, http_client: &H, id: &str) -> (r: Result<
    ChannelTestResult,
    AppError,
>)
    ensures
        r matches Ok(t) ==> is_reachable_result(t),
        not_found_is(r, channel_not_found_message(id@)),
        exists|
            found: Result<Option<Channel>, String>,
            built: Result<TestChannelRequest, AppError>,
            probed: Result<(), String>,
        | #[trigger] channel_tested(id@, found, built, probed, r),
{
    let found = repo.get(id);
    let ghost answer = found;
    let channel = match get_outcome(id, found) {
        Ok(c) => c,
        Err(e) => {
            let r = Err(e);
            assert(channel_tested(id@, answer, vstd::pervasive::arbitrary(), vstd::pervasive::arbitrary(), r));
            return r;
        },
    };
    let built = build_test_request(&channel);
    let ghost built_answer = built;
    let request = match built {
        Ok(req) => req,
        Err(e) => {
            let r = Err(e);
            assert(channel_tested(id@, answer, built_answer, vstd::pervasive::arbitrary(), r));
            return r;
        },
    };
    let probed = http_client.get(&request);
    let ghost probe_answer = probed;
    let r = probe_outcome(probed);
    assert(channel_tested(id@, answer, built_answer, probe_answer, r));
    r
}

} // verus!
