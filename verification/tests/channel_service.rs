use std::cell::RefCell;
use std::collections::VecDeque;

use buyu::error::{AppError, ErrorKind};
use buyu::models::{
    Channel, ChannelPatch, ChannelTestResult, CreateChannelInput, NewChannel, TestChannelRequest,
    UpdateChannelInput,
};
use buyu::repo::channel_repo::ChannelRepo;
use buyu::services::channel_service::{
    build_test_request, create_with, delete_with, get_with, list_with, test_with, update_with,
    Clock, HttpClient, IdGenerator, UuidV7Generator,
};

#[derive(Default)]
struct FakeRepo {
    channels: RefCell<Vec<Channel>>,
}

impl FakeRepo {
    fn with_channel(channel: Channel) -> Self {
        Self { channels: RefCell::new(vec![channel]) }
    }
}

impl ChannelRepo for FakeRepo {
    fn insert(&self, new_channel: &NewChannel) -> Result<Channel, String> {
        let channel = Channel {
            id: new_channel.id.clone(),
            name: new_channel.name.clone(),
            channel_type: new_channel.channel_type.clone(),
            base_url: new_channel.base_url.clone(),
            api_key: new_channel.api_key.clone(),
            auth_type: new_channel.auth_type.clone(),
            models_endpoint: new_channel.models_endpoint.clone(),
            chat_endpoint: new_channel.chat_endpoint.clone(),
            stream_endpoint: new_channel.stream_endpoint.clone(),
            enabled: new_channel.enabled,
            created_at: new_channel.created_at,
            updated_at: new_channel.updated_at,
        };
        self.channels.borrow_mut().push(channel.clone());
        Ok(channel)
    }

    fn list(&self, include_disabled: bool) -> Result<Vec<Channel>, String> {
        Ok(self
            .channels
            .borrow()
            .iter()
            .filter(|channel| include_disabled || channel.enabled)
            .cloned()
            .collect())
    }

    fn get(&self, id: &str) -> Result<Option<Channel>, String> {
        Ok(self.channels.borrow().iter().find(|channel| channel.id == id).cloned())
    }

    fn update(&self, id: &str, patch: &ChannelPatch) -> Result<Option<Channel>, String> {
        let mut channels = self.channels.borrow_mut();
        let Some(channel) = channels.iter_mut().find(|channel| channel.id == id) else {
            return Ok(None);
        };
        if let Some(name) = &patch.name {
            channel.name = name.clone();
        }
        if let Some(base_url) = &patch.base_url {
            channel.base_url = base_url.clone();
        }
        if let Some(channel_type) = &patch.channel_type {
            channel.channel_type = channel_type.clone();
        }
        if let Some(api_key) = &patch.api_key {
            channel.api_key = Some(api_key.clone());
        }
        if let Some(auth_type) = &patch.auth_type {
            channel.auth_type = Some(auth_type.clone());
        }
        if let Some(models_endpoint) = &patch.models_endpoint {
            channel.models_endpoint = Some(models_endpoint.clone());
        }
        if let Some(chat_endpoint) = &patch.chat_endpoint {
            channel.chat_endpoint = Some(chat_endpoint.clone());
        }
        if let Some(stream_endpoint) = &patch.stream_endpoint {
            channel.stream_endpoint = Some(stream_endpoint.clone());
        }
        if let Some(enabled) = patch.enabled {
            channel.enabled = enabled;
        }
        channel.updated_at = patch.updated_at;
        Ok(Some(channel.clone()))
    }

    fn delete(&self, id: &str) -> Result<bool, String> {
        let mut channels = self.channels.borrow_mut();
        let before = channels.len();
        channels.retain(|channel| channel.id != id);
        Ok(channels.len() != before)
    }
}

struct FixedClock(i64);

impl Clock for FixedClock {
    fn now_ms(&self) -> i64 {
        self.0
    }
}

struct FixedIds;

impl IdGenerator for FixedIds {
    fn new_id(&self) -> String {
        "0195d4f5-3af3-7c13-8d69-f4f4bb73f001".to_string()
    }
}

#[derive(Default)]
struct FakeHttpClient {
    responses: RefCell<VecDeque<Result<(), String>>>,
}

impl HttpClient for FakeHttpClient {
    fn get(&self, _request: &TestChannelRequest) -> Result<(), String> {
        self.responses.borrow_mut().pop_front().unwrap_or(Ok(()))
    }
}

struct FailingRepo;

impl ChannelRepo for FailingRepo {
    fn insert(&self, _new_channel: &NewChannel) -> Result<Channel, String> {
        Err("disk full".to_string())
    }
    fn list(&self, _include_disabled: bool) -> Result<Vec<Channel>, String> {
        Err("db locked".to_string())
    }
    fn get(&self, _id: &str) -> Result<Option<Channel>, String> {
        Err("db locked".to_string())
    }
    fn update(&self, _id: &str, _patch: &ChannelPatch) -> Result<Option<Channel>, String> {
        Err("db locked".to_string())
    }
    fn delete(&self, _id: &str) -> Result<bool, String> {
        Err("db locked".to_string())
    }
}

fn sample_channel() -> Channel {
    Channel {
        id: "0195d4f5-3af3-7c13-8d69-f4f4bb73f0aa".to_string(),
        name: "My OpenAI".to_string(),
        channel_type: "openai_compatible".to_string(),
        base_url: "https://api.openai.com/".to_string(),
        api_key: Some("sk-xxx".to_string()),
        auth_type: None,
        models_endpoint: None,
        chat_endpoint: None,
        stream_endpoint: None,
        enabled: true,
        created_at: 10,
        updated_at: 10,
    }
}

fn create_input(name: &str, base_url: &str) -> CreateChannelInput {
    CreateChannelInput {
        name: name.to_string(),
        base_url: base_url.to_string(),
        channel_type: None,
        api_key: None,
        auth_type: None,
        models_endpoint: None,
        chat_endpoint: None,
        stream_endpoint: None,
        enabled: None,
    }
}

#[test]
fn channel_service_create_channel_sets_defaults_and_uuid_v7() {
    let repo = FakeRepo::default();
    let channel = create_with(
        &repo,
        &FixedIds,
        &FixedClock(123),
        CreateChannelInput {
            name: "My OpenAI".to_string(),
            base_url: "https://api.openai.com".to_string(),
            channel_type: None,
            api_key: Some("sk-xxx".to_string()),
            auth_type: None,
            models_endpoint: None,
            chat_endpoint: None,
            stream_endpoint: None,
            enabled: None,
        },
    )
    .unwrap();

    assert_eq!(channel.id, "0195d4f5-3af3-7c13-8d69-f4f4bb73f001");
    assert_eq!(channel.channel_type, "openai_compatible");
    assert_eq!(channel.auth_type.as_deref(), Some("bearer"));
    assert_eq!(channel.models_endpoint.as_deref(), Some("/v1/models"));
    assert!(channel.enabled);
}

#[test]
fn channel_service_create_channel_with_invalid_url_returns_invalid_url_error() {
    let repo = FakeRepo::default();
    let err = create_with(&repo, &FixedIds, &FixedClock(123), create_input("Bad", "api.openai.com"))
        .unwrap_err();

    assert_eq!(
        err,
        AppError::validation("INVALID_URL", "base_url must start with http:// or https://")
    );
}

#[test]
fn channel_service_list_channels_uses_include_disabled_flag() {
    let mut disabled = sample_channel();
    disabled.enabled = false;
    let repo = FakeRepo { channels: RefCell::new(vec![sample_channel(), disabled]) };

    assert_eq!(list_with(&repo, false).unwrap().len(), 1);
    assert_eq!(list_with(&repo, true).unwrap().len(), 2);
}

#[test]
fn channel_service_update_channel_modifies_only_supplied_fields() {
    let repo = FakeRepo::with_channel(sample_channel());
    let updated = update_with(
        &repo,
        &FixedClock(200),
        "0195d4f5-3af3-7c13-8d69-f4f4bb73f0aa",
        UpdateChannelInput { name: Some("OpenAI Pro".to_string()), ..UpdateChannelInput::default() },
    )
    .unwrap();

    assert_eq!(updated.name, "OpenAI Pro");
    assert_eq!(updated.base_url, "https://api.openai.com/");
    assert_eq!(updated.updated_at, 200);
}

#[test]
fn channel_service_get_missing_channel_returns_not_found() {
    let err = get_with(&FakeRepo::default(), "missing").unwrap_err();
    assert_eq!(err, AppError::not_found("channel 'missing' not found"));
}

#[test]
fn channel_service_delete_missing_channel_returns_not_found() {
    let err = delete_with(&FakeRepo::default(), "missing").unwrap_err();
    assert_eq!(err, AppError::not_found("channel 'missing' not found"));
}

#[test]
fn build_test_request_uses_default_models_endpoint_and_auth_header() {
    let request = build_test_request(&sample_channel()).unwrap();
    assert_eq!(request.url, "https://api.openai.com/v1/models");
    assert_eq!(
        request.auth_header,
        Some(("Authorization".to_string(), "Bearer sk-xxx".to_string()))
    );
}

#[test]
fn test_channel_returns_success_when_http_client_succeeds() {
    let repo = FakeRepo::with_channel(sample_channel());
    let http_client = FakeHttpClient::default();

    let result = test_with(&repo, &http_client, "0195d4f5-3af3-7c13-8d69-f4f4bb73f0aa").unwrap();

    assert_eq!(
        result,
        ChannelTestResult { success: true, message: Some("channel is reachable".to_string()) }
    );
}

#[test]
fn test_channel_maps_network_failures_to_channel_unreachable() {
    let repo = FakeRepo::with_channel(sample_channel());
    let http_client = FakeHttpClient {
        responses: RefCell::new(VecDeque::from([Err("network down".to_string())])),
    };

    let err = test_with(&repo, &http_client, "0195d4f5-3af3-7c13-8d69-f4f4bb73f0aa").unwrap_err();

    assert_eq!(err, AppError::channel_unreachable("failed to reach channel: network down"));
}

#[test]
fn create_channel_with_blank_name_is_rejected() {
    let err = create_with(&FakeRepo::default(), &FixedIds, &FixedClock(1), create_input(" \t ", "https://x"))
        .unwrap_err();
    assert_eq!(err, AppError::validation("NAME_EMPTY", "channel name cannot be empty"));
}

#[test]
fn create_channel_with_unknown_type_is_rejected() {
    let mut input = create_input("A", "https://x");
    input.channel_type = Some("smoke_signals".to_string());
    let err = create_with(&FakeRepo::default(), &FixedIds, &FixedClock(1), input).unwrap_err();
    assert_eq!(
        err,
        AppError::validation("VALIDATION_ERROR", "unsupported channel_type 'smoke_signals'")
    );
}

#[test]
fn create_channel_trims_and_keeps_given_values() {
    let repo = FakeRepo::default();
    let mut input = create_input("  Anthropic Main \n", "https://api.anthropic.com  ");
    input.channel_type = Some("anthropic".to_string());
    input.enabled = Some(false);
    input.chat_endpoint = Some("/custom".to_string());
    let channel = create_with(&repo, &FixedIds, &FixedClock(77), input).unwrap();
    assert_eq!(channel.name, "Anthropic Main");
    assert_eq!(channel.base_url, "https://api.anthropic.com");
    assert_eq!(channel.auth_type.as_deref(), Some("x_api_key"));
    assert_eq!(channel.chat_endpoint.as_deref(), Some("/custom"));
    assert_eq!(channel.stream_endpoint.as_deref(), Some("/v1/messages"));
    assert!(!channel.enabled);
    assert_eq!(channel.created_at, 77);
    assert_eq!(channel.updated_at, 77);
}

#[test]
fn storage_failures_become_internal_errors() {
    let err = create_with(&FailingRepo, &FixedIds, &FixedClock(1), create_input("A", "http://x"))
        .unwrap_err();
    assert_eq!(err, AppError::internal("failed to create channel: disk full"));
    assert_eq!(list_with(&FailingRepo, true).unwrap_err(), AppError::internal("failed to list channels: db locked"));
    assert_eq!(get_with(&FailingRepo, "a").unwrap_err(), AppError::internal("failed to get channel: db locked"));
    assert_eq!(delete_with(&FailingRepo, "a").unwrap_err(), AppError::internal("failed to delete channel: db locked"));
    assert_eq!(err.kind, ErrorKind::Internal);
}

#[test]
fn update_rejects_bad_url_and_missing_channel() {
    let repo = FakeRepo::with_channel(sample_channel());
    let err = update_with(
        &repo,
        &FixedClock(5),
        "0195d4f5-3af3-7c13-8d69-f4f4bb73f0aa",
        UpdateChannelInput { base_url: Some("ftp://x".to_string()), ..UpdateChannelInput::default() },
    )
    .unwrap_err();
    assert_eq!(err, AppError::validation("INVALID_URL", "base_url must start with http:// or https://"));
    let err = update_with(&repo, &FixedClock(5), "nope", UpdateChannelInput::default()).unwrap_err();
    assert_eq!(err, AppError::not_found("channel 'nope' not found"));
}

#[test]
fn build_test_request_handles_each_auth_scheme() {
    let mut channel = sample_channel();
    channel.auth_type = Some("x_api_key".to_string());
    channel.models_endpoint = Some("/models".to_string());
    channel.base_url = "https://h.example//".to_string();
    let request = build_test_request(&channel).unwrap();
    assert_eq!(request.url, "https://h.example/models");
    assert_eq!(request.auth_header, Some(("x-api-key".to_string(), "sk-xxx".to_string())));

    channel.auth_type = Some("none".to_string());
    assert_eq!(build_test_request(&channel).unwrap().auth_header, None);

    channel.auth_type = Some("basic".to_string());
    assert_eq!(
        build_test_request(&channel).unwrap_err(),
        AppError::validation("VALIDATION_ERROR", "unsupported auth_type 'basic'")
    );

    channel.auth_type = None;
    channel.api_key = None;
    assert_eq!(build_test_request(&channel).unwrap().auth_header, None);
}

#[test]
fn tests_create_channel_sets_defaults_and_uuid_v7() {
    let repo = FakeRepo::default();
    let channel = create_with(
        &repo,
        &UuidV7Generator,
        &FixedClock(123),
        CreateChannelInput {
            name: "My OpenAI".to_string(),
            base_url: "https://api.openai.com".to_string(),
            channel_type: None,
            api_key: Some("sk-xxx".to_string()),
            auth_type: None,
            models_endpoint: None,
            chat_endpoint: None,
            stream_endpoint: None,
            enabled: None,
        },
    )
    .unwrap();

    assert_eq!(channel.channel_type, "openai_compatible");
    assert_eq!(channel.auth_type.as_deref(), Some("bearer"));
    assert_eq!(channel.models_endpoint.as_deref(), Some("/v1/models"));
    assert!(channel.enabled);
    assert_eq!(channel.id.len(), 36);
}

#[test]
fn tests_create_channel_with_invalid_url_returns_invalid_url_error() {
    let repo = FakeRepo::default();
    let err = create_with(&repo, &UuidV7Generator, &FixedClock(123), create_input("Bad", "api.openai.com"))
        .unwrap_err();

    assert_eq!(
        err,
        AppError::validation("INVALID_URL", "base_url must start with http:// or https://")
    );
}

#[test]
fn tests_list_channels_uses_include_disabled_flag() {
    let mut disabled = sample_channel();
    disabled.enabled = false;
    let repo = FakeRepo { channels: RefCell::new(vec![sample_channel(), disabled]) };

    assert_eq!(list_with(&repo, false).unwrap().len(), 1);
    assert_eq!(list_with(&repo, true).unwrap().len(), 2);
}

#[test]
fn tests_update_channel_modifies_only_supplied_fields() {
    let repo = FakeRepo::with_channel(sample_channel());
    let updated = update_with(
        &repo,
        &FixedClock(200),
        "0195d4f5-3af3-7c13-8d69-f4f4bb73f0aa",
        UpdateChannelInput { name: Some("OpenAI Pro".to_string()), ..UpdateChannelInput::default() },
    )
    .unwrap();

    assert_eq!(updated.name, "OpenAI Pro");
    assert_eq!(updated.base_url, "https://api.openai.com/");
    assert_eq!(updated.updated_at, 200);
}

#[test]
fn tests_get_missing_channel_returns_not_found() {
    let err = get_with(&FakeRepo::default(), "missing").unwrap_err();
    assert_eq!(err, AppError::not_found("channel 'missing' not found"));
}

#[test]
fn tests_delete_missing_channel_returns_not_found() {
    let err = delete_with(&FakeRepo::default(), "missing").unwrap_err();
    assert_eq!(err, AppError::not_found("channel 'missing' not found"));
}

#[test]
fn test_channel_returns_success_when_probe_succeeds() {
    let repo = FakeRepo::with_channel(sample_channel());
    let probe = FakeHttpClient::default();

    let result = test_with(&repo, &probe, "0195d4f5-3af3-7c13-8d69-f4f4bb73f0aa").unwrap();

    assert_eq!(
        result,
        ChannelTestResult { success: true, message: Some("channel is reachable".to_string()) }
    );
}

#[test]
fn test_channel_maps_probe_failures_to_channel_unreachable() {
    let repo = FakeRepo::with_channel(sample_channel());
    let probe = FakeHttpClient {
        responses: RefCell::new(VecDeque::from([Err("network down".to_string())])),
    };

    let err = test_with(&repo, &probe, "0195d4f5-3af3-7c13-8d69-f4f4bb73f0aa").unwrap_err();

    assert_eq!(err, AppError::channel_unreachable("failed to reach channel: network down"));
}
