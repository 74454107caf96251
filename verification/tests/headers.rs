use buyu::domain::ApiChannel;
use buyu::error::AppError;
use buyu::providers::anthropic::{build_headers as anthropic_headers, max_tokens_json};
use buyu::providers::common::{build_headers, put_header};
use buyu::support::{json_object_members, nested_object_members, string_member_of};

fn channel(auth_type: &str, api_key: Option<&str>, config_json: &str) -> ApiChannel {
    ApiChannel {
        id: "c".to_string(),
        name: "Channel".to_string(),
        channel_type: "openai_compatible".to_string(),
        base_url: "https://api.example.com".to_string(),
        auth_type: auth_type.to_string(),
        api_key: api_key.map(str::to_string),
        models_endpoint: None,
        chat_endpoint: None,
        stream_endpoint: None,
        models_mode: "remote".to_string(),
        enabled: true,
        sort_order: 0,
        config_json: config_json.to_string(),
        created_at: 1,
        updated_at: 1,
    }
}

fn pair(name: &str, value: &str) -> (String, String) {
    (name.to_string(), value.to_string())
}

#[test]
fn bearer_key_goes_into_authorization() {
    let headers = build_headers(&channel("bearer", Some("sk-1"), "{}")).unwrap();
    assert_eq!(headers, vec![pair("authorization", "Bearer sk-1")]);
}

#[test]
fn x_api_key_scheme_sends_the_bare_key() {
    let headers = build_headers(&channel("x-api-key", Some("k-2"), "{}")).unwrap();
    assert_eq!(headers, vec![pair("x-api-key", "k-2")]);
}

#[test]
fn no_key_or_none_scheme_sends_no_auth_header() {
    assert_eq!(build_headers(&channel("bearer", None, "{}")).unwrap(), Vec::<(String, String)>::new());
    assert_eq!(build_headers(&channel("none", Some("k"), "{}")).unwrap(), Vec::<(String, String)>::new());
}

#[test]
fn unknown_scheme_is_refused_only_with_a_key() {
    let err = build_headers(&channel("basic", Some("k"), "{}")).unwrap_err();
    assert_eq!(err, AppError::validation("VALIDATION_ERROR", "unsupported auth_type 'basic'"));
    assert!(build_headers(&channel("basic", None, "{}")).is_ok());
}

#[test]
fn key_with_a_line_feed_is_refused() {
    let err = build_headers(&channel("bearer", Some("a\nb"), "{}")).unwrap_err();
    assert_eq!(
        err,
        AppError::validation("VALIDATION_ERROR", "invalid authorization header: failed to parse header value")
    );
    let err = build_headers(&channel("x-api-key", Some("a\u{7f}"), "{}")).unwrap_err();
    assert_eq!(
        err,
        AppError::validation("VALIDATION_ERROR", "invalid x-api-key header: failed to parse header value")
    );
}

#[test]
fn custom_headers_are_lower_cased_and_replace_earlier_ones() {
    let config = r#"{"headers":{"Authorization":"Token t","X-Trace":"on","n":5}}"#;
    let headers = build_headers(&channel("bearer", Some("sk"), config)).unwrap();
    assert_eq!(headers, vec![pair("authorization", "Token t"), pair("x-trace", "on")]);
}

#[test]
fn bad_custom_header_name_or_value_is_refused() {
    let err = build_headers(&channel("none", None, r#"{"headers":{"bad name":"v"}}"#)).unwrap_err();
    assert_eq!(
        err,
        AppError::validation("VALIDATION_ERROR", "invalid custom header name 'bad name': invalid HTTP header name")
    );
    let err = build_headers(&channel("none", None, r#"{"headers":{"x-a":"v\u0001"}}"#)).unwrap_err();
    assert_eq!(
        err,
        AppError::validation("VALIDATION_ERROR", "invalid custom header value for 'x-a': failed to parse header value")
    );
}

#[test]
fn settings_without_a_header_object_add_nothing() {
    assert!(build_headers(&channel("none", None, r#"{"headers":"x"}"#)).unwrap().is_empty());
    assert!(build_headers(&channel("none", None, "not json")).unwrap().is_empty());
    assert!(build_headers(&channel("none", None, "[1]")).unwrap().is_empty());
}

#[test]
fn anthropic_headers_carry_the_api_version() {
    let headers = anthropic_headers(&channel("x-api-key", Some("k"), "{}")).unwrap();
    assert_eq!(headers, vec![pair("x-api-key", "k"), pair("anthropic-version", "2023-06-01")]);
    let headers = anthropic_headers(&channel("none", None, r#"{"anthropic_version":"2024-01-01"}"#)).unwrap();
    assert_eq!(headers, vec![pair("anthropic-version", "2024-01-01")]);
    let headers = anthropic_headers(&channel("none", None, r#"{"anthropic_version":7}"#)).unwrap();
    assert_eq!(headers, vec![pair("anthropic-version", "2023-06-01")]);
}

#[test]
fn anthropic_version_with_a_control_character_is_refused() {
    let err = anthropic_headers(&channel("none", None, r#"{"anthropic_version":"a\u0002"}"#)).unwrap_err();
    assert_eq!(
        err,
        AppError::validation("VALIDATION_ERROR", "invalid anthropic-version header: failed to parse header value")
    );
}

#[test]
fn max_tokens_prefers_parameters_then_model_then_default() {
    assert_eq!(max_tokens_json(r#"{"max_tokens":256,"temperature":0.5}"#, Some(4096)), "256");
    assert_eq!(max_tokens_json(r#"{"temperature":0.5}"#, Some(4096)), "4096");
    assert_eq!(max_tokens_json("{}", Some(-3)), "-3");
    assert_eq!(max_tokens_json("{}", None), "1024");
    assert_eq!(max_tokens_json("null", None), "1024");
}

#[test]
fn put_header_replaces_in_place_or_appends() {
    let headers = vec![pair("a", "1"), pair("b", "2")];
    let headers = put_header(headers, "a".to_string(), "3".to_string());
    assert_eq!(headers, vec![pair("a", "3"), pair("b", "2")]);
    let headers = put_header(headers, "c".to_string(), "4".to_string());
    assert_eq!(headers, vec![pair("a", "3"), pair("b", "2"), pair("c", "4")]);
}

#[test]
fn json_members_are_read_in_key_order() {
    let members = json_object_members(r#"{"b":"x","a":1}"#).unwrap();
    assert_eq!(
        members,
        vec![
            ("a".to_string(), None, "1".to_string()),
            ("b".to_string(), Some("x".to_string()), "\"x\"".to_string()),
        ]
    );
    assert!(json_object_members("[]").is_none());
    assert!(json_object_members("{").is_none());
    assert_eq!(nested_object_members(r#"{"h":{"k":"v"}}"#, "h").len(), 1);
    assert_eq!(string_member_of(r#"{"k":"v"}"#, "k"), Some("v".to_string()));
    assert_eq!(string_member_of(r#"{"k":1}"#, "k"), None);
}

use buyu::providers::openai::OpenAiProvider;

#[test]
fn openai_provider_defaults_and_endpoints() {
    let p = OpenAiProvider::new(Some("sk".to_string()), None);
    assert_eq!(p.name, "openai");
    assert_eq!(p.base_url, "https://api.openai.com/v1");
    assert_eq!(p.endpoint(&p.models_path), "https://api.openai.com/v1/models");
    assert_eq!(p.endpoint(&p.chat_path), "https://api.openai.com/v1/chat/completions");
    assert_eq!(p.bearer_key(), Some("sk"));
    let q = OpenAiProvider::new_named(
        "local".to_string(),
        Some(String::new()),
        Some("http://localhost:1234/v1//".to_string()),
        None,
        Some("//v1/chat".to_string()),
    );
    assert_eq!(q.endpoint(&q.chat_path), "http://localhost:1234/v1/v1/chat");
    assert_eq!(q.models_path, "models");
    assert_eq!(q.bearer_key(), None);
}

use buyu::providers::custom::{CustomChannelProvider, CustomChannelRow};
use buyu::services::keyring::KeyringService;

fn custom_row(auth_json: &str, endpoints_json: &str) -> CustomChannelRow {
    CustomChannelRow {
        id: "c1".to_string(),
        name: "Local".to_string(),
        channel_type: "openai".to_string(),
        base_url: "http://localhost:8080/v1".to_string(),
        auth_json: auth_json.to_string(),
        endpoints_json: endpoints_json.to_string(),
    }
}

#[test]
fn custom_channels_take_their_key_and_paths_from_settings() {
    let mut keyring = KeyringService::new("buyu");
    keyring.save("ref-1", "sk-stored").unwrap();

    let p = CustomChannelProvider::from_row(custom_row(r#"{"api_key":"sk-inline","key_ref":"ref-1"}"#, "{}"), &keyring).unwrap();
    assert_eq!(p.inner.name, "custom:c1");
    assert_eq!(p.inner.api_key.as_deref(), Some("sk-inline"));
    assert_eq!(p.inner.models_path, "models");
    assert_eq!(p.inner.chat_path, "chat/completions");

    let p = CustomChannelProvider::from_row(
        custom_row(r#"{"key_ref":"ref-1"}"#, r#"{"models":"v1/models","chat":"v1/chat"}"#),
        &keyring,
    )
    .unwrap();
    assert_eq!(p.inner.api_key.as_deref(), Some("sk-stored"));
    assert_eq!(p.inner.endpoint(&p.inner.chat_path), "http://localhost:8080/v1/v1/chat");

    let p = CustomChannelProvider::from_row(custom_row(r#"{"key_ref":"missing"}"#, "{}"), &keyring).unwrap();
    assert_eq!(p.inner.api_key, None);
}

#[test]
fn custom_channel_settings_must_be_json() {
    let keyring = KeyringService::new("buyu");
    let err = CustomChannelProvider::from_row(custom_row("{", "{}"), &keyring).unwrap_err();
    assert_eq!(err.code, "INTERNAL_ERROR");
    let err = CustomChannelProvider::from_row(custom_row("{}", "nope"), &keyring).unwrap_err();
    assert_eq!(err.code, "INTERNAL_ERROR");
}
