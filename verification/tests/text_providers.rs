use buyu::domain::{
    ApiChannel, ContentType, MessageRole, ProviderChatMessage, ProviderMessagePart, ProviderMessagePartKind,
    StoredContent,
};
use buyu::providers::anthropic::{anthropic_request_messages, message_to_anthropic_value};
use buyu::providers::common::part_to_text;
use buyu::providers::gemini::{build_generate_url, gemini_request_messages, message_to_gemini_value};
use buyu::text::replace_text;

fn channel() -> ApiChannel {
    ApiChannel {
        id: "g".to_string(),
        name: "Gemini".to_string(),
        channel_type: "gemini".to_string(),
        base_url: "https://generativelanguage.googleapis.com/".to_string(),
        auth_type: "none".to_string(),
        api_key: None,
        models_endpoint: None,
        chat_endpoint: None,
        stream_endpoint: None,
        models_mode: "remote".to_string(),
        enabled: true,
        sort_order: 0,
        config_json: "{}".to_string(),
        created_at: 1,
        updated_at: 1,
    }
}

fn text(t: &str) -> ProviderMessagePart {
    ProviderMessagePart {
        kind: ProviderMessagePartKind::Text,
        text: Some(t.to_string()),
        content: None,
        metadata_json: "{}".to_string(),
    }
}

fn image_without_content() -> ProviderMessagePart {
    ProviderMessagePart { kind: ProviderMessagePartKind::ImageRef, text: None, content: None, metadata_json: "{}".to_string() }
}

fn message(role: MessageRole, parts: Vec<ProviderMessagePart>) -> ProviderChatMessage {
    ProviderChatMessage { role, name: None, parts, metadata_json: "{}".to_string() }
}

#[test]
fn replace_text_replaces_every_occurrence() {
    assert_eq!(replace_text("a{x}b{x}", "{x}", "yy"), "ayybyy");
    assert_eq!(replace_text("aaa", "aa", "b"), "ba");
    assert_eq!(replace_text("none", "{x}", "y"), "none");
}

#[test]
fn every_part_has_a_text_form_or_an_error() {
    assert_eq!(part_to_text(&text("hi")).unwrap(), "hi");
    let image = ProviderMessagePart {
        kind: ProviderMessagePartKind::ImageRef,
        text: None,
        content: Some(StoredContent {
            content_id: "c".to_string(),
            content_type: ContentType::Image,
            mime_type: None,
            size_bytes: 5,
            text_content: None,
            preview_text: None,
            primary_storage_uri: None,
            config_json: "[]".to_string(),
        }),
        metadata_json: "{}".to_string(),
    };
    assert_eq!(part_to_text(&image).unwrap(), "[image]\nsize_bytes: 5");
    assert_eq!(
        part_to_text(&image_without_content()).unwrap_err().message,
        "image part requires content or explicit text representation"
    );
    let tool = ProviderMessagePart { kind: ProviderMessagePartKind::ToolResponse, text: None, content: None, metadata_json: "{}".to_string() };
    assert_eq!(part_to_text(&tool).unwrap_err().message, "provider part ToolResponse requires textual representation");
}

#[test]
fn anthropic_requests_take_the_system_text_apart() {
    let messages = vec![
        message(MessageRole::System, vec![text("Be brief."), text("Be kind.")]),
        message(MessageRole::User, vec![text("hi")]),
        message(MessageRole::System, vec![text("Stay on topic.")]),
        message(MessageRole::Assistant, vec![text("hello")]),
        message(MessageRole::Tool, vec![text("42")]),
    ];
    let (system, out) = anthropic_request_messages(&messages).unwrap();
    assert_eq!(system, Some("Be brief.\n\nBe kind.\n\nStay on topic.".to_string()));
    let roles: Vec<&str> = out.iter().map(|m| m.role.as_str()).collect();
    assert_eq!(roles, vec!["user", "assistant", "user"]);
    assert_eq!(out[0].texts, vec!["hi".to_string()]);
    let (system, _) = anthropic_request_messages(&[message(MessageRole::User, vec![text("x")])]).unwrap();
    assert_eq!(system, None);
    let error = anthropic_request_messages(&[
        message(MessageRole::User, vec![text("x")]),
        message(MessageRole::User, vec![image_without_content()]),
    ])
    .unwrap_err();
    assert_eq!(error.message, "image part requires content or explicit text representation");
    assert_eq!(message_to_anthropic_value(&message(MessageRole::Assistant, vec![text("a")])).unwrap().role, "assistant");
}

#[test]
fn gemini_requests_speak_as_model_and_user() {
    let messages = vec![
        message(MessageRole::System, vec![text("rules")]),
        message(MessageRole::Assistant, vec![text("hello")]),
    ];
    let (system, out) = gemini_request_messages(&messages).unwrap();
    assert_eq!(system, vec!["rules".to_string()]);
    assert_eq!(out[0].role, "model");
    assert_eq!(message_to_gemini_value(&message(MessageRole::User, vec![text("q")])).unwrap().role, "user");
}

#[test]
fn gemini_urls_name_the_model() {
    assert_eq!(
        build_generate_url(&channel(), "gemini-pro", false).unwrap(),
        "https://generativelanguage.googleapis.com/v1beta/models/gemini-pro:generateContent"
    );
    assert_eq!(
        build_generate_url(&channel(), "gemini-pro", true).unwrap(),
        "https://generativelanguage.googleapis.com/v1beta/models/gemini-pro:streamGenerateContent?alt=sse"
    );
    let mut custom = channel();
    custom.chat_endpoint = Some("/v1/{model}/go".to_string());
    assert_eq!(build_generate_url(&custom, "m1", false).unwrap(), "https://generativelanguage.googleapis.com/v1/m1/go");
}
