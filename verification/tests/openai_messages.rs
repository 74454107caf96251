use buyu::domain::{
    ApiChannel, ContentType, MessageRole, ProviderChatEvent, ProviderChatMessage, ProviderMessagePart, ProviderMessagePartKind,
    StoredContent,
};
use buyu::error::ErrorKind;
use buyu::providers::common::{binary_part_text_fallback, build_endpoint_url};
use buyu::providers::openai_compatible::{
    chat_endpoint, is_done_marker, message_to_openai_value, models_endpoint, part_to_openai_value, OpenAiContent,
    OpenAiPart, OpenAiStreamPayload, OpenAiStreamState,
};

fn channel(base_url: &str) -> ApiChannel {
    ApiChannel {
        id: "ch".to_string(),
        name: "Main".to_string(),
        channel_type: "openai_compatible".to_string(),
        base_url: base_url.to_string(),
        auth_type: "bearer".to_string(),
        api_key: None,
        models_endpoint: None,
        chat_endpoint: None,
        stream_endpoint: None,
        models_mode: "remote".to_string(),
        enabled: true,
        sort_order: 0,
        config_json: "{}".to_string(),
        created_at: 1,
        updated_at: 1,
    }
}

fn content(uri: Option<&str>, config_json: &str) -> StoredContent {
    StoredContent {
        content_id: "c1".to_string(),
        content_type: ContentType::Audio,
        mime_type: Some("audio/mpeg".to_string()),
        size_bytes: 2048,
        text_content: None,
        preview_text: Some("a song".to_string()),
        primary_storage_uri: uri.map(|u| u.to_string()),
        config_json: config_json.to_string(),
    }
}

fn part(kind: ProviderMessagePartKind, text: Option<&str>, content: Option<StoredContent>) -> ProviderMessagePart {
    ProviderMessagePart { kind, text: text.map(|t| t.to_string()), content, metadata_json: "{}".to_string() }
}

#[test]
fn endpoint_urls_join_base_and_path() {
    assert_eq!(build_endpoint_url(&channel("https://api.example.com/v1///"), "chat").unwrap(), "https://api.example.com/v1/chat");
    assert_eq!(build_endpoint_url(&channel("https://api.example.com"), "/models").unwrap(), "https://api.example.com/models");
    assert_eq!(build_endpoint_url(&channel("HTTPS://API.Example.com:443"), "a b").unwrap(), "https://api.example.com/a%20b");
    let error = build_endpoint_url(&channel("not a url"), "/models").unwrap_err();
    assert_eq!(error.kind, ErrorKind::Validation);
    assert!(error.message.starts_with("invalid provider url: "));
}

#[test]
fn endpoints_fall_back_to_the_defaults() {
    let mut ch = channel("https://x");
    assert_eq!(models_endpoint(&ch), "/models");
    assert_eq!(chat_endpoint(&ch, false), "/chat/completions");
    assert_eq!(chat_endpoint(&ch, true), "/chat/completions");
    ch.chat_endpoint = Some("/v2/chat".to_string());
    assert_eq!(chat_endpoint(&ch, true), "/v2/chat");
    ch.stream_endpoint = Some("/v2/stream".to_string());
    assert_eq!(chat_endpoint(&ch, true), "/v2/stream");
    assert_eq!(chat_endpoint(&ch, false), "/v2/chat");
}

#[test]
fn media_without_text_is_described() {
    let described = binary_part_text_fallback(
        &part(ProviderMessagePartKind::AudioRef, None, Some(content(Some("file:///a.mp3"), "{\"b\": 1, \"a\": true}"))),
        "audio",
    )
    .unwrap();
    assert_eq!(
        described,
        "[audio]\nuri: file:///a.mp3\nmime: audio/mpeg\nsize_bytes: 2048\npreview: a song\nmetadata: {\"a\":true,\"b\":1}"
    );
    let plain = binary_part_text_fallback(
        &part(ProviderMessagePartKind::FileRef, None, Some(content(None, "{}"))),
        "file",
    )
    .unwrap();
    assert_eq!(plain, "[file]\nmime: audio/mpeg\nsize_bytes: 2048\npreview: a song");
    let own = binary_part_text_fallback(&part(ProviderMessagePartKind::FileRef, Some("named"), None), "file").unwrap();
    assert_eq!(own, "named");
    let error = binary_part_text_fallback(&part(ProviderMessagePartKind::VideoRef, None, None), "video").unwrap_err();
    assert_eq!(error.message, "video part requires content or explicit text representation");
}

#[test]
fn parts_become_request_items() {
    assert_eq!(
        part_to_openai_value(&part(ProviderMessagePartKind::Text, None, None)).unwrap(),
        OpenAiPart::Text(String::new())
    );
    assert_eq!(
        part_to_openai_value(&part(ProviderMessagePartKind::ImageRef, None, Some(content(Some("https://img"), "{}")))).unwrap(),
        OpenAiPart::ImageUrl("https://img".to_string())
    );
    assert_eq!(
        part_to_openai_value(&part(ProviderMessagePartKind::ImageRef, Some("x"), None)).unwrap_err().message,
        "image_ref part requires primary_storage_uri"
    );
    assert_eq!(
        part_to_openai_value(&part(ProviderMessagePartKind::ToolRequest, None, Some(content(None, "{}")))).unwrap(),
        OpenAiPart::Text("a song".to_string())
    );
    assert_eq!(
        part_to_openai_value(&part(ProviderMessagePartKind::RagExcerpt, None, None)).unwrap_err().message,
        "provider part RagExcerpt requires textual representation"
    );
}

#[test]
fn messages_become_request_messages() {
    let single = ProviderChatMessage {
        role: MessageRole::Assistant,
        name: None,
        parts: vec![part(ProviderMessagePartKind::Text, Some("hi"), None)],
        metadata_json: "{}".to_string(),
    };
    let m = message_to_openai_value(&single).unwrap();
    assert_eq!(m.role, "assistant");
    assert_eq!(m.content, OpenAiContent::Plain("hi".to_string()));

    let mixed = ProviderChatMessage {
        role: MessageRole::User,
        name: None,
        parts: vec![
            part(ProviderMessagePartKind::Text, Some("look"), None),
            part(ProviderMessagePartKind::ImageRef, None, Some(content(Some("https://img"), "{}"))),
        ],
        metadata_json: "{}".to_string(),
    };
    let m = message_to_openai_value(&mixed).unwrap();
    assert_eq!(m.role, "user");
    assert_eq!(
        m.content,
        OpenAiContent::Parts(vec![OpenAiPart::Text("look".to_string()), OpenAiPart::ImageUrl("https://img".to_string())])
    );

    let broken = ProviderChatMessage {
        role: MessageRole::User,
        name: None,
        parts: vec![part(ProviderMessagePartKind::ImageRef, None, None)],
        metadata_json: "{}".to_string(),
    };
    assert_eq!(message_to_openai_value(&broken).unwrap_err().message, "image_ref part requires primary_storage_uri");
}

#[test]
fn stream_state_counts_accumulates_and_reports() {
    let mut state = OpenAiStreamState::new();
    assert!(is_done_marker("  [DONE] \n"));
    assert!(!is_done_marker("{\"a\":1}"));
    let first = state
        .on_payload(OpenAiStreamPayload {
            raw_json: "{\"x\":1}".to_string(),
            usage: None,
            choice: Some((None, Some(vec![part(ProviderMessagePartKind::Text, Some("Hel"), None)]))),
        })
        .unwrap();
    assert!(matches!(first, ProviderChatEvent::Delta { ref raw_event_json, .. } if raw_event_json.as_deref() == Some("{\"x\":1}")));
    assert!(state
        .on_payload(OpenAiStreamPayload {
            raw_json: "{}".to_string(),
            usage: Some((Some(3), Some(2), Some(5))),
            choice: Some((Some("stop".to_string()), None)),
        })
        .is_none());
    assert!(state.on_payload(OpenAiStreamPayload { raw_json: "{}".to_string(), usage: None, choice: None }).is_none());
    state.on_payload(OpenAiStreamPayload {
        raw_json: "{}".to_string(),
        usage: None,
        choice: Some((None, Some(vec![part(ProviderMessagePartKind::Text, Some("lo"), None)]))),
    });
    assert_eq!(state.chunk_count, 4);
    assert_eq!(state.final_text, "Hello");
    assert_eq!(state.finish_reason, Some("stop".to_string()));
    let (event, response) = state.finish();
    assert!(matches!(event, ProviderChatEvent::Finished { total_tokens: Some(5), .. }));
    assert_eq!(response.parts[0].text, Some("Hello".to_string()));
    assert_eq!(response.raw_response_json, Some("{\"chunk_count\":4,\"streamed\":true}".to_string()));
}
