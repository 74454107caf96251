use buyu::domain::{ProviderChatEvent, ProviderMessagePartKind};
use buyu::providers::anthropic::{AnthropicStreamEvent, AnthropicStreamState, AnthropicStreamStep};

fn delta(text: &str) -> AnthropicStreamEvent {
    AnthropicStreamEvent::ContentBlockDelta {
        text: Some(text.to_string()),
        raw_json: format!("{{\"delta\":{{\"text\":\"{text}\"}},\"type\":\"content_block_delta\"}}"),
    }
}

#[test]
fn a_stream_gathers_text_and_counts_until_message_stop() {
    let mut state = AnthropicStreamState::new();
    assert!(matches!(
        state.on_event(AnthropicStreamEvent::MessageStart { input_tokens: Some(12) }),
        AnthropicStreamStep::Continue
    ));
    match state.on_event(delta("Hel")) {
        AnthropicStreamStep::Delta(ProviderChatEvent::Delta { parts, raw_event_json }) => {
            assert_eq!(parts.len(), 1);
            assert_eq!(parts[0].kind, ProviderMessagePartKind::Text);
            assert_eq!(parts[0].text.as_deref(), Some("Hel"));
            assert_eq!(parts[0].metadata_json, raw_event_json.clone().unwrap());
        }
        _ => panic!("expected a delta"),
    }
    assert!(matches!(state.on_event(delta("lo")), AnthropicStreamStep::Delta(_)));
    assert!(matches!(
        state.on_event(AnthropicStreamEvent::ContentBlockDelta { text: None, raw_json: "{}".to_string() }),
        AnthropicStreamStep::Continue
    ));
    state.on_event(AnthropicStreamEvent::MessageDelta { stop_reason: Some("end_turn".to_string()), output_tokens: Some(5) });
    state.on_event(AnthropicStreamEvent::MessageDelta { stop_reason: None, output_tokens: None });
    state.on_event(AnthropicStreamEvent::Other);
    match state.on_event(AnthropicStreamEvent::MessageStop) {
        AnthropicStreamStep::Finished(event, response) => {
            match event {
                ProviderChatEvent::Finished { finish_reason, prompt_tokens, completion_tokens, total_tokens, raw_event_json } => {
                    assert_eq!(finish_reason.as_deref(), Some("end_turn"));
                    assert_eq!(prompt_tokens, Some(12));
                    assert_eq!(completion_tokens, Some(5));
                    assert_eq!(total_tokens, Some(17));
                    assert_eq!(raw_event_json.as_deref(), Some("{\"chunk_count\":8,\"streamed\":true}"));
                }
                _ => panic!("expected the end event"),
            }
            assert_eq!(response.parts.len(), 1);
            assert_eq!(response.parts[0].text.as_deref(), Some("Hello"));
            assert_eq!(response.parts[0].metadata_json, "{}");
            assert_eq!(response.total_tokens, Some(17));
        }
        _ => panic!("expected the end"),
    }
}

#[test]
fn without_both_counts_there_is_no_total() {
    let mut state = AnthropicStreamState::new();
    state.on_event(AnthropicStreamEvent::MessageDelta { stop_reason: None, output_tokens: Some(3) });
    match state.on_event(AnthropicStreamEvent::MessageStop) {
        AnthropicStreamStep::Finished(_, response) => {
            assert_eq!(response.prompt_tokens, None);
            assert_eq!(response.completion_tokens, Some(3));
            assert_eq!(response.total_tokens, None);
            assert_eq!(response.parts[0].text.as_deref(), Some(""));
        }
        _ => panic!("expected the end"),
    }
}

#[test]
fn message_start_replaces_the_prompt_count() {
    let mut state = AnthropicStreamState::new();
    state.on_event(AnthropicStreamEvent::MessageStart { input_tokens: Some(4) });
    state.on_event(AnthropicStreamEvent::MessageStart { input_tokens: None });
    assert_eq!(state.prompt_tokens, None);
    assert_eq!(state.chunk_count, 2);
}

use buyu::domain::ApiChannel;
use buyu::providers::gemini::{build_headers as gemini_headers, extract_candidate_text, GeminiStreamPayload, GeminiStreamState};

fn gemini_payload(texts: Option<Vec<&str>>, usage: Option<(Option<i64>, Option<i64>, Option<i64>)>, reason: Option<&str>) -> GeminiStreamPayload {
    GeminiStreamPayload {
        raw_json: "{\"candidates\":[]}".to_string(),
        candidate_texts: texts.map(|ts| ts.into_iter().map(str::to_string).collect()),
        usage,
        finish_reason: reason.map(str::to_string),
    }
}

#[test]
fn gemini_events_gather_text_and_keep_given_counts() {
    let mut state = GeminiStreamState::new();
    let delta = state.on_payload(gemini_payload(Some(vec!["He", "llo"]), Some((Some(3), None, None)), None));
    match delta {
        Some(ProviderChatEvent::Delta { parts, raw_event_json }) => {
            assert_eq!(parts[0].text.as_deref(), Some("Hello"));
            assert_eq!(raw_event_json.as_deref(), Some("{\"candidates\":[]}"));
        }
        _ => panic!("expected a delta"),
    }
    assert!(state.on_payload(gemini_payload(Some(vec![""]), Some((None, Some(7), Some(10))), Some("STOP"))).is_none());
    assert!(state.on_payload(gemini_payload(None, None, None)).is_none());
    let (event, response) = state.finish();
    match event {
        ProviderChatEvent::Finished { finish_reason, prompt_tokens, completion_tokens, total_tokens, raw_event_json } => {
            assert_eq!(finish_reason.as_deref(), Some("STOP"));
            assert_eq!((prompt_tokens, completion_tokens, total_tokens), (Some(3), Some(7), Some(10)));
            assert_eq!(raw_event_json.as_deref(), Some("{\"chunk_count\":3,\"streamed\":true}"));
        }
        _ => panic!("expected the end event"),
    }
    assert_eq!(response.parts[0].text.as_deref(), Some("Hello"));
    assert_eq!(extract_candidate_text(&gemini_payload(Some(vec![]), None, None)), None);
}

#[test]
fn gemini_headers_repeat_the_key_for_google() {
    let channel = ApiChannel {
        id: "g".to_string(),
        name: "Gemini".to_string(),
        channel_type: "gemini".to_string(),
        base_url: "https://generativelanguage.googleapis.com".to_string(),
        auth_type: "none".to_string(),
        api_key: Some("g-key".to_string()),
        models_endpoint: None,
        chat_endpoint: None,
        stream_endpoint: None,
        models_mode: "remote".to_string(),
        enabled: true,
        sort_order: 0,
        config_json: "{}".to_string(),
        created_at: 1,
        updated_at: 1,
    };
    assert_eq!(gemini_headers(&channel).unwrap(), vec![("x-goog-api-key".to_string(), "g-key".to_string())]);
    let mut bearer = channel.clone();
    bearer.auth_type = "bearer".to_string();
    assert_eq!(
        gemini_headers(&bearer).unwrap(),
        vec![
            ("authorization".to_string(), "Bearer g-key".to_string()),
            ("x-goog-api-key".to_string(), "g-key".to_string())
        ]
    );
    let mut unkeyed = channel.clone();
    unkeyed.api_key = None;
    assert!(gemini_headers(&unkeyed).unwrap().is_empty());
}
