use buyu::domain::ProviderChatEvent;
use buyu::error::{AppError, ErrorKind};
use buyu::providers::anthropic::{decode_anthropic_event, run_anthropic_stream, AnthropicStreamEvent};
use buyu::providers::common::SseReader;
use buyu::providers::gemini::{decode_gemini_payload, run_gemini_stream};
use buyu::providers::openai::{ChatMessage, ChatParams, OpenAiProvider};
use buyu::providers::openai::chat_payload;
use buyu::providers::openai_compatible::{openai_stream_item, run_openai_stream, OpenAiStreamItem};
use buyu::models::message::VersionMeta;
use buyu::services::generation_engine::lifecycle::{
    cancel_patch, needs_cancel_mark, number_chunks, plan_cancel, run_generation_stream, GenerationEnd, GenerationInput, StreamChannel,
};
use serde_json::Value;

fn delta_text(event: &ProviderChatEvent) -> Option<String> {
    match event {
        ProviderChatEvent::Delta { parts, .. } => parts[0].text.clone(),
        _ => None,
    }
}

fn anthropic(data: &str) -> Result<AnthropicStreamEvent, AppError> {
    decode_anthropic_event(data)
}

#[test]
fn an_anthropic_stream_ends_at_message_stop() {
    let items = vec![
        anthropic(r#"{"type":"message_start","message":{"usage":{"input_tokens":5}}}"#),
        anthropic(r#"{"type":"content_block_delta","delta":{"text":"Hel"}}"#),
        anthropic(r#"{"type":"content_block_delta","delta":{}}"#),
        anthropic(r#"{"type":"message_delta","delta":{"stop_reason":"end_turn"},"usage":{"output_tokens":3}}"#),
        anthropic(r#"{"type":"content_block_delta","delta":{"text":"lo"}}"#),
        anthropic(r#"{"type":"message_stop"}"#),
        anthropic(r#"{"type":"content_block_delta","delta":{"text":"late"}}"#),
    ];
    let run = run_anthropic_stream(items);
    assert_eq!(run.reported.len(), 3);
    assert_eq!(delta_text(&run.reported[0]).as_deref(), Some("Hel"));
    assert_eq!(delta_text(&run.reported[1]).as_deref(), Some("lo"));
    match &run.reported[2] {
        ProviderChatEvent::Finished { finish_reason, prompt_tokens, completion_tokens, total_tokens, raw_event_json } => {
            assert_eq!(finish_reason.as_deref(), Some("end_turn"));
            assert_eq!((*prompt_tokens, *completion_tokens, *total_tokens), (Some(5), Some(3), Some(8)));
            assert_eq!(raw_event_json.as_deref(), Some("{\"chunk_count\":6,\"streamed\":true}"));
        },
        _ => panic!("the last event must end the stream"),
    }
    let reply = run.result.unwrap();
    assert_eq!(reply.parts[0].text.as_deref(), Some("Hello"));
    assert_eq!(reply.total_tokens, Some(8));

    let run = run_anthropic_stream(vec![anthropic(r#"{"type":"content_block_delta","delta":{"text":"Hi"}}"#)]);
    assert_eq!(run.reported.len(), 1);
    assert_eq!(run.result.unwrap_err(), AppError::internal("provider stream ended before receiving message_stop"));

    let run = run_anthropic_stream(vec![anthropic("{bad"), anthropic(r#"{"type":"message_stop"}"#)]);
    assert!(run.reported.is_empty());
    assert!(run.result.unwrap_err().message.starts_with("failed to decode provider stream event: "));
}

#[test]
fn an_openai_stream_ends_at_done() {
    let items = vec![
        openai_stream_item(r#"{"choices":[{"delta":{"content":"Hel"}}]}"#),
        openai_stream_item(r#"{"choices":[{"delta":{}}]}"#),
        openai_stream_item(r#"{"choices":[{"delta":{"content":"lo"},"finish_reason":"stop"}],"usage":{"prompt_tokens":2,"completion_tokens":2,"total_tokens":4}}"#),
        openai_stream_item("  [DONE] "),
        openai_stream_item(r#"{"choices":[{"delta":{"content":"late"}}]}"#),
    ];
    assert!(matches!(items[3], OpenAiStreamItem::Done));
    let run = run_openai_stream(items);
    assert_eq!(run.reported.len(), 3);
    assert_eq!(delta_text(&run.reported[0]).as_deref(), Some("Hel"));
    assert_eq!(delta_text(&run.reported[1]).as_deref(), Some("lo"));
    assert!(matches!(run.reported[2], ProviderChatEvent::Finished { .. }));
    let reply = run.result.unwrap();
    assert_eq!(reply.parts[0].text.as_deref(), Some("Hello"));
    assert_eq!(reply.finish_reason.as_deref(), Some("stop"));
    assert_eq!(reply.total_tokens, Some(4));
    assert_eq!(reply.raw_response_json.as_deref(), Some("{\"chunk_count\":3,\"streamed\":true}"));

    let run = run_openai_stream(vec![openai_stream_item(r#"{"choices":[{"delta":{"content":"Hi"}}]}"#)]);
    assert_eq!(run.reported.len(), 1);
    assert_eq!(run.result.unwrap_err(), AppError::internal("provider stream ended before receiving [DONE]"));
}

#[test]
fn a_gemini_stream_ends_with_its_body() {
    let items = vec![
        decode_gemini_payload(r#"{"candidates":[{"content":{"parts":[{"text":"Hel"}]}}]}"#),
        decode_gemini_payload(r#"{"candidates":[{"content":{"parts":[{"text":"lo"}]},"finishReason":"STOP"}],"usageMetadata":{"totalTokenCount":9}}"#),
    ];
    let run = run_gemini_stream(items);
    assert_eq!(run.reported.len(), 3);
    let reply = run.result.unwrap();
    assert_eq!(reply.parts[0].text.as_deref(), Some("Hello"));
    assert_eq!(reply.finish_reason.as_deref(), Some("STOP"));
    assert_eq!(reply.total_tokens, Some(9));
    let run = run_gemini_stream(vec![decode_gemini_payload("nope")]);
    assert!(run.result.is_err());
    assert!(run.reported.is_empty());
}

fn written(actions: &[buyu::services::generation_engine::lifecycle::StreamAction], channel: StreamChannel) -> String {
    actions.iter().filter(|a| a.persist && a.channel == channel).map(|a| a.text.as_str()).collect()
}

#[test]
fn a_generation_writes_the_visible_text_in_numbered_chunks() {
    let inputs = vec![
        GenerationInput::Text("Hi <thi".to_string()),
        GenerationInput::Reasoning("plan".to_string()),
        GenerationInput::Tick,
        GenerationInput::Text("nk>secret</think> there".to_string()),
    ];
    let run = run_generation_stream(vec!["think".to_string()], true, inputs);
    assert!(matches!(run.end, GenerationEnd::Finished { text_persisted: true, reasoning_persisted: true }));
    assert_eq!(written(&run.actions, StreamChannel::Text), "Hi  there");
    assert!(run.actions.iter().all(|a| !a.persist || !a.text.is_empty()));
    let chunks = number_chunks(&run.actions, 4);
    assert!(!chunks.is_empty());
    for (k, chunk) in chunks.iter().enumerate() {
        assert_eq!(chunk.chunk_index, 4 + k as i64);
        assert!(!chunk.body.is_empty());
    }

    let run = run_generation_stream(vec![], false, vec![GenerationInput::Text("a".into()), GenerationInput::Text("b".into())]);
    assert_eq!(written(&run.actions, StreamChannel::Text), "ab");

    let run = run_generation_stream(vec![], true, vec![GenerationInput::Text("a".into()), GenerationInput::Incomplete("cut".into())]);
    match run.end {
        GenerationEnd::Failed(e) => {
            assert_eq!(e.kind, ErrorKind::AiRequest);
            assert_eq!(e.message, "cut");
        },
        _ => panic!("expected a failure"),
    }
    let run = run_generation_stream(vec![], true, vec![GenerationInput::Text("a".into()), GenerationInput::Cancelled]);
    assert!(matches!(run.end, GenerationEnd::Cancelled));
    assert_eq!(written(&run.actions, StreamChannel::Text), "a");
}

#[test]
fn the_sse_reader_reads_bytes_into_events() {
    let mut reader = SseReader::new();
    reader.push_bytes(b"event: ping\r\ndata: a");
    assert!(reader.next_event().is_none());
    reader.push_bytes(b"b\r\n\r\ndata: \xff\n\n");
    let first = reader.next_event().unwrap();
    assert_eq!(first.event.as_deref(), Some("ping"));
    assert_eq!(first.data, "ab");
    assert_eq!(reader.next_event().unwrap().data, "\u{FFFD}");
    assert!(reader.next_event().is_none());
}

#[test]
fn openai_requests_put_the_system_prompt_first() {
    let provider = OpenAiProvider::new(None, None);
    let messages = provider.map_messages(
        Some("be brief"),
        &[ChatMessage { role: "user".to_string(), content: "hi".to_string() }],
    );
    assert_eq!(messages.len(), 2);
    let body = chat_payload(
        "gpt-x",
        &messages,
        &ChatParams { temperature_json: Some("0.5".to_string()), top_p_json: None, max_tokens: Some(64) },
    );
    let value: Value = serde_json::from_str(&body).unwrap();
    let expected: Value = serde_json::from_str(
        r#"{"model":"gpt-x","messages":[{"role":"system","content":"be brief"},{"role":"user","content":"hi"}],"stream":false,"temperature":0.5,"max_tokens":64}"#,
    )
    .unwrap();
    assert_eq!(value, expected);
    assert_eq!(provider.map_messages(None, &[]).len(), 0);
}

#[test]
fn cancelling_marks_a_version_once() {
    let patch = cancel_patch();
    assert_eq!(patch.status.as_deref(), Some("cancelled"));
    assert_eq!(patch.finish_reason, Some(Some("cancelled".to_string())));
    let mut version = VersionMeta {
        id: "v".to_string(),
        node_id: "n".to_string(),
        status: "generating".to_string(),
        model_name: None,
        prompt_tokens: None,
        completion_tokens: None,
        finish_reason: None,
        created_at: 0,
    };
    assert!(needs_cancel_mark(Some(&version)));
    version.status = patch.status.clone().unwrap();
    assert!(!needs_cancel_mark(Some(&version)));
}

#[test]
fn cancelling_a_generation_twice_writes_once() {
    let mut version = VersionMeta {
        id: "v".to_string(),
        node_id: "n".to_string(),
        status: "generating".to_string(),
        model_name: None,
        prompt_tokens: None,
        completion_tokens: None,
        finish_reason: None,
        created_at: 0,
    };
    let running = plan_cancel(true, Some(&version));
    assert!(running.signal_task);
    assert!(running.patch.is_none());
    let first = plan_cancel(false, Some(&version));
    assert!(!first.signal_task);
    let patch = first.patch.expect("a generating version is marked");
    assert_eq!(patch.status.as_deref(), Some("cancelled"));
    assert_eq!(patch.finish_reason, None);
    assert_eq!(patch.model_name, None);
    version.status = patch.status.clone().unwrap();
    let second = plan_cancel(false, Some(&version));
    assert!(second.patch.is_none());
    assert!(!second.signal_task);
    assert!(plan_cancel(false, None).patch.is_none());
    version.status = "committed".to_string();
    assert!(plan_cancel(false, Some(&version)).patch.is_none());
}
