use buyu::domain::ProviderMessagePartKind;
use buyu::error::AppError;
use buyu::providers::anthropic::{
    anthropic_request_body, decode_anthropic_event, parse_chat_response as parse_anthropic_answer, read_chat_response,
    AnthropicStreamEvent,
};
use buyu::providers::common::TextMessage;
use buyu::providers::gemini::{decode_gemini_payload, gemini_request_body, parse_chat_response as parse_gemini_answer};
use buyu::providers::openai::{parse_openai_chat_reply, ChatReplyError, TokenUsage};
use buyu::providers::openai_compatible::{
    build_chat_request_body, build_stream_request_body, decode_stream_payload, message_json, parse_chat_completion,
    parse_response_parts, parse_stream_delta_parts, OpenAiContent, OpenAiMessage, OpenAiPart,
};
use serde_json::Value;

fn json(text: &str) -> Value {
    serde_json::from_str(text).unwrap()
}

#[test]
fn anthropic_events_are_decoded_by_type() {
    match decode_anthropic_event(r#"{"type":"message_start","message":{"usage":{"input_tokens":12}}}"#).unwrap() {
        AnthropicStreamEvent::MessageStart { input_tokens } => assert_eq!(input_tokens, Some(12)),
        _ => panic!("expected message_start"),
    }
    match decode_anthropic_event(r#"{"type": "content_block_delta", "delta": {"text": "Hi"}}"#).unwrap() {
        AnthropicStreamEvent::ContentBlockDelta { text, raw_json } => {
            assert_eq!(text.as_deref(), Some("Hi"));
            assert_eq!(raw_json, r#"{"delta":{"text":"Hi"},"type":"content_block_delta"}"#);
        },
        _ => panic!("expected content_block_delta"),
    }
    match decode_anthropic_event(r#"{"type":"message_delta","delta":{"stop_reason":"end_turn"},"usage":{"output_tokens":7}}"#)
        .unwrap()
    {
        AnthropicStreamEvent::MessageDelta { stop_reason, output_tokens } => {
            assert_eq!(stop_reason.as_deref(), Some("end_turn"));
            assert_eq!(output_tokens, Some(7));
        },
        _ => panic!("expected message_delta"),
    }
    assert!(matches!(decode_anthropic_event(r#"{"type":"message_stop"}"#).unwrap(), AnthropicStreamEvent::MessageStop));
    assert!(matches!(decode_anthropic_event(r#"{"type":"ping"}"#).unwrap(), AnthropicStreamEvent::Other));
    assert!(matches!(decode_anthropic_event("[1,2]").unwrap(), AnthropicStreamEvent::Other));
    let err = decode_anthropic_event("{oops").unwrap_err();
    assert!(err.message.starts_with("failed to decode provider stream event: "));
    assert_eq!(err.code, "INTERNAL_ERROR");
}

#[test]
fn openai_stream_chunks_are_decoded() {
    let payload = decode_stream_payload(
        r#"{"choices":[{"delta":{"content":"Hel"},"finish_reason":null}],"usage":{"prompt_tokens":3,"completion_tokens":1,"total_tokens":4}}"#,
    )
    .unwrap();
    assert_eq!(payload.usage, Some((Some(3), Some(1), Some(4))));
    let (reason, parts) = payload.choice.unwrap();
    assert_eq!(reason, None);
    let parts = parts.unwrap();
    assert_eq!(parts.len(), 1);
    assert_eq!(parts[0].text.as_deref(), Some("Hel"));
    assert_eq!(parts[0].metadata_json, "{}");
    let payload = decode_stream_payload(r#"{"choices":[{"finish_reason":"stop"}]}"#).unwrap();
    assert_eq!(payload.usage, None);
    let (reason, parts) = payload.choice.unwrap();
    assert_eq!(reason.as_deref(), Some("stop"));
    assert!(parts.is_none());
    assert!(decode_stream_payload(r#"{"choices":[]}"#).unwrap().choice.is_none());
    assert!(decode_stream_payload("nope").is_err());
}

#[test]
fn delta_items_give_their_texts() {
    let parts = parse_stream_delta_parts(r#"{"content":[{"type":"text","text":"a"},{"content":"b"},{"type":"image"}]}"#);
    assert_eq!(parts.len(), 2);
    assert_eq!(parts[0].text.as_deref(), Some("a"));
    assert_eq!(json(&parts[0].metadata_json), json(r#"{"type":"text","text":"a"}"#));
    assert_eq!(parts[1].text.as_deref(), Some("b"));
    assert!(parse_stream_delta_parts(r#"{"role":"assistant"}"#).is_empty());
}

#[test]
fn reply_content_shapes() {
    let parts = parse_response_parts(r#"{"role":"assistant","content":null}"#).unwrap();
    assert_eq!(parts.len(), 1);
    assert_eq!(parts[0].kind, ProviderMessagePartKind::Text);
    assert_eq!(parts[0].text.as_deref(), Some(""));
    let parts = parse_response_parts(r#"{"content":"hello"}"#).unwrap();
    assert_eq!(parts[0].text.as_deref(), Some("hello"));
    assert_eq!(parse_response_parts("{}").unwrap()[0].text.as_deref(), Some(""));
    let parts = parse_response_parts(r#"{"content":[{"text":"x"},{"text":"y"}]}"#).unwrap();
    assert_eq!(parts.len(), 2);
    assert_eq!(
        parse_response_parts(r#"{"content":[{"type":"image"}]}"#).unwrap_err(),
        AppError::validation("VALIDATION_ERROR", "provider response array content did not contain textual items")
    );
    assert_eq!(
        parse_response_parts(r#"{"content":42}"#).unwrap_err(),
        AppError::validation("VALIDATION_ERROR", "unsupported provider response content shape: 42")
    );
}

#[test]
fn chat_completions_are_read_from_status_and_body() {
    let response = parse_chat_completion(
        200,
        r#"{"choices":[{"message":{"content":"Hi"},"finish_reason":"stop"}],"usage":{"prompt_tokens":5,"completion_tokens":2,"total_tokens":7}}"#,
    )
    .unwrap();
    assert_eq!(response.parts.len(), 1);
    assert_eq!(response.parts[0].text.as_deref(), Some("Hi"));
    assert_eq!(response.finish_reason.as_deref(), Some("stop"));
    assert_eq!(response.prompt_tokens, Some(5));
    assert_eq!(response.completion_tokens, Some(2));
    assert_eq!(response.total_tokens, Some(7));
    assert!(response.raw_response_json.unwrap().starts_with("{\"choices\""));
    assert_eq!(
        parse_chat_completion(500, r#"{"error": "x"}"#).unwrap_err(),
        AppError::validation("VALIDATION_ERROR", r#"API request failed [500]: {"error":"x"}"#)
    );
    assert_eq!(
        parse_chat_completion(200, r#"{"choices":[]}"#).unwrap_err(),
        AppError::validation("VALIDATION_ERROR", "provider response missing choices[0]")
    );
    assert_eq!(
        parse_chat_completion(200, r#"{"choices":[{"finish_reason":"stop"}]}"#).unwrap_err(),
        AppError::validation("VALIDATION_ERROR", "provider response missing message")
    );
    let err = parse_chat_completion(200, "<html>").unwrap_err();
    assert!(err.message.starts_with("failed to decode provider response: "));
}

#[test]
fn openai_replies_carry_tool_calls_and_usage() {
    let reply = parse_openai_chat_reply(
        200,
        r#"{"choices":[{"message":{"content":null,"tool_calls":[
            {"id":"call_1","function":{"name":"search","arguments":"{\"q\":\"rust\"}"}},
            {"id":"call_2","function":{"name":"echo","arguments":"not json"}},
            {"function":{"name":"raw","arguments":{"a":1}}}
        ]},"finish_reason":"tool_calls"}],"usage":{"prompt_tokens":10,"completion_tokens":4,"total_tokens":14}}"#,
    )
    .unwrap();
    assert_eq!(reply.content, "");
    assert_eq!(reply.finish_reason.as_deref(), Some("tool_calls"));
    let calls = reply.tool_calls.unwrap();
    assert_eq!(calls.len(), 3);
    assert_eq!(calls[0].id, "call_1");
    assert_eq!(calls[0].name, "search");
    assert_eq!(json(&calls[0].arguments_json), json(r#"{"q":"rust"}"#));
    assert_eq!(json(&calls[1].arguments_json), json(r#"{"raw":"not json"}"#));
    assert_eq!(calls[2].id, "");
    assert_eq!(json(&calls[2].arguments_json), json(r#"{"a":1}"#));
    assert_eq!(reply.usage, Some(TokenUsage { prompt_tokens: 10, completion_tokens: 4, total_tokens: 14 }));

    let reply = parse_openai_chat_reply(200, r#"{"choices":[{"message":{"content":"hi","tool_calls":[]}}]}"#).unwrap();
    assert_eq!(reply.content, "hi");
    assert_eq!(reply.tool_calls, None);
    assert_eq!(reply.usage, None);
    assert_eq!(
        parse_openai_chat_reply(401, "denied").unwrap_err(),
        ChatReplyError::Api { status: 401, body: "denied".to_string() }
    );
    assert_eq!(
        parse_openai_chat_reply(200, r#"{"choices":[]}"#).unwrap_err(),
        ChatReplyError::Other("OpenAI response missing choices".to_string())
    );
    assert!(matches!(parse_openai_chat_reply(200, "x").unwrap_err(), ChatReplyError::Json(_)));
}

#[test]
fn chat_request_bodies_let_parameters_win() {
    let message = message_json(&OpenAiMessage {
        role: "user".to_string(),
        content: OpenAiContent::Parts(vec![OpenAiPart::Text("look".to_string()), OpenAiPart::ImageUrl("data:x".to_string())]),
    });
    assert_eq!(
        json(&message),
        json(r#"{"role":"user","content":[{"type":"text","text":"look"},{"type":"image_url","image_url":{"url":"data:x"}}]}"#)
    );
    let plain = message_json(&OpenAiMessage { role: "system".to_string(), content: OpenAiContent::Plain("be brief".to_string()) });
    let body = build_chat_request_body("gpt", &[plain.clone()], r#"{"temperature":0.5,"model":"other"}"#, false);
    assert_eq!(
        json(&body),
        json(r#"{"model":"other","messages":[{"role":"system","content":"be brief"}],"stream":false,"temperature":0.5}"#)
    );
    let body = build_chat_request_body("gpt", &[], "[1]", true);
    assert_eq!(json(&body), json(r#"{"model":"gpt","messages":[],"stream":true}"#));
    let body = build_stream_request_body("gpt", &[], "{}");
    assert_eq!(json(&body), json(r#"{"model":"gpt","messages":[],"stream":true,"stream_options":{"include_usage":true}}"#));
    let body = build_stream_request_body("gpt", &[], r#"{"stream_options":{"include_usage":false}}"#);
    assert_eq!(json(&body), json(r#"{"model":"gpt","messages":[],"stream":true,"stream_options":{"include_usage":false}}"#));
}

fn text_message(role: &str, texts: &[&str]) -> TextMessage {
    TextMessage { role: role.to_string(), texts: texts.iter().map(|t| t.to_string()).collect() }
}

#[test]
fn anthropic_request_body_takes_max_tokens_apart() {
    let body = anthropic_request_body(
        "model-a",
        Some(2048),
        Some("rules".to_string()),
        &[text_message("user", &["hi"])],
        r#"{"temperature":0.2,"max_tokens":99}"#,
        true,
    );
    assert_eq!(
        json(&body),
        json(
            r#"{"model":"model-a","max_tokens":99,"messages":[{"role":"user","content":[{"type":"text","text":"hi"}]}],"stream":true,"system":"rules","temperature":0.2}"#
        )
    );
    let body = anthropic_request_body("model-a", None, None, &[], "{}", false);
    assert_eq!(json(&body), json(r#"{"model":"model-a","max_tokens":1024,"messages":[],"stream":false}"#));
}

#[test]
fn gemini_request_body_and_chunks() {
    let body = gemini_request_body(&vec!["sys".to_string()], &[text_message("model", &["a", "b"])], r#"{"temperature":1}"#);
    assert_eq!(
        json(&body),
        json(
            r#"{"contents":[{"role":"model","parts":[{"text":"a"},{"text":"b"}]}],"systemInstruction":{"role":"system","parts":[{"text":"sys"}]},"generationConfig":{"temperature":1}}"#
        )
    );
    let body = gemini_request_body(&vec![], &[], "{}");
    assert_eq!(json(&body), json(r#"{"contents":[]}"#));
    let payload = decode_gemini_payload(
        r#"{"candidates":[{"content":{"parts":[{"text":"Hel"},{"inline":1},{"text":"lo"}]},"finishReason":"STOP"}],"usageMetadata":{"promptTokenCount":2,"candidatesTokenCount":3,"totalTokenCount":5}}"#,
    )
    .unwrap();
    assert_eq!(payload.candidate_texts, Some(vec!["Hel".to_string(), "lo".to_string()]));
    assert_eq!(payload.finish_reason.as_deref(), Some("STOP"));
    assert_eq!(payload.usage, Some((Some(2), Some(3), Some(5))));
    let payload = decode_gemini_payload("{}").unwrap();
    assert_eq!(payload.candidate_texts, None);
    assert_eq!(payload.usage, None);
    assert!(decode_gemini_payload("x").is_err());
}

#[test]
fn anthropic_answers_give_their_text_items_and_counts() {
    let r = parse_anthropic_answer(
        200,
        r#"{"content":[{"type":"text","text":"Hi"},{"type":"tool_use"},{"type":"text","text":"!"}],"stop_reason":"end_turn","usage":{"input_tokens":5,"output_tokens":3}}"#,
    )
    .unwrap();
    assert_eq!(r.parts.len(), 2);
    assert_eq!(r.parts[0].text.as_deref(), Some("Hi"));
    assert_eq!(json(&r.parts[0].metadata_json), json(r#"{"type":"text","text":"Hi"}"#));
    assert_eq!(r.parts[1].text.as_deref(), Some("!"));
    assert_eq!(r.finish_reason.as_deref(), Some("end_turn"));
    assert_eq!((r.prompt_tokens, r.completion_tokens, r.total_tokens), (Some(5), Some(3), Some(8)));
    let r = parse_anthropic_answer(200, r#"{"content":[]}"#).unwrap();
    assert_eq!(r.parts.len(), 1);
    assert_eq!(r.parts[0].text.as_deref(), Some(""));
    assert_eq!(r.parts[0].metadata_json, "{}");
    assert_eq!(r.total_tokens, None);
    assert_eq!(
        parse_anthropic_answer(429, r#"{"error":"slow down"}"#).unwrap_err(),
        AppError::validation("VALIDATION_ERROR", r#"API request failed [429]: {"error":"slow down"}"#)
    );
    let huge = r#"{"usage":{"input_tokens":9223372036854775807,"output_tokens":1}}"#;
    assert!(read_chat_response(200, huge).is_none());
    assert!(read_chat_response(200, r#"{"usage":{"input_tokens":1,"output_tokens":1}}"#).unwrap().is_ok());
}

#[test]
fn gemini_answers_give_the_first_candidate() {
    let r = parse_gemini_answer(
        200,
        r#"{"candidates":[{"content":{"parts":[{"text":"a"},{"text":"b"}]},"finishReason":"STOP"}],"usageMetadata":{"promptTokenCount":1,"candidatesTokenCount":2,"totalTokenCount":3}}"#,
    )
    .unwrap();
    assert_eq!(r.parts.len(), 1);
    assert_eq!(r.parts[0].text.as_deref(), Some("ab"));
    assert_eq!(r.parts[0].metadata_json, "{}");
    assert_eq!(r.finish_reason.as_deref(), Some("STOP"));
    assert_eq!((r.prompt_tokens, r.completion_tokens, r.total_tokens), (Some(1), Some(2), Some(3)));
    let r = parse_gemini_answer(200, "{}").unwrap();
    assert_eq!(r.parts[0].text.as_deref(), Some(""));
    assert_eq!(r.total_tokens, None);
    assert!(parse_gemini_answer(503, "{}").unwrap_err().message.starts_with("API request failed [503]: "));
}

#[test]
fn json_strings_are_escaped_as_serde_json_writes_them() {
    let text = message_json(&OpenAiMessage {
        role: "user".to_string(),
        content: OpenAiContent::Plain("a\"b\\c\n\u{1}\u{7f}é/".to_string()),
    });
    assert_eq!(text, "{\"content\":\"a\\\"b\\\\c\\n\\u0001\u{7f}é/\",\"role\":\"user\"}");
}
