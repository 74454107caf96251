use buyu::domain::{
    GenerationStreamEventKind, ProviderChatEvent, ProviderChatResponse, ProviderMessagePart,
    ProviderMessagePartKind,
};
use buyu::models::message::{MessageNodeRecord, VersionMeta};
use buyu::services::generation::{replay_as_events, StreamProgress};
use buyu::services::generation_engine::TextSegment;
use buyu::services::generation_engine::lifecycle::{
    needs_cancel_mark, plan_commit, plan_completion, plan_empty_rollback, CompletionPlan, StreamAction,
    StreamBuffers, StreamChannel, StreamState, FLUSH_THRESHOLD_BYTES,
};

fn emit(channel: StreamChannel, text: &str) -> (bool, StreamChannel, String) {
    (false, channel, text.to_string())
}

fn persist(channel: StreamChannel, text: &str) -> (bool, StreamChannel, String) {
    (true, channel, text.to_string())
}

fn plain(actions: Vec<StreamAction>) -> Vec<(bool, StreamChannel, String)> {
    actions.into_iter().map(|a| (a.persist, a.channel, a.text)).collect()
}

fn text_part(text: &str) -> ProviderMessagePart {
    ProviderMessagePart {
        kind: ProviderMessagePartKind::Text,
        text: Some(text.to_string()),
        content: None,
        metadata_json: "{}".to_string(),
    }
}

fn node(active: Option<&str>) -> MessageNodeRecord {
    MessageNodeRecord {
        id: "node-1".to_string(),
        conversation_id: "conv-1".to_string(),
        author_agent_id: None,
        role: "assistant".to_string(),
        order_key: "0001".to_string(),
        active_version_id: active.map(|value| value.to_string()),
        created_at: 1,
    }
}

fn version(id: &str, status: &str) -> VersionMeta {
    VersionMeta {
        id: id.to_string(),
        node_id: "node-1".to_string(),
        status: status.to_string(),
        model_name: None,
        prompt_tokens: None,
        completion_tokens: None,
        finish_reason: None,
        created_at: 1,
    }
}

#[test]
fn stream_without_tags_emits_every_chunk_and_keeps_it_pending() {
    let mut state = StreamState::new(Vec::new());
    assert!(state.detector.is_none());
    let actions = plain(state.on_text("Hello", true));
    assert_eq!(actions, vec![emit(StreamChannel::Text, "Hello")]);
    assert_eq!(state.buffers.text, "Hello");
    let actions = plain(state.on_text("", true));
    assert!(actions.is_empty());
    let actions = plain(state.on_text(" world", false));
    assert!(actions.is_empty());
    assert_eq!(state.buffers.text, "Hello world");
    assert!(!state.buffers.text_persisted);
}

#[test]
fn stream_writes_out_pending_text_at_the_threshold() {
    let mut buffers = StreamBuffers::new();
    let first = "a".repeat(FLUSH_THRESHOLD_BYTES - 1);
    let actions = plain(buffers.on_segments(vec![TextSegment::Normal(first.clone())], false));
    assert!(actions.is_empty());
    let actions = plain(buffers.on_segments(vec![TextSegment::Normal("b".to_string())], true));
    let mut expected_body = first;
    expected_body.push('b');
    assert_eq!(actions, vec![emit(StreamChannel::Text, "b"), persist(StreamChannel::Text, &expected_body)]);
    assert_eq!(buffers.text, "");
    assert!(buffers.text_persisted);
    assert!(!buffers.reasoning_persisted);
}

#[test]
fn stream_threshold_counts_bytes_not_characters() {
    let mut buffers = StreamBuffers::new();
    let wide = "é".repeat(FLUSH_THRESHOLD_BYTES / 2);
    let actions = plain(buffers.on_reasoning(wide.clone(), false));
    assert_eq!(actions, vec![persist(StreamChannel::Reasoning, &wide)]);
    assert!(buffers.reasoning_persisted);
}

#[test]
fn stream_with_tags_routes_thinking_to_its_channel() {
    let mut state = StreamState::new(vec!["think".to_string()]);
    let mut actions = plain(state.on_text("Hi <thi", true));
    actions.extend(plain(state.on_text("nk>plan</think> there", true)));
    let emitted_text: String = actions
        .iter()
        .filter(|a| !a.0 && a.1 == StreamChannel::Text)
        .map(|a| a.2.clone())
        .collect();
    let emitted_thinking: String = actions
        .iter()
        .filter(|a| !a.0 && a.1 == StreamChannel::Reasoning)
        .map(|a| a.2.clone())
        .collect();
    let end = plain(state.on_end());
    assert_eq!(emitted_thinking, "plan");
    assert!(emitted_text.starts_with("Hi "));
    assert!("Hi  there".starts_with(&emitted_text));
    assert_eq!(state.buffers.text, "");
    assert!(state.buffers.text_persisted);
    assert!(state.buffers.reasoning_persisted);
    assert_eq!(end, vec![persist(StreamChannel::Text, "Hi  there"), persist(StreamChannel::Reasoning, "plan")]);
}

#[test]
fn stream_end_releases_an_unfinished_tag_as_text() {
    let mut state = StreamState::new(vec!["think".to_string()]);
    let actions = plain(state.on_text("Answer <th", true));
    assert_eq!(actions, vec![emit(StreamChannel::Text, "Answ")]);
    let end = plain(state.on_end());
    assert_eq!(end, vec![persist(StreamChannel::Text, "Answer <th")]);
}

#[test]
fn tick_writes_out_both_channels_and_then_nothing() {
    let mut state = StreamState::new(Vec::new());
    state.on_text("abc", false);
    state.on_reasoning("why".to_string(), false);
    let actions = plain(state.on_tick());
    assert_eq!(actions, vec![persist(StreamChannel::Text, "abc"), persist(StreamChannel::Reasoning, "why")]);
    assert!(plain(state.on_tick()).is_empty());
}

#[test]
fn blank_reply_with_nothing_written_is_rolled_back() {
    assert!(matches!(plan_commit("  \n".to_string(), "thought".to_string(), false, false), CompletionPlan::RollbackEmpty));
    assert!(matches!(plan_completion("<think>only</think>", &["think".to_string()], false, false), CompletionPlan::RollbackEmpty));
}

#[test]
fn blank_reply_after_streamed_chunks_is_committed() {
    match plan_commit(String::new(), String::new(), true, false) {
        CompletionPlan::Commit { text_chunk, thinking_chunk } => {
            assert_eq!(text_chunk, None);
            assert_eq!(thinking_chunk, None);
        }
        CompletionPlan::RollbackEmpty => panic!("a streamed reply must be kept"),
    }
}

#[test]
fn completion_appends_what_was_not_streamed() {
    match plan_completion("<think>plan</think>Answer", &["think".to_string()], false, false) {
        CompletionPlan::Commit { text_chunk, thinking_chunk } => {
            assert_eq!(text_chunk, Some("Answer".to_string()));
            assert_eq!(thinking_chunk, Some("plan".to_string()));
        }
        CompletionPlan::RollbackEmpty => panic!("the reply has visible text"),
    }
    match plan_completion("<think>plan</think>Answer", &["think".to_string()], false, true) {
        CompletionPlan::Commit { text_chunk, thinking_chunk } => {
            assert_eq!(text_chunk, Some("Answer".to_string()));
            assert_eq!(thinking_chunk, None);
        }
        CompletionPlan::RollbackEmpty => panic!("the reply has visible text"),
    }
    match plan_completion("plain", &[], false, false) {
        CompletionPlan::Commit { text_chunk, thinking_chunk } => {
            assert_eq!(text_chunk, Some("plain".to_string()));
            assert_eq!(thinking_chunk, None);
        }
        CompletionPlan::RollbackEmpty => panic!("the reply has visible text"),
    }
}

#[test]
fn empty_rollback_of_the_only_version_deletes_the_node() {
    let plan = plan_empty_rollback(&node(Some("v1")), "v1", &[version("v1", "generating")]);
    assert!(plan.node_deleted);
    assert!(!plan.restore_active);
    assert_eq!(plan.fallback_version_id, None);
}

#[test]
fn empty_rollback_restores_the_last_other_version() {
    let versions = vec![version("v1", "committed"), version("v2", "committed"), version("v3", "generating")];
    let plan = plan_empty_rollback(&node(Some("v3")), "v3", &versions);
    assert!(!plan.node_deleted);
    assert!(plan.restore_active);
    assert_eq!(plan.fallback_version_id, Some("v2".to_string()));

    let plan = plan_empty_rollback(&node(Some("v1")), "v3", &versions);
    assert!(!plan.restore_active);
    assert_eq!(plan.fallback_version_id, Some("v1".to_string()));
}

#[test]
fn cancellation_marks_only_generating_versions() {
    assert!(needs_cancel_mark(Some(&version("v1", "generating"))));
    assert!(!needs_cancel_mark(Some(&version("v1", "committed"))));
    assert!(!needs_cancel_mark(None));
}

#[test]
fn stream_progress_accumulates_deltas_and_reports_them() {
    let started = StreamProgress::started_event("s-1");
    assert_eq!(started.kind, GenerationStreamEventKind::Started);
    assert_eq!(started.accumulated_text, Some(String::new()));

    let mut progress = StreamProgress::new();
    let first = progress
        .on_event("s-1", ProviderChatEvent::Delta { parts: vec![text_part("Hel")], raw_event_json: None })
        .unwrap();
    assert_eq!(first.kind, GenerationStreamEventKind::Delta);
    assert_eq!(first.delta_text, Some("Hel".to_string()));
    assert_eq!(first.accumulated_text, Some("Hel".to_string()));
    assert!(progress
        .on_event("s-1", ProviderChatEvent::Delta { parts: vec![text_part("")], raw_event_json: None })
        .is_none());
    let second = progress
        .on_event("s-1", ProviderChatEvent::Delta { parts: vec![text_part("lo")], raw_event_json: None })
        .unwrap();
    assert_eq!(second.accumulated_text, Some("Hello".to_string()));
    assert!(progress
        .on_event(
            "s-1",
            ProviderChatEvent::Finished {
                finish_reason: Some("stop".to_string()),
                prompt_tokens: Some(7),
                completion_tokens: Some(2),
                total_tokens: Some(9),
                raw_event_json: None,
            },
        )
        .is_none());

    let response = ProviderChatResponse {
        parts: vec![text_part("Hello")],
        finish_reason: None,
        prompt_tokens: Some(8),
        completion_tokens: None,
        total_tokens: None,
        raw_response_json: None,
    };
    let done = progress.completed_event("s-1", "ver-1", &response);
    assert_eq!(done.kind, GenerationStreamEventKind::Completed);
    assert_eq!(done.accumulated_text, Some("Hello".to_string()));
    assert_eq!(done.message_version_id, Some("ver-1".to_string()));
    assert_eq!(done.finish_reason, Some("stop".to_string()));
    assert_eq!(done.prompt_tokens, Some(8));
    assert_eq!(done.completion_tokens, Some(2));
    assert_eq!(done.total_tokens, Some(9));

    let failed = progress.failed_event("s-1", "boom".to_string());
    assert_eq!(failed.kind, GenerationStreamEventKind::Failed);
    assert_eq!(failed.error_text, Some("boom".to_string()));
    assert_eq!(failed.accumulated_text, Some("Hello".to_string()));
}

#[test]
fn whole_reply_is_replayed_as_delta_then_end() {
    let response = ProviderChatResponse {
        parts: vec![text_part("Hi")],
        finish_reason: Some("stop".to_string()),
        prompt_tokens: Some(1),
        completion_tokens: Some(1),
        total_tokens: Some(2),
        raw_response_json: Some("{}".to_string()),
    };
    let events = replay_as_events(&response);
    assert_eq!(events.len(), 2);
    assert!(matches!(&events[0], ProviderChatEvent::Delta { parts, .. } if parts == &response.parts));
    assert!(matches!(&events[1], ProviderChatEvent::Finished { total_tokens: Some(2), .. }));

    let empty = ProviderChatResponse { parts: Vec::new(), ..response };
    let events = replay_as_events(&empty);
    assert_eq!(events.len(), 1);
    assert!(matches!(&events[0], ProviderChatEvent::Finished { .. }));
}
