use buyu::domain::{
    GenerationStreamEventKind, ProviderChatEvent, ProviderChatResponse, ProviderMessagePart, ProviderMessagePartKind,
};
use buyu::error::AppError;
use buyu::models::message::{EditMessageInput, GenerationEvent, MessageNodeRecord, VersionMeta};
use buyu::services::generation::{reply_stream_events, ReplyEnd};
use buyu::services::generation_engine::lifecycle::{event_after_commit, plan_version_commit};
use buyu::services::generation_engine::{TextSegment, ThinkingTagDetector};
use buyu::text::trim;
use buyu::services::message_service::{after_send_attempt, plan_edit, plan_reroll, RerollStart, SendIds, SendStep};

fn node(role: &str) -> MessageNodeRecord {
    MessageNodeRecord {
        id: "n1".to_string(),
        conversation_id: "c1".to_string(),
        author_agent_id: None,
        role: role.to_string(),
        order_key: "k".to_string(),
        active_version_id: Some("v0".to_string()),
        created_at: 1,
    }
}

fn version(status: &str) -> VersionMeta {
    VersionMeta {
        id: "v0".to_string(),
        node_id: "n1".to_string(),
        status: status.to_string(),
        model_name: None,
        prompt_tokens: None,
        completion_tokens: None,
        finish_reason: None,
        created_at: 1,
    }
}

fn edit(content: &str, resend: Option<bool>) -> EditMessageInput {
    EditMessageInput { content: content.to_string(), resend, stream: None }
}

#[test]
fn editing_a_generating_version_is_refused_before_the_text_is_checked() {
    let err = plan_edit(&node("user"), &version("generating"), "text/plain", &edit("   ", None), "v1".into(), "c1".into(), 5)
        .unwrap_err();
    assert_eq!(err, AppError::validation("MESSAGE_STILL_GENERATING", "cannot edit a generating version"));
    let err = plan_edit(&node("user"), &version("committed"), "text/plain", &edit("  \n", None), "v1".into(), "c1".into(), 5)
        .unwrap_err();
    assert_eq!(err, AppError::validation("VALIDATION_ERROR", "content must not be empty"));
}

#[test]
fn an_edit_adds_a_committed_version_and_makes_it_active() {
    let plan = plan_edit(&node("user"), &version("committed"), "text/markdown", &edit("  new text ", None), "v1".into(), "ch1".into(), 42)
        .unwrap();
    assert_eq!(plan.version.id, "v1");
    assert_eq!(plan.version.node_id, "n1");
    assert_eq!(plan.version.status, "committed");
    assert_eq!(plan.version.model_name, None);
    assert_eq!(plan.version.created_at, 42);
    assert_eq!(plan.content.id, "ch1");
    assert_eq!(plan.content.version_id, "v1");
    assert_eq!(plan.content.chunk_index, 0);
    assert_eq!(plan.content.content_type, "text/markdown");
    assert_eq!(plan.content.body, "new text");
    assert_eq!(plan.node_id, "n1");
    assert_eq!(plan.active_version_id, "v1");
    assert!(!plan.resend);
    assert!(plan.stream);
    assert_eq!(plan.result.edited_version_id, "v1");
    assert_eq!(plan.result.assistant_node_id, None);
    assert_eq!(plan.result.assistant_version_id, None);
    let plan = plan_edit(&node("user"), &version("failed"), "text/plain", &edit("x", Some(true)), "v2".into(), "c2".into(), 1).unwrap();
    assert!(plan.resend);
}

fn ids() -> SendIds {
    SendIds {
        user_node_id: "un".to_string(),
        user_version_id: "uv".to_string(),
        user_content_id: "uc".to_string(),
        assistant_node_id: "an".to_string(),
        assistant_version_id: "av".to_string(),
    }
}

#[test]
fn a_send_retries_order_key_clashes_three_times_at_most() {
    let clash = Err("UNIQUE constraint failed: message_nodes.conversation_id, message_nodes.order_key".to_string());
    assert!(matches!(after_send_attempt(0, &ids(), &clash), SendStep::Retry));
    assert!(matches!(after_send_attempt(1, &ids(), &clash), SendStep::Retry));
    match after_send_attempt(2, &ids(), &clash) {
        SendStep::Failed(e) => assert_eq!(e, AppError::internal("failed to allocate unique order_key after 3 attempts")),
        _ => panic!("expected the attempts to be exhausted"),
    }
    match after_send_attempt(0, &ids(), &Err("disk full".to_string())) {
        SendStep::Failed(e) => assert_eq!(e, AppError::internal("failed to create message records: disk full")),
        _ => panic!("expected a failure"),
    }
    match after_send_attempt(1, &ids(), &Ok(())) {
        SendStep::Committed(r) => {
            assert_eq!(r.user_node_id, "un");
            assert_eq!(r.user_version_id, "uv");
            assert_eq!(r.assistant_node_id, "an");
            assert_eq!(r.assistant_version_id, "av");
        },
        _ => panic!("expected the records to be committed"),
    }
}

#[test]
fn a_reroll_of_an_assistant_node_adds_an_active_generating_version() {
    match plan_reroll("c1", "n1", Ok(Some(node("assistant"))), "gpt", "v9".into(), 77).unwrap() {
        RerollStart::Assistant(p) => {
            assert_eq!(p.version.id, "v9");
            assert_eq!(p.version.node_id, "n1");
            assert_eq!(p.version.status, "generating");
            assert_eq!(p.version.model_name.as_deref(), Some("gpt"));
            assert_eq!(p.version.created_at, 77);
            assert_eq!(p.active_version_id, "v9");
            assert_eq!(p.conversation_id, "c1");
            assert_eq!(p.touched_at, 77);
            assert_eq!(p.result.new_user_version_id, None);
            assert_eq!(p.result.assistant_node_id, "n1");
            assert_eq!(p.result.assistant_version_id, "v9");
        },
        _ => panic!("expected an assistant reroll"),
    }
    match plan_reroll("c1", "n1", Ok(Some(node("user"))), "gpt", "v9".into(), 77).unwrap() {
        RerollStart::UserFollowup(n) => assert_eq!(n.id, "n1"),
        _ => panic!("expected a reply to the user node"),
    }
    assert_eq!(
        plan_reroll("c1", "n1", Ok(Some(node("system"))), "gpt", "v9".into(), 77).unwrap_err(),
        AppError::internal("unsupported node role 'system'")
    );
    assert_eq!(
        plan_reroll("c1", "n1", Ok(None), "gpt", "v9".into(), 77).unwrap_err(),
        AppError::not_found("node 'n1' not found")
    );
    assert_eq!(
        plan_reroll("c1", "n1", Err("locked".to_string()), "gpt", "v9".into(), 77).unwrap_err(),
        AppError::internal("failed to load node: locked")
    );
}

#[test]
fn a_finished_reply_commits_its_version_with_its_counts() {
    let commit = plan_version_commit("c1", "n1", "v1", 12, 34, "stop", "gpt");
    assert_eq!(commit.patch.status.as_deref(), Some("committed"));
    assert_eq!(commit.patch.prompt_tokens, Some(Some(12)));
    assert_eq!(commit.patch.completion_tokens, Some(Some(34)));
    assert_eq!(commit.patch.finish_reason, Some(Some("stop".to_string())));
    assert_eq!(commit.patch.model_name, Some(Some("gpt".to_string())));
    let expected = GenerationEvent::Completed {
        conversation_id: "c1".to_string(),
        node_id: "n1".to_string(),
        version_id: "v1".to_string(),
        prompt_tokens: 12,
        completion_tokens: 34,
        finish_reason: "stop".to_string(),
        model: "gpt".to_string(),
    };
    assert_eq!(event_after_commit(true, commit.clone()), Some(expected));
    assert_eq!(event_after_commit(false, commit), None);
}

fn text_part(text: &str) -> ProviderMessagePart {
    ProviderMessagePart {
        kind: ProviderMessagePartKind::Text,
        text: Some(text.to_string()),
        content: None,
        metadata_json: "{}".to_string(),
    }
}

fn delta(text: &str) -> ProviderChatEvent {
    ProviderChatEvent::Delta { parts: vec![text_part(text)], raw_event_json: None }
}

fn streamed_events() -> Vec<ProviderChatEvent> {
    vec![
        delta("Hel"),
        delta(""),
        delta("lo"),
        ProviderChatEvent::Finished {
            finish_reason: Some("stop".to_string()),
            prompt_tokens: Some(3),
            completion_tokens: Some(2),
            total_tokens: Some(5),
            raw_event_json: None,
        },
    ]
}

#[test]
fn a_streamed_reply_is_told_in_order_and_closed_once() {
    let response = ProviderChatResponse {
        parts: vec![text_part("Hello")],
        finish_reason: None,
        prompt_tokens: Some(4),
        completion_tokens: None,
        total_tokens: None,
        raw_response_json: None,
    };
    let out = reply_stream_events("s1", streamed_events(), ReplyEnd::Stored { response, version_id: "v1".to_string() });
    assert_eq!(out.len(), 4);
    assert_eq!(out[0].kind, GenerationStreamEventKind::Started);
    assert_eq!(out[0].accumulated_text.as_deref(), Some(""));
    assert_eq!(out[1].kind, GenerationStreamEventKind::Delta);
    assert_eq!(out[1].delta_text.as_deref(), Some("Hel"));
    assert_eq!(out[1].accumulated_text.as_deref(), Some("Hel"));
    assert_eq!(out[2].delta_text.as_deref(), Some("lo"));
    assert_eq!(out[2].accumulated_text.as_deref(), Some("Hello"));
    assert_eq!(out[3].kind, GenerationStreamEventKind::Completed);
    assert_eq!(out[3].accumulated_text.as_deref(), Some("Hello"));
    assert_eq!(out[3].message_version_id.as_deref(), Some("v1"));
    assert_eq!(out[3].finish_reason.as_deref(), Some("stop"));
    assert_eq!(out[3].prompt_tokens, Some(4));
    assert_eq!(out[3].completion_tokens, Some(2));
    assert_eq!(out[3].total_tokens, Some(5));
    assert!(out.iter().all(|e| e.stream_id == "s1"));

    let out = reply_stream_events("s2", vec![delta("Hi")], ReplyEnd::Failed { error_text: "boom".to_string() });
    assert_eq!(out.len(), 3);
    assert_eq!(out[2].kind, GenerationStreamEventKind::Failed);
    assert_eq!(out[2].accumulated_text.as_deref(), Some("Hi"));
    assert_eq!(out[2].error_text.as_deref(), Some("boom"));
    assert_eq!(out[2].message_version_id, None);
}

#[test]
fn the_detector_releases_what_is_settled_at_each_chunk() {
    let mut d = ThinkingTagDetector::new(vec!["think".to_string()]);
    let first = d.feed("Hello <thi");
    assert_eq!(first, vec![TextSegment::Normal("Hell".to_string())]);
    let second = d.feed("nk>secret</think>bye");
    assert_eq!(second, vec![TextSegment::Normal("o ".to_string()), TextSegment::Thinking("secret".to_string())]);
    let last = d.finish();
    assert_eq!(last, vec![TextSegment::Normal("bye".to_string())]);
    let mut all = first;
    all.extend(second);
    all.extend(last);
    let normal: String = all
        .iter()
        .filter_map(|s| match s {
            TextSegment::Normal(t) => Some(t.as_str()),
            _ => None,
        })
        .collect();
    let thinking: String = all
        .iter()
        .filter_map(|s| match s {
            TextSegment::Thinking(t) => Some(t.as_str()),
            _ => None,
        })
        .collect();
    assert_eq!(normal, "Hello bye");
    assert_eq!(thinking, "secret");
    assert!(all.iter().all(|s| match s {
        TextSegment::Normal(t) | TextSegment::Thinking(t) => !t.is_empty(),
    }));
}

#[test]
fn trimming_twice_is_trimming_once() {
    let once = trim(" \u{2003} hello world \n\t");
    assert_eq!(once, "hello world");
    assert_eq!(trim(&once), once);
    assert_eq!(trim(" \n "), "");
}
