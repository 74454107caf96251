use buyu::error::ErrorKind;
use buyu::models::agent::Agent;
use buyu::models::channel::Channel;
use buyu::models::conversation::Conversation;
use buyu::models::message::{MessageNodeRecord, PromptMessage, VersionMeta};
use buyu::services::message_service::{
    active_version_of, after_failed_attempt, attempts_exhausted, bound_ids, ensure_not_generating, ensure_usable,
    followup_target, insert_index_after, insertion_order_key, renumbering_keys, reindexed_order, reroll_kind,
    reroll_prompt, FollowupTarget, RerollKind, edited_version_records, reroll_version_record, send_message_records,
    send_result, SendIds,
};

fn agent(prompt: Option<&str>, enabled: bool) -> Agent {
    Agent {
        id: "agent-1".to_string(),
        name: "Helper".to_string(),
        system_prompt: prompt.map(|p| p.to_string()),
        avatar_uri: None,
        enabled,
        created_at: 1,
        updated_at: 1,
    }
}

fn channel(enabled: bool) -> Channel {
    Channel {
        id: "ch-1".to_string(),
        name: "Main".to_string(),
        channel_type: "openai_compatible".to_string(),
        base_url: "https://api.example.com".to_string(),
        api_key: None,
        api_keys: None,
        auth_type: None,
        models_endpoint: None,
        chat_endpoint: None,
        stream_endpoint: None,
        thinking_tags: None,
        enabled,
        created_at: 1,
        updated_at: 1,
    }
}

fn conversation(agent: Option<&str>, channel: Option<&str>, model: Option<&str>) -> Conversation {
    Conversation {
        id: "conv-1".to_string(),
        title: "New".to_string(),
        agent_id: agent.map(|v| v.to_string()),
        channel_id: channel.map(|v| v.to_string()),
        channel_model_id: model.map(|v| v.to_string()),
        archived: false,
        pinned: false,
        created_at: 1,
        updated_at: 1,
    }
}

fn node(id: &str, role: &str, active: Option<&str>) -> MessageNodeRecord {
    MessageNodeRecord {
        id: id.to_string(),
        conversation_id: "conv-1".to_string(),
        author_agent_id: None,
        role: role.to_string(),
        order_key: "k".to_string(),
        active_version_id: active.map(|v| v.to_string()),
        created_at: 1,
    }
}

fn message(role: &str, content: &str) -> PromptMessage {
    PromptMessage { role: role.to_string(), content: content.to_string(), images: Vec::new() }
}

#[test]
fn reroll_kind_follows_the_node_role() {
    assert_eq!(reroll_kind("assistant").unwrap(), RerollKind::AssistantVersion);
    assert_eq!(reroll_kind("user").unwrap(), RerollKind::UserFollowup);
    let error = reroll_kind("system").unwrap_err();
    assert_eq!(error.kind, ErrorKind::Internal);
    assert_eq!(error.message, "unsupported node role 'system'");
}

#[test]
fn reroll_prompt_places_system_history_and_user_text() {
    let history = vec![message("user", "hi"), message("assistant", "hello")];
    let prompt = reroll_prompt(&agent(Some("  Be brief. "), true), history.clone(), RerollKind::UserFollowup, "again".to_string());
    assert_eq!(
        prompt,
        vec![message("system", "Be brief."), message("user", "hi"), message("assistant", "hello"), message("user", "again")]
    );
    let prompt = reroll_prompt(&agent(Some("   "), true), history.clone(), RerollKind::AssistantVersion, "ignored".to_string());
    assert_eq!(prompt, history);
}

#[test]
fn edit_needs_an_active_version_that_is_not_generating() {
    assert_eq!(active_version_of(&node("n1", "user", Some("v1"))).unwrap(), "v1");
    let error = active_version_of(&node("n1", "user", None)).unwrap_err();
    assert_eq!(error.message, "node has no active version");
    let generating = VersionMeta {
        id: "v1".to_string(),
        node_id: "n1".to_string(),
        status: "generating".to_string(),
        model_name: None,
        prompt_tokens: None,
        completion_tokens: None,
        finish_reason: None,
        created_at: 1,
    };
    let error = ensure_not_generating(&generating).unwrap_err();
    assert_eq!(error.code, "MESSAGE_STILL_GENERATING");
    assert_eq!(error.message, "cannot edit a generating version");
    let done = VersionMeta { status: "committed".to_string(), ..generating };
    assert!(ensure_not_generating(&done).is_ok());
}

#[test]
fn followup_reuses_the_next_assistant_node() {
    assert!(matches!(followup_target(Some(node("n2", "assistant", None))), FollowupTarget::ReuseAssistant(n) if n.id == "n2"));
    assert!(matches!(followup_target(Some(node("n2", "user", None))), FollowupTarget::InsertAfterUser));
    assert!(matches!(followup_target(None), FollowupTarget::InsertAfterUser));
}

#[test]
fn inserted_node_goes_right_after_the_user_node() {
    let nodes = vec![node("a", "user", None), node("b", "assistant", None), node("c", "user", None)];
    assert_eq!(insert_index_after(&nodes, "a").unwrap(), 1);
    assert_eq!(insert_index_after(&nodes, "c").unwrap(), 3);
    let error = insert_index_after(&nodes, "z").unwrap_err();
    assert_eq!(error.kind, ErrorKind::NotFound);
    assert_eq!(error.message, "node 'z' not found");

    let order = reindexed_order(&nodes, 1, "new", "assistant");
    let ids: Vec<&str> = order.iter().map(|(id, _)| id.as_str()).collect();
    assert_eq!(ids, vec!["a", "new", "b", "c"]);
    assert_eq!(order[1].1, "assistant");
    let order = reindexed_order(&nodes, 3, "new", "assistant");
    assert_eq!(order.last().unwrap().0, "new");
}

#[test]
fn temporary_keys_have_the_documented_shape() {
    assert_eq!(insertion_order_key(1700000000000, "n9"), "tmp-0001700000000000-n9");
    assert_eq!(insertion_order_key(-5, "n9"), "tmp--000000000000005-n9");
    let order = vec![("a".to_string(), "user".to_string()), ("b".to_string(), "assistant".to_string())];
    let keys = renumbering_keys(42, &order);
    assert_eq!(keys, vec![
        ("a".to_string(), "tmp-reindex-42-0000-a".to_string()),
        ("b".to_string(), "tmp-reindex-42-0001-b".to_string()),
    ]);
}

#[test]
fn order_key_clash_is_retried_other_errors_are_not() {
    assert!(after_failed_attempt("UNIQUE constraint failed: message_nodes.conversation_id, message_nodes.order_key").is_none());
    let error = after_failed_attempt("disk full").unwrap();
    assert_eq!(error.kind, ErrorKind::Internal);
    assert_eq!(error.message, "failed to create message records: disk full");
    assert_eq!(attempts_exhausted().message, "failed to allocate unique order_key after 3 attempts");
}

#[test]
fn a_reply_needs_every_binding_in_order() {
    let ids = bound_ids(&conversation(Some("a"), Some("c"), Some("m"))).unwrap();
    assert_eq!(ids, ("a".to_string(), "c".to_string(), "m".to_string()));
    assert_eq!(bound_ids(&conversation(None, None, None)).unwrap_err().code, "NO_AGENT");
    assert_eq!(bound_ids(&conversation(Some("a"), None, None)).unwrap_err().code, "NO_CHANNEL");
    assert_eq!(bound_ids(&conversation(Some("a"), Some("c"), None)).unwrap_err().code, "NO_MODEL");
}

#[test]
fn a_reply_needs_an_enabled_agent_and_channel() {
    assert!(ensure_usable(&agent(None, true), &channel(true)).is_ok());
    assert_eq!(ensure_usable(&agent(None, false), &channel(false)).unwrap_err().code, "AGENT_DISABLED");
    assert_eq!(ensure_usable(&agent(None, true), &channel(false)).unwrap_err().code, "CHANNEL_DISABLED");
}

#[test]
fn renumbering_keys_never_clash() {
    let order: Vec<(String, String)> = (0..12)
        .map(|k| (if k % 2 == 0 { "1-x".to_string() } else { "x".to_string() }, "user".to_string()))
        .collect();
    let keys = renumbering_keys(7, &order);
    for (a, (_, ka)) in keys.iter().enumerate() {
        for (b, (_, kb)) in keys.iter().enumerate() {
            if a != b {
                assert_ne!(ka, kb);
            }
        }
    }
}

#[test]
fn a_send_creates_the_user_and_assistant_records() {
    let ids = SendIds {
        user_node_id: "un".to_string(),
        user_version_id: "uv".to_string(),
        user_content_id: "uc".to_string(),
        assistant_node_id: "an".to_string(),
        assistant_version_id: "av".to_string(),
    };
    let records = send_message_records("conv", "agent", "model", "hello", 99, &ids, "k1".to_string(), "k2".to_string());
    assert_eq!(records.user_node.role, "user");
    assert_eq!(records.user_node.author_agent_id, None);
    assert_eq!(records.user_node.order_key, "k1");
    assert_eq!(records.user_version.status, "committed");
    assert_eq!(records.user_content.body, "hello");
    assert_eq!(records.user_content.chunk_index, 0);
    assert_eq!(records.user_content.content_type, "text/plain");
    assert_eq!(records.assistant_node.author_agent_id, Some("agent".to_string()));
    assert_eq!(records.assistant_node.order_key, "k2");
    assert_eq!(records.assistant_version.status, "generating");
    assert_eq!(records.assistant_version.model_name, Some("model".to_string()));
    assert_eq!(records.assistant_version.created_at, 99);
    let result = send_result(&ids);
    assert_eq!(result.assistant_version_id, "av");

    let reroll = reroll_version_record("v2".to_string(), "an", "model", 5);
    assert_eq!(reroll.status, "generating");
    assert_eq!(reroll.node_id, "an");
    let (version, chunk) = edited_version_records("v3".to_string(), "c3".to_string(), "un", "edited", "text/markdown", 6);
    assert_eq!(version.status, "committed");
    assert_eq!(version.model_name, None);
    assert_eq!(chunk.version_id, "v3");
    assert_eq!(chunk.content_type, "text/markdown");
    assert_eq!(chunk.body, "edited");
}
