use buyu::domain::{
    AgentDetail, ContentType, ContextPolicy, ContextSummary, MatchedLorebookEntry, MessageRole, PresetDetail,
    PresetEntryDetail, StoredContent, UserProfileDetail,
};
use buyu::services::context_builder::{
    materialize_context_items, merge_request_parameters, resolve_agent_slot_content, select_history_materials, HistoryMaterial,
    MessageContentRefView,
};
use buyu::services::summaries::MessageVersionView;

fn content(id: &str, t: ContentType, text: &str) -> StoredContent {
    StoredContent {
        content_id: id.to_string(),
        content_type: t,
        mime_type: None,
        size_bytes: text.len() as u64,
        text_content: Some(text.to_string()),
        preview_text: None,
        primary_storage_uri: None,
        config_json: "{}".to_string(),
    }
}

fn agent() -> AgentDetail {
    AgentDetail {
        id: "agent-1".to_string(),
        main_prompt_override_content: None,
        description_content: Some(content("c-desc", ContentType::Text, "a knight")),
        personality_content: None,
        scenario_content: Some(content("c-scen", ContentType::Text, "a castle")),
        character_note_content: Some(content("c-note", ContentType::Text, "stay brave")),
        post_history_instructions_content: None,
        character_note_role: Some(MessageRole::User),
    }
}

fn profile(with_description: bool) -> UserProfileDetail {
    UserProfileDetail {
        id: "profile-1".to_string(),
        description_content: if with_description {
            Some(content("c-prof", ContentType::Text, "the player"))
        } else {
            None
        },
        injection_role: None,
    }
}

fn preset() -> PresetDetail {
    PresetDetail {
        id: "preset-1".to_string(),
        entries: vec![
            PresetEntryDetail {
                id: "e1".to_string(),
                role: MessageRole::System,
                enabled: true,
                primary_content: content("c-e1", ContentType::Text, "rules"),
            },
            PresetEntryDetail {
                id: "e2".to_string(),
                role: MessageRole::User,
                enabled: false,
                primary_content: content("c-e2", ContentType::Text, "off"),
            },
            PresetEntryDetail {
                id: "e3".to_string(),
                role: MessageRole::Assistant,
                enabled: true,
                primary_content: content("c-e3", ContentType::Text, "style"),
            },
        ],
    }
}

fn lore() -> Vec<MatchedLorebookEntry> {
    vec![MatchedLorebookEntry {
        lorebook_entry_id: "lore-1".to_string(),
        matched_keys: vec!["dragon".to_string()],
        content: content("c-lore", ContentType::Text, "dragons breathe fire"),
        config_json: "{}".to_string(),
    }]
}

fn reference(id: &str, role: &str, t: ContentType, config_json: &str, plugin_id: Option<&str>) -> MessageContentRefView {
    MessageContentRefView {
        id: id.to_string(),
        ref_role: role.to_string(),
        plugin_id: plugin_id.map(str::to_string),
        sort_order: 0,
        content: content(&format!("c-{id}"), t, "payload"),
        config_json: config_json.to_string(),
    }
}

fn message(node: &str, role: MessageRole, policy: ContextPolicy, refs: Vec<MessageContentRefView>) -> MessageVersionView {
    MessageVersionView {
        conversation_id: "conv".to_string(),
        node_id: node.to_string(),
        version_id: format!("v-{node}"),
        role,
        primary_content: content(&format!("c-{node}"), ContentType::Text, "hello"),
        content_refs: refs,
        context_policy: policy,
    }
}

fn kinds(materials: &[HistoryMaterial]) -> Vec<String> {
    materials.iter().map(|m| m.source_kind.clone()).collect()
}

#[test]
fn materials_come_in_assembly_order_and_are_numbered() {
    let messages = vec![
        message(
            "n1",
            MessageRole::User,
            ContextPolicy::Full,
            vec![
                reference("r1", "note", ContentType::Text, "{}", None),
                reference("r2", "image", ContentType::Image, "{}", None),
            ],
        ),
        message("n2", MessageRole::Assistant, ContextPolicy::Exclude, vec![]),
        message("n3", MessageRole::Assistant, ContextPolicy::Full, vec![]),
    ];
    let summaries = vec![
        None,
        None,
        Some(ContextSummary {
            summary_version_id: "s-1".to_string(),
            content: content("c-sum", ContentType::Text, "short"),
        }),
    ];
    let a = agent();
    let p = profile(true);
    let pr = preset();
    let materials = select_history_materials(&messages, &summaries, &lore(), Some(&pr), Some(&p), Some(&a));
    assert_eq!(
        kinds(&materials),
        vec![
            "agent",
            "agent",
            "agent",
            "user_profile",
            "preset_entry",
            "preset_entry",
            "lorebook_entry",
            "message_version",
            "message_ref",
            "message_version",
        ]
    );
    for (i, m) in materials.iter().enumerate() {
        assert_eq!(m.sequence_no, i as i64);
    }
    assert_eq!(materials[0].config_json, r#"{"agent_slot":"description"}"#);
    assert_eq!(materials[1].config_json, r#"{"agent_slot":"scenario"}"#);
    assert_eq!(materials[2].config_json, r#"{"agent_slot":"character_note"}"#);
    assert_eq!(materials[4].preset_entry.as_ref().unwrap().id, "e1");
    assert_eq!(materials[5].preset_entry.as_ref().unwrap().id, "e3");
    assert_eq!(
        materials[8].config_json,
        r#"{"message_node_id":"n1","message_role":"user","message_version_id":"v-n1","ref_role":"image"}"#
    );
    assert_eq!(materials[8].plugin_content.as_ref().unwrap().id, "r2");
    assert_eq!(materials[9].summary_version_id.as_deref(), Some("s-1"));
    assert_eq!(materials[9].message_version.as_ref().unwrap().node_id, "n3");
}

#[test]
fn nothing_given_means_no_materials() {
    let materials = select_history_materials(&[], &[], &[], None, None, None);
    assert!(materials.is_empty());
}

#[test]
fn items_follow_their_materials() {
    let messages = vec![
        message(
            "n1",
            MessageRole::User,
            ContextPolicy::Full,
            vec![reference(
                "r1",
                "tool_response",
                ContentType::ToolResponse,
                r#"{"message_role":"tool","message_node_id":"n1","tool_invocation_id":"t-9","plugin_id":"pl-1"}"#,
                None,
            )],
        ),
        message("n2", MessageRole::Assistant, ContextPolicy::Full, vec![]),
    ];
    let summaries = vec![
        None,
        Some(ContextSummary {
            summary_version_id: "s-2".to_string(),
            content: content("c-sum", ContentType::Text, "short"),
        }),
    ];
    let a = agent();
    let p = profile(false);
    let materials = select_history_materials(&messages, &summaries, &lore(), None, Some(&p), Some(&a));
    let items = materialize_context_items(&materials).unwrap();
    // The profile has no description, so it yields no item.
    assert_eq!(items.len(), materials.len() - 1);

    assert_eq!(items[0].send_role, MessageRole::System);
    assert_eq!(items[0].source_agent_id.as_deref(), Some("agent-1"));
    assert_eq!(items[0].rendered_content.content_id, "c-desc");
    // The character note goes under its own role.
    assert_eq!(items[2].rendered_content.content_id, "c-note");
    assert_eq!(items[2].send_role, MessageRole::User);

    assert_eq!(items[3].source_lorebook_entry_id.as_deref(), Some("lore-1"));
    assert_eq!(items[3].send_role, MessageRole::System);
    assert_eq!(items[3].sequence_no, 4);

    assert_eq!(items[4].source_kind, "message_version");
    assert_eq!(items[4].source_message_node_id.as_deref(), Some("n1"));
    assert_eq!(items[4].source_message_version_id.as_deref(), Some("v-n1"));
    assert_eq!(items[4].send_role, MessageRole::User);

    // A reference reads its role and sources from its own settings.
    assert_eq!(items[5].source_kind, "tool_invocation");
    assert_eq!(items[5].send_role, MessageRole::Tool);
    assert_eq!(items[5].source_message_node_id.as_deref(), Some("n1"));
    assert_eq!(items[5].source_message_version_id, None);
    assert_eq!(items[5].source_tool_invocation_id.as_deref(), Some("t-9"));
    assert_eq!(items[5].source_plugin_id.as_deref(), Some("pl-1"));
    assert_eq!(items[5].rendered_content.content_id, "c-r1");

    // A summary stands in for the message's content.
    assert_eq!(items[6].rendered_content.content_id, "c-sum");
    assert_eq!(items[6].source_summary_version_id.as_deref(), Some("s-2"));
    assert_eq!(items[6].send_role, MessageRole::Assistant);
    assert!(items.iter().all(|item| item.included_in_request && item.source_agent_greeting_id.is_none()));
}

#[test]
fn a_reference_plugin_id_wins_over_its_settings() {
    let messages = vec![message(
        "n1",
        MessageRole::User,
        ContextPolicy::Full,
        vec![reference("r1", "plugin_state", ContentType::Text, r#"{"plugin_id":"from-config","message_role":"bogus"}"#, Some("own"))],
    )];
    let materials = select_history_materials(&messages, &[None], &[], None, None, None);
    let items = materialize_context_items(&materials).unwrap();
    assert_eq!(items.len(), 2);
    assert_eq!(items[1].source_plugin_id.as_deref(), Some("own"));
    assert_eq!(items[1].source_kind, "plugin_content");
    assert_eq!(items[1].send_role, MessageRole::System);
}

#[test]
fn agent_slots_are_named_by_settings() {
    let a = agent();
    assert_eq!(resolve_agent_slot_content(&a, r#"{"agent_slot":"scenario"}"#).unwrap().content_id, "c-scen");
    assert!(resolve_agent_slot_content(&a, r#"{"agent_slot":"personality"}"#).is_none());
    assert!(resolve_agent_slot_content(&a, r#"{"agent_slot":"unknown"}"#).is_none());
    assert!(resolve_agent_slot_content(&a, "{}").is_none());
}

#[test]
fn run_parameters_are_laid_over_model_defaults() {
    assert_eq!(
        merge_request_parameters(r#"{"temperature":0.7,"max_tokens":100}"#, Some(r#"{"temperature":0.2,"top_p":1}"#)),
        r#"{"max_tokens":100,"temperature":0.2,"top_p":1}"#
    );
    assert_eq!(merge_request_parameters(r#"{"a":[1,2]}"#, None), r#"{"a":[1,2]}"#);
    assert_eq!(merge_request_parameters("null", Some("[1]")), "{}");
    assert_eq!(merge_request_parameters("{}", Some(r#"{"stop":"\n"}"#)), r#"{"stop":"\n"}"#);
}

#[test]
fn items_keep_the_order_of_their_materials() {
    let messages = vec![
        message("n1", MessageRole::User, ContextPolicy::Full, vec![reference("r1", "image", ContentType::Image, "{}", None)]),
        message("n2", MessageRole::Assistant, ContextPolicy::Exclude, vec![]),
        message("n3", MessageRole::User, ContextPolicy::Full, vec![]),
    ];
    let a = agent();
    let p = profile(false);
    let pr = preset();
    let materials = select_history_materials(&messages, &[None, None, None], &lore(), Some(&pr), Some(&p), Some(&a));
    let items = materialize_context_items(&materials).unwrap();
    assert!(items.windows(2).all(|w| w[0].sequence_no < w[1].sequence_no));
    assert!(items.iter().all(|item| 0 <= item.sequence_no && (item.sequence_no as usize) < materials.len()));
}
