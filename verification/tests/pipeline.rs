use buyu::domain::{
    ApiChannel, ApiChannelModel, ContentType, ContentWriteInput, ContextPolicy, MessageRole, ProviderChatResponse,
    ProviderMessagePart, ProviderMessagePartKind, StoredContent,
};
use buyu::error::AppError;
use buyu::services::api_channels::{map_channel_model_row, map_channel_row, parse_json, ApiChannelModelRow, ApiChannelRow};
use buyu::services::content::{derive_preview_text, plan_content, prefers_file_ref, resolve_file_ref, FileRefSource};
use buyu::services::content_store::{hex_digest, ContentStorageKind, ContentStore};
use buyu::services::context_builder::{extract_match_text, should_include_message_ref_in_context, MessageContentRefView};
use buyu::services::generation::{
    build_provider_request, content_to_part, extract_text_from_parts, part_to_content_write_input,
    split_response_parts, BuiltContextItem, BuiltGenerationContext,
};
use buyu::services::lorebooks::{evaluate_keyword_match, ensure_prompt_content, key_matches, LorebookEntryKeyDetail};
use buyu::services::summaries::{
    build_summary_provider_request, pick_best_usage, MessageVersionView, ScopeSpec, SummaryUsageRow, SummaryUsageScope,
};
use buyu::services::transforms::{
    apply_regex_match_gate, apply_regex_remove, apply_regex_replace, is_textual_content_type,
    normalize_max_replacements, validate_binding_scope, validate_binding_stages, validate_pipeline_kind,
    validate_step_type, build_ephemeral_text_content, TransformBindingInput, TransformStepRow,
};

fn content(t: ContentType, text: Option<&str>) -> StoredContent {
    StoredContent {
        content_id: "c".to_string(),
        content_type: t,
        mime_type: None,
        size_bytes: 4,
        text_content: text.map(str::to_string),
        preview_text: Some("prev".to_string()),
        primary_storage_uri: None,
        config_json: "{}".to_string(),
    }
}

fn step(step_type: &str, pattern: Option<&str>, replacement: Option<&str>, flags: &str, max: Option<i64>, stop: bool) -> TransformStepRow {
    TransformStepRow {
        id: "s".to_string(),
        pipeline_id: "p".to_string(),
        step_order: 0,
        step_type: step_type.to_string(),
        pattern: pattern.map(str::to_string),
        replacement_template: replacement.map(str::to_string),
        regex_flags: flags.to_string(),
        max_replacements: max,
        stop_on_match: stop,
        child_pipeline_id: None,
        config_json: "{}".to_string(),
    }
}

#[test]
fn regex_steps_rewrite_remove_and_gate() {
    let out = apply_regex_replace(&step("regex_replace", Some("cat"), Some("dog"), "", None, true), "cat cat".to_string()).unwrap();
    assert_eq!(out.text, "dog dog");
    assert!(out.changed);
    assert!(out.stop_pipeline);
    let out = apply_regex_replace(&step("regex_replace", Some("CAT"), Some("dog"), "i", Some(1), false), "cat cat".to_string()).unwrap();
    assert_eq!(out.text, "dog cat");
    assert!(!out.stop_pipeline);
    let out = apply_regex_replace(&step("regex_replace", Some("(\\w+)@x"), Some("$1"), "", None, false), "me@x".to_string()).unwrap();
    assert_eq!(out.text, "me");
    let out = apply_regex_replace(&step("regex_replace", Some("zzz"), Some("y"), "", None, true), "abc".to_string()).unwrap();
    assert!(!out.changed);
    assert!(!out.stop_pipeline);
    assert_eq!(
        apply_regex_replace(&step("regex_replace", None, Some("y"), "", None, false), "a".to_string()).unwrap_err(),
        AppError::validation("VALIDATION_ERROR", "regex_replace step requires pattern")
    );
    assert_eq!(
        apply_regex_replace(&step("regex_replace", Some("a"), None, "", None, false), "a".to_string()).unwrap_err(),
        AppError::validation("VALIDATION_ERROR", "regex_replace step requires replacement_template")
    );
    assert_eq!(
        apply_regex_replace(&step("regex_replace", Some("a"), Some("b"), "", Some(-1), false), "a".to_string()).unwrap_err(),
        AppError::validation("VALIDATION_ERROR", "max_replacements must be >= 0")
    );
    let err = apply_regex_replace(&step("regex_replace", Some("("), Some("b"), "", None, false), "a".to_string()).unwrap_err();
    assert!(err.message.starts_with("invalid regex '(': "));
    let out = apply_regex_remove(&step("regex_remove", Some("\\s+"), None, "", None, false), "a  b c".to_string()).unwrap();
    assert_eq!(out.text, "abc");
    let out = apply_regex_remove(&step("regex_remove", Some("^x.*$"), None, "m", None, false), "keep\nxdrop\nkeep".to_string()).unwrap();
    assert_eq!(out.text, "keep\n\nkeep");
    let gate = apply_regex_match_gate(&step("regex_match_gate", Some("go"), None, "", None, false), "go on".to_string()).unwrap();
    assert!(!gate.stop_pipeline);
    assert_eq!(gate.text, "go on");
    let gate = apply_regex_match_gate(&step("regex_match_gate", Some("go"), None, "", None, false), "stay".to_string()).unwrap();
    assert!(gate.stop_pipeline);
    assert!(!gate.changed);
}

fn binding() -> TransformBindingInput {
    TransformBindingInput {
        pipeline_id: "p".to_string(),
        conversation_id: Some("c".to_string()),
        agent_id: None,
        preset_id: None,
        workflow_def_node_id: None,
        apply_viewer: true,
        apply_request: false,
        apply_file: false,
        sort_order: 0,
        enabled: true,
        config_json: "{}".to_string(),
    }
}

#[test]
fn transform_rules() {
    assert!(validate_binding_scope(&binding()).is_ok());
    let mut two = binding();
    two.agent_id = Some("a".to_string());
    assert_eq!(
        validate_binding_scope(&two).unwrap_err(),
        AppError::validation("VALIDATION_ERROR", "transform binding must target exactly one scope")
    );
    let mut none = binding();
    none.apply_viewer = false;
    assert_eq!(
        validate_binding_stages(&none).unwrap_err(),
        AppError::validation("VALIDATION_ERROR", "transform binding must enable at least one stage")
    );
    assert!(validate_pipeline_kind("composite").is_ok());
    assert_eq!(
        validate_pipeline_kind("lua").unwrap_err(),
        AppError::validation("VALIDATION_ERROR", "unsupported transform pipeline_kind 'lua'")
    );
    assert!(validate_step_type("pipeline_ref").is_ok());
    assert_eq!(
        validate_step_type("shell").unwrap_err(),
        AppError::validation("VALIDATION_ERROR", "unsupported transform step_type 'shell'")
    );
    assert!(is_textual_content_type(ContentType::Html));
    assert!(!is_textual_content_type(ContentType::Image));
    assert_eq!(normalize_max_replacements(Some(0)).unwrap(), Some(0));
    assert_eq!(normalize_max_replacements(Some(3)).unwrap(), Some(3));
    assert_eq!(normalize_max_replacements(None).unwrap(), None);
    let e = build_ephemeral_text_content(&content(ContentType::Text, Some("old")), "新的".to_string());
    assert_eq!(e.text_content.as_deref(), Some("新的"));
    assert_eq!(e.preview_text.as_deref(), Some("新的"));
    assert_eq!(e.size_bytes, 6);
    assert_eq!(derive_preview_text(&"x".repeat(2000)).len(), 1024);
}

fn key(pattern: &str, match_type: &str, case_sensitive: bool, enabled: bool) -> LorebookEntryKeyDetail {
    LorebookEntryKeyDetail {
        id: pattern.to_string(),
        pattern_text: pattern.to_string(),
        match_type: match_type.to_string(),
        case_sensitive,
        enabled,
    }
}

#[test]
fn lorebook_keys_and_logic() {
    let corpus = "The Dragon sleeps\nin the cave";
    assert!(key_matches(&key("dragon", "plain", false, true), corpus).unwrap());
    assert!(!key_matches(&key("dragon", "plain", true, true), corpus).unwrap());
    assert!(key_matches(&key("dra+gon", "regex", false, true), corpus).unwrap());
    assert!(!key_matches(&key("^cave", "regex", false, true), corpus).unwrap());
    let err = key_matches(&key("[", "regex", false, true), corpus).unwrap_err();
    assert!(err.message.starts_with("invalid lorebook entry regex '[': "));
    let keys = vec![key("dragon", "plain", false, true), key("wizard", "plain", false, true), key("cave", "plain", false, false)];
    let any = evaluate_keyword_match(&keys, "and_any", corpus).unwrap().unwrap();
    assert_eq!(any.matched_keys, vec!["dragon".to_string()]);
    assert_eq!(any.matched_count, 1);
    assert_eq!(any.total_count, 2);
    assert!(evaluate_keyword_match(&keys, "and_all", corpus).unwrap().is_none());
    assert!(evaluate_keyword_match(&keys, "not_any", corpus).unwrap().is_none());
    assert!(evaluate_keyword_match(&keys, "not_all", corpus).unwrap().is_some());
    assert!(evaluate_keyword_match(&keys[2..], "and_any", corpus).unwrap().is_none());
    assert!(ensure_prompt_content(&ContentType::Json).is_ok());
    assert_eq!(
        ensure_prompt_content(&ContentType::Audio).unwrap_err(),
        AppError::validation("VALIDATION_ERROR", "lorebook entry content must be textual")
    );
}

fn usage(id: &str, priority: i64, updated_at: i64) -> SummaryUsageRow {
    SummaryUsageRow {
        id: id.to_string(),
        summary_group_id: "g".to_string(),
        summary_version_id: None,
        usage_scope: "both".to_string(),
        target_kind: "conversation".to_string(),
        target_message_version_id: None,
        target_start_node_id: None,
        target_end_node_id: None,
        conversation_id: Some("conv".to_string()),
        activation_mode: "manual".to_string(),
        replace_from_node_id: None,
        replace_after_message_count: None,
        replace_after_total_bytes: None,
        enabled: true,
        priority,
        config_json: "{}".to_string(),
        created_at: 0,
        updated_at,
    }
}

fn message(node: &str) -> MessageVersionView {
    MessageVersionView {
        conversation_id: "conv".to_string(),
        node_id: node.to_string(),
        version_id: format!("v-{node}"),
        role: MessageRole::User,
        primary_content: content(ContentType::Text, Some("hello")),
        content_refs: Vec::new(),
        context_policy: ContextPolicy::Full,
    }
}

#[test]
fn best_summary_usage_is_chosen() {
    let order: Vec<String> = vec!["n1".to_string(), "n2".to_string(), "n3".to_string()];
    let usages = vec![usage("low", 1, 50), usage("high-old", 5, 10), usage("high-new", 5, 20), usage("high-new-twin", 5, 20)];
    let best = pick_best_usage(&usages, &message("n2"), SummaryUsageScope::Viewer, 3, 100, &order).unwrap();
    assert_eq!(best.id, "high-new");
    let mut viewer_only = usages.clone();
    for u in viewer_only.iter_mut() {
        u.usage_scope = "viewer".to_string();
    }
    assert!(pick_best_usage(&viewer_only, &message("n2"), SummaryUsageScope::Request, 3, 100, &order).is_none());
    let mut range = usage("range", 0, 0);
    range.target_kind = "node_range".to_string();
    range.target_start_node_id = Some("n3".to_string());
    range.target_end_node_id = Some("n2".to_string());
    assert!(pick_best_usage(&[range.clone()], &message("n2"), SummaryUsageScope::Both, 3, 100, &order).is_some());
    assert!(pick_best_usage(&[range.clone()], &message("n1"), SummaryUsageScope::Both, 3, 100, &order).is_none());
    let mut auto = usage("auto", 0, 0);
    auto.activation_mode = "auto".to_string();
    auto.replace_after_message_count = Some(4);
    assert!(pick_best_usage(&[auto.clone()], &message("n2"), SummaryUsageScope::Both, 3, 100, &order).is_none());
    auto.replace_after_message_count = Some(3);
    auto.replace_from_node_id = Some("n2".to_string());
    assert!(pick_best_usage(&[auto.clone()], &message("n2"), SummaryUsageScope::Both, 3, 100, &order).is_some());
    assert!(pick_best_usage(&[auto], &message("n1"), SummaryUsageScope::Both, 3, 100, &order).is_none());
    let mut disabled = usage("off", 9, 9);
    disabled.enabled = false;
    assert!(pick_best_usage(&[disabled], &message("n1"), SummaryUsageScope::Both, 3, 100, &order).is_none());
    assert_eq!(
        ScopeSpec::NodeRange { start_node_id: "a".to_string(), end_node_id: "b".to_string() }.to_parts(),
        ("node_range", None, Some("a"), Some("b"), None)
    );
    assert_eq!(ScopeSpec::Conversation.to_parts(), ("conversation", None, None, None, None));
}

fn channel() -> ApiChannel {
    ApiChannel {
        id: "ch".to_string(),
        name: "Main".to_string(),
        channel_type: "openai_compatible".to_string(),
        base_url: "https://x".to_string(),
        auth_type: "bearer".to_string(),
        api_key: None,
        models_endpoint: None,
        chat_endpoint: None,
        stream_endpoint: None,
        models_mode: "manual".to_string(),
        enabled: true,
        sort_order: 0,
        config_json: "{}".to_string(),
        created_at: 1,
        updated_at: 2,
    }
}

fn model() -> ApiChannelModel {
    ApiChannelModel {
        id: "m".to_string(),
        channel_id: "ch".to_string(),
        model_id: "gpt".to_string(),
        display_name: None,
        model_type: None,
        context_window: None,
        max_output_tokens: None,
        capabilities_json: "{}".to_string(),
        pricing_json: "{}".to_string(),
        default_parameters_json: "{}".to_string(),
        sort_order: 0,
        config_json: "{}".to_string(),
    }
}

#[test]
fn provider_requests_and_replies() {
    let image = content(ContentType::Image, None);
    let part = content_to_part(&image);
    assert_eq!(part.kind, ProviderMessagePartKind::ImageRef);
    assert_eq!(content_to_part(&content(ContentType::PluginState, None)).kind, ProviderMessagePartKind::PluginPayload);
    let context = BuiltGenerationContext {
        api_channel: channel(),
        api_channel_model: model(),
        request_parameters_json: "{\"temperature\":0.2}".to_string(),
        items: vec![
            BuiltContextItem { send_role: MessageRole::System, rendered_content: content(ContentType::Text, Some("sys")), config_json: "{}".to_string() },
            BuiltContextItem { send_role: MessageRole::User, rendered_content: image.clone(), config_json: "{\"i\":1}".to_string() },
        ],
    };
    let request = build_provider_request(&context);
    assert_eq!(request.messages.len(), 2);
    assert_eq!(request.messages[0].role, MessageRole::System);
    assert_eq!(request.messages[0].parts[0].text.as_deref(), Some("sys"));
    assert_eq!(request.messages[1].metadata_json, "{\"i\":1}");
    assert_eq!(request.api_channel, channel());
    let reply = ProviderChatResponse {
        parts: vec![
            ProviderMessagePart { kind: ProviderMessagePartKind::Text, text: Some("Hi".to_string()), content: None, metadata_json: "{}".to_string() },
            ProviderMessagePart { kind: ProviderMessagePartKind::ReasoningTrace, text: Some("why".to_string()), content: None, metadata_json: "{}".to_string() },
            ProviderMessagePart { kind: ProviderMessagePartKind::JsonPayload, text: Some("{}".to_string()), content: None, metadata_json: "{}".to_string() },
        ],
        finish_reason: Some("stop".to_string()),
        prompt_tokens: None,
        completion_tokens: None,
        total_tokens: None,
        raw_response_json: None,
    };
    let (primary, refs) = split_response_parts(&reply).unwrap();
    assert_eq!(primary.text_content.as_deref(), Some("Hi"));
    assert_eq!(primary.mime_type.as_deref(), Some("text/plain"));
    assert_eq!(refs.len(), 2);
    assert_eq!(refs[0].0, "reasoning_trace");
    assert_eq!(refs[1].0, "attachment");
    assert_eq!(refs[1].1.mime_type.as_deref(), Some("application/json"));
    assert_eq!(extract_text_from_parts(&reply.parts), "Hiwhy{}");
    let empty = ProviderChatResponse { parts: vec![], ..reply };
    assert_eq!(
        split_response_parts(&empty).unwrap_err(),
        AppError::validation("VALIDATION_ERROR", "provider response contained no usable content")
    );
    let from_content = part_to_content_write_input(&part).unwrap();
    assert_eq!(from_content.content_type, ContentType::Image);
    assert_eq!(from_content.text_content.as_deref(), Some("prev"));
    assert_eq!(from_content.size_bytes_hint, Some(4));
}

fn write_input(t: ContentType, text: Option<&str>) -> ContentWriteInput {
    ContentWriteInput {
        content_type: t,
        mime_type: None,
        text_content: text.map(str::to_string),
        source_file_path: None,
        primary_storage_uri: None,
        size_bytes_hint: None,
        preview_text: None,
        config_json: "{}".to_string(),
    }
}

#[test]
fn content_plans() {
    let store = ContentStore::new("/r".to_string());
    let plan = plan_content(&store, &write_input(ContentType::Text, Some("abc")), None, None).unwrap();
    assert_eq!(plan.storage_kind, ContentStorageKind::Inline);
    assert_eq!(plan.size_bytes, 3);
    assert_eq!(plan.preview_text.as_deref(), Some("abc"));
    assert_eq!(plan.sha256, Some(hex_digest(b"abc")));
    assert_eq!(plan.row_text.as_deref(), Some("abc"));
    assert_eq!(plan.chunk_count, 0);
    let big = "x".repeat(300_000);
    let plan = plan_content(&store, &write_input(ContentType::Markdown, Some(&big)), None, None).unwrap();
    assert_eq!(plan.storage_kind, ContentStorageKind::Chunked);
    assert_eq!(plan.row_text, None);
    assert_eq!(plan.chunk_count, 1);
    assert_eq!(plan.preview_text.map(|p| p.len()), Some(1024));
    let mut from_file = write_input(ContentType::Text, None);
    from_file.source_file_path = Some("/tmp/a.txt".to_string());
    let plan = plan_content(&store, &from_file, Some("file body".to_string()), Some(9)).unwrap();
    assert_eq!(plan.text_content.as_deref(), Some("file body"));
    let mut image = write_input(ContentType::Image, None);
    image.source_file_path = Some("/tmp/a.png".to_string());
    let plan = plan_content(&store, &image, None, Some(2048)).unwrap();
    assert_eq!(plan.storage_kind, ContentStorageKind::FileRef);
    assert_eq!(plan.size_bytes, 2048);
    assert_eq!(plan.sha256, None);
    assert_eq!(plan.row_text, None);
    assert_eq!(plan.chunk_count, 0);
    let plan = plan_content(&store, &image, None, None).unwrap();
    assert_eq!(plan.storage_kind, ContentStorageKind::FileRef);
    assert!(prefers_file_ref(&image));
    assert_eq!(
        plan_content(&store, &write_input(ContentType::Text, None), None, None).unwrap_err(),
        AppError::validation("VALIDATION_ERROR", "inline content requires text_content")
    );
    assert_eq!(resolve_file_ref(&image).unwrap(), FileRefSource::Import("/tmp/a.png".to_string()));
    let mut linked = write_input(ContentType::File, None);
    linked.primary_storage_uri = Some("/blobs/x".to_string());
    linked.size_bytes_hint = Some(7);
    match resolve_file_ref(&linked).unwrap() {
        FileRefSource::Existing(f) => {
            assert_eq!(f.primary_storage_uri, "/blobs/x");
            assert_eq!(f.size_bytes, 7);
        }
        other => panic!("unexpected {other:?}"),
    }
    assert_eq!(
        resolve_file_ref(&write_input(ContentType::File, None)).unwrap_err(),
        AppError::validation("VALIDATION_ERROR", "file_ref content requires source_file_path or primary_storage_uri")
    );
}

#[test]
fn stored_rows_must_hold_json() {
    assert_eq!(parse_json("{\"a\":[1,2]}", "t.c").unwrap(), "{\"a\":[1,2]}");
    let err = parse_json("{oops", "t.c").unwrap_err();
    assert!(err.message.starts_with("failed to parse t.c as json: "));
    let row = ApiChannelRow {
        id: "ch".to_string(),
        name: "Main".to_string(),
        channel_type: "openai_compatible".to_string(),
        base_url: "https://x".to_string(),
        auth_type: "bearer".to_string(),
        api_key: None,
        models_endpoint: None,
        chat_endpoint: None,
        stream_endpoint: None,
        models_mode: "manual".to_string(),
        enabled: true,
        sort_order: 0,
        config_json: "{}".to_string(),
        created_at: 1,
        updated_at: 2,
    };
    assert_eq!(map_channel_row(row.clone()).unwrap(), channel());
    let bad = ApiChannelRow { config_json: "nope".to_string(), ..row };
    assert!(map_channel_row(bad).unwrap_err().message.starts_with("failed to parse api_channels.config_json as json: "));
    let model_row = ApiChannelModelRow {
        id: "m".to_string(),
        channel_id: "ch".to_string(),
        model_id: "gpt".to_string(),
        display_name: None,
        model_type: None,
        context_window: None,
        max_output_tokens: None,
        capabilities_json: "{}".to_string(),
        pricing_json: "[".to_string(),
        default_parameters_json: "{}".to_string(),
        sort_order: 0,
        config_json: "{}".to_string(),
    };
    assert!(map_channel_model_row(model_row.clone()).unwrap_err().message.starts_with("failed to parse api_channel_models.pricing_json as json: "));
    let good = ApiChannelModelRow { pricing_json: "{}".to_string(), ..model_row };
    assert_eq!(map_channel_model_row(good).unwrap(), model());
}

#[test]
fn message_refs_in_context() {
    let reference = |t: ContentType, role: &str| MessageContentRefView {
        id: "r".to_string(),
        ref_role: role.to_string(),
        plugin_id: None,
        sort_order: 0,
        content: content(t, None),
        config_json: "{}".to_string(),
    };
    assert!(should_include_message_ref_in_context(&reference(ContentType::Image, "note")));
    assert!(should_include_message_ref_in_context(&reference(ContentType::Text, "attachment")));
    assert!(!should_include_message_ref_in_context(&reference(ContentType::Text, "note")));
    assert_eq!(extract_match_text(&message("n1")).as_deref(), Some("hello"));
    let mut m = message("n1");
    m.primary_content.text_content = None;
    assert_eq!(extract_match_text(&m).as_deref(), Some("prev"));
}

#[test]
fn summary_requests_send_previews_as_text() {
    let mut with_preview = content(ContentType::Image, None);
    with_preview.preview_text = Some("a cat".to_string());
    let items = vec![
        BuiltContextItem { send_role: MessageRole::User, rendered_content: content(ContentType::Text, Some("hi")), config_json: "{\"k\":1}".to_string() },
        BuiltContextItem { send_role: MessageRole::Assistant, rendered_content: with_preview.clone(), config_json: "{}".to_string() },
    ];
    let request = build_summary_provider_request(channel(), model(), "{}".to_string(), &items);
    assert_eq!(request.messages.len(), 2);
    assert_eq!(request.messages[0].parts[0].text, Some("hi".to_string()));
    assert_eq!(request.messages[0].parts[0].metadata_json, "{\"k\":1}");
    assert_eq!(request.messages[1].role, MessageRole::Assistant);
    assert_eq!(request.messages[1].parts[0].kind, ProviderMessagePartKind::ImageRef);
    assert_eq!(request.messages[1].parts[0].text, Some("a cat".to_string()));
    assert_eq!(request.messages[1].parts[0].content, Some(with_preview));
}
