use buyu::domain::ContentType;
use buyu::error::ErrorKind;
use buyu::services::content::ensure_textual_content;
use buyu::services::context_builder::{
    check_model_channel, choose_channel, first_model, ref_source_kind, resolve_binding, ChannelBinding, ChannelChoice,
    ResourceBinding,
};
use buyu::services::lorebooks::{entry_activation, match_corpus, EntryActivation};
use buyu::services::variables::{validate_value_input, VariableValueType};

fn binding(id: &str, kind: &str, enabled: bool) -> ResourceBinding {
    ResourceBinding { resource_id: id.to_string(), binding_type: kind.to_string(), enabled }
}

fn channel_binding(channel: &str, model: Option<&str>, kind: &str, enabled: bool) -> ChannelBinding {
    ChannelBinding {
        channel_id: channel.to_string(),
        channel_model_id: model.map(|m| m.to_string()),
        binding_type: kind.to_string(),
        enabled,
    }
}

#[test]
fn conversation_binding_wins_over_agent_binding() {
    let conversation = vec![binding("p-off", "active", false), binding("p-conv", "active", true)];
    let agent = vec![binding("p-agent", "default", true)];
    assert_eq!(
        resolve_binding(&conversation, Some(&agent)),
        Some(("p-conv".to_string(), "conversation".to_string()))
    );
    let conversation = vec![binding("p-x", "default", true)];
    assert_eq!(resolve_binding(&conversation, Some(&agent)), Some(("p-agent".to_string(), "agent".to_string())));
    assert_eq!(resolve_binding(&conversation, None), None);
    assert_eq!(resolve_binding(&[], Some(&[binding("p", "default", false)])), None);
}

#[test]
fn channel_choice_follows_the_precedence() {
    let conversation = vec![channel_binding("c-conv", Some("m-conv"), "active", true)];
    let agent = vec![channel_binding("c-agent", None, "default", true)];
    assert_eq!(
        choose_channel(Some("c-run"), Some("m-run"), &conversation, Some(&agent)).unwrap(),
        ChannelChoice::RuntimeModel { channel_id: Some("c-run".to_string()), model_id: "m-run".to_string() }
    );
    assert_eq!(
        choose_channel(Some("c-run"), None, &conversation, Some(&agent)).unwrap(),
        ChannelChoice::RuntimeChannel { channel_id: "c-run".to_string() }
    );
    assert_eq!(
        choose_channel(None, None, &conversation, Some(&agent)).unwrap(),
        ChannelChoice::Bound {
            channel_id: "c-conv".to_string(),
            model_id: Some("m-conv".to_string()),
            scope: "conversation".to_string()
        }
    );
    assert_eq!(
        choose_channel(None, None, &[], Some(&agent)).unwrap(),
        ChannelChoice::Bound { channel_id: "c-agent".to_string(), model_id: None, scope: "agent".to_string() }
    );
    let error = choose_channel(None, None, &[], None).unwrap_err();
    assert_eq!(error.kind, ErrorKind::Validation);
    assert_eq!(error.message, "no active api channel/model could be resolved");
}

#[test]
fn runtime_model_must_belong_to_its_channel() {
    assert!(check_model_channel("c1", "c1").is_ok());
    assert_eq!(
        check_model_channel("c1", "c2").unwrap_err().message,
        "override_api_channel_model_id does not belong to override_api_channel_id"
    );
}

#[test]
fn a_channel_without_models_cannot_serve() {
    assert_eq!(first_model("c1", vec!["m1", "m2"]).unwrap(), "m1");
    assert_eq!(first_model::<&str>("c1", Vec::new()).unwrap_err().message, "api channel 'c1' has no models");
}

#[test]
fn content_refs_are_recorded_by_role_then_type() {
    assert_eq!(ref_source_kind("tool_response", ContentType::Image), "tool_invocation");
    assert_eq!(ref_source_kind("plugin_state", ContentType::Text), "plugin_content");
    assert_eq!(ref_source_kind("attachment", ContentType::RagExcerpt), "rag_ref");
    assert_eq!(ref_source_kind("attachment", ContentType::Image), "message_ref");
    assert_eq!(ref_source_kind("image", ContentType::ProviderSignature), "provider_signature");
}

#[test]
fn only_textual_content_is_accepted_where_text_is_needed() {
    assert!(ensure_textual_content(ContentType::Markdown, "agent greeting").is_ok());
    let error = ensure_textual_content(ContentType::Image, "agent greeting").unwrap_err();
    assert_eq!(error.kind, ErrorKind::Validation);
    assert_eq!(error.message, "agent greeting must be textual");
}

#[test]
fn lorebook_entries_take_part_by_strategy() {
    assert_eq!(entry_activation(true, false, "constant"), EntryActivation::Constant);
    assert_eq!(entry_activation(true, false, "keyword"), EntryActivation::Keyword);
    assert_eq!(entry_activation(true, false, "vector"), EntryActivation::Skipped);
    assert_eq!(entry_activation(false, false, "constant"), EntryActivation::Skipped);
    assert_eq!(entry_activation(false, true, "keyword"), EntryActivation::Keyword);
    assert_eq!(match_corpus(&["a".to_string(), "b c".to_string()]), "a\nb c");
    assert_eq!(match_corpus(&[]), "");
}

#[test]
fn variable_values_must_suit_their_type() {
    assert!(validate_value_input(VariableValueType::String, "\"hi\"", false).is_ok());
    assert_eq!(
        validate_value_input(VariableValueType::String, "3", false).unwrap_err().message,
        "string variable requires value_json to be a string"
    );
    assert_eq!(
        validate_value_input(VariableValueType::String, "\"hi\"", true).unwrap_err().message,
        "string variable does not accept value_content"
    );
    assert!(validate_value_input(VariableValueType::Number, "-2.5", false).is_ok());
    assert_eq!(
        validate_value_input(VariableValueType::Number, "true", false).unwrap_err().message,
        "number variable requires value_json to be a number"
    );
    assert!(validate_value_input(VariableValueType::Boolean, "false", false).is_ok());
    assert_eq!(
        validate_value_input(VariableValueType::Boolean, "null", false).unwrap_err().message,
        "boolean variable requires value_json to be a boolean"
    );
    assert!(validate_value_input(VariableValueType::Json, "{\"a\": [1]}", false).is_ok());
    assert_eq!(
        validate_value_input(VariableValueType::Json, "{}", true).unwrap_err().message,
        "json variable does not accept value_content"
    );
    assert!(validate_value_input(VariableValueType::ContentRef, "null", true).is_ok());
    assert_eq!(
        validate_value_input(VariableValueType::ContentRef, "null", false).unwrap_err().message,
        "content_ref variable requires value_content"
    );
}
