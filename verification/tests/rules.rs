use std::cell::RefCell;

use buyu::channel_types::config_for;
use buyu::domain::{ContentType, ContentWriteInput, ProviderChatResponse, ProviderMessagePart, ProviderMessagePartKind, StoredContent};
use buyu::error::{AppError, ErrorKind};
use buyu::models::agent::{Agent, AgentPatch, CreateAgentInput, NewAgent, UpdateAgentInput};
use buyu::models::message::PromptMessage;
use buyu::repo::agent_repo::AgentRepo;
use buyu::services::agent_service::{self, normalize_optional_text, normalize_required_text};
use buyu::services::channel_service::Clock;
use buyu::services::conversation_service::{merge_optional_patch, normalize_title};
use buyu::services::message_service::{
    build_prompt_with_system, estimate_tokens, is_order_key_conflict, normalize_message_content,
};
use buyu::services::runs::validate_run_scope;
use buyu::services::summaries::extract_summary_content_input;
use buyu::services::variables::{enforce_action_permission, validate_scope_matches, VariableActionKind, VariableDef, VariableLockRow};

struct FixedClock(i64);

impl Clock for FixedClock {
    fn now_ms(&self) -> i64 {
        self.0
    }
}

#[derive(Default)]
struct MemoryAgents {
    agents: RefCell<Vec<Agent>>,
}

impl AgentRepo for MemoryAgents {
    fn insert(&self, new_agent: &NewAgent) -> Result<Agent, String> {
        let agent = Agent {
            id: new_agent.id.clone(),
            name: new_agent.name.clone(),
            system_prompt: new_agent.system_prompt.clone(),
            avatar_uri: new_agent.avatar_uri.clone(),
            enabled: new_agent.enabled,
            created_at: new_agent.created_at,
            updated_at: new_agent.updated_at,
        };
        self.agents.borrow_mut().push(agent.clone());
        Ok(agent)
    }
    fn list(&self, include_disabled: bool) -> Result<Vec<Agent>, String> {
        Ok(self.agents.borrow().iter().filter(|a| include_disabled || a.enabled).cloned().collect())
    }
    fn get(&self, id: &str) -> Result<Option<Agent>, String> {
        Ok(self.agents.borrow().iter().find(|a| a.id == id).cloned())
    }
    fn update(&self, id: &str, patch: &AgentPatch) -> Result<Option<Agent>, String> {
        let mut agents = self.agents.borrow_mut();
        let Some(agent) = agents.iter_mut().find(|a| a.id == id) else {
            return Ok(None);
        };
        if let Some(name) = &patch.name {
            agent.name = name.clone();
        }
        if let Some(prompt) = &patch.system_prompt {
            agent.system_prompt = prompt.clone();
        }
        if let Some(enabled) = patch.enabled {
            agent.enabled = enabled;
        }
        agent.updated_at = patch.updated_at;
        Ok(Some(agent.clone()))
    }
    fn delete(&self, id: &str) -> Result<bool, String> {
        let mut agents = self.agents.borrow_mut();
        let before = agents.len();
        agents.retain(|a| a.id != id);
        Ok(agents.len() != before)
    }
}

#[test]
fn agents_are_created_trimmed_and_updated() {
    let repo = MemoryAgents::default();
    let agent = agent_service::create_with(
        &repo,
        &FixedClock(5),
        CreateAgentInput { name: "  Helper ".to_string(), system_prompt: Some("  ".to_string()) },
    )
    .unwrap();
    assert_eq!(agent.name, "Helper");
    assert_eq!(agent.system_prompt, None);
    assert!(agent.enabled);
    assert_eq!(agent.created_at, 5);
    assert_eq!(agent.id.len(), 36);
    let err = agent_service::create_with(
        &repo,
        &FixedClock(5),
        CreateAgentInput { name: "\t".to_string(), system_prompt: None },
    )
    .unwrap_err();
    assert_eq!(err, AppError::validation("VALIDATION_ERROR", "name must not be empty"));
    let updated = agent_service::update_with(
        &repo,
        &FixedClock(9),
        &agent.id,
        UpdateAgentInput { system_prompt: Some(Some(" be brief ".to_string())), ..UpdateAgentInput::default() },
    )
    .unwrap();
    assert_eq!(updated.system_prompt.as_deref(), Some("be brief"));
    assert_eq!(updated.updated_at, 9);
    assert_eq!(
        agent_service::get_with(&repo, "none").unwrap_err(),
        AppError::not_found("agent 'none' not found")
    );
    agent_service::delete_with(&repo, &agent.id).unwrap();
    assert_eq!(
        agent_service::delete_with(&repo, &agent.id).unwrap_err(),
        AppError::not_found(&format!("agent '{}' not found", agent.id))
    );
    assert_eq!(agent_service::list_with(&repo, true).unwrap().len(), 0);
}

#[test]
fn text_normalisation_rules() {
    assert_eq!(normalize_required_text("title", "  a b ").unwrap(), "a b");
    assert_eq!(
        normalize_required_text("title", " ").unwrap_err(),
        AppError::validation("VALIDATION_ERROR", "title must not be empty")
    );
    assert_eq!(normalize_optional_text(Some("\u{a0}x\u{2003}".to_string())), Some("x".to_string()));
    assert_eq!(normalize_title(None).unwrap(), "新会话");
    assert_eq!(normalize_title(Some(" Trip ".to_string())).unwrap(), "Trip");
    assert_eq!(
        normalize_title(Some("  ".to_string())).unwrap_err(),
        AppError::validation("VALIDATION_ERROR", "title must not be empty")
    );
    assert_eq!(merge_optional_patch(Some("a"), None), Some("a".to_string()));
    assert_eq!(merge_optional_patch(Some("a"), Some(&None)), None);
    assert_eq!(merge_optional_patch(None, Some(&Some("b".to_string()))), Some("b".to_string()));
    assert_eq!(normalize_message_content(" hi ").unwrap(), "hi");
    assert_eq!(
        normalize_message_content("\n").unwrap_err(),
        AppError::validation("VALIDATION_ERROR", "content must not be empty")
    );
}

fn prompt(role: &str, content: &str) -> PromptMessage {
    PromptMessage { role: role.to_string(), content: content.to_string(), images: Vec::new() }
}

#[test]
fn prompt_rules() {
    let agent = Agent {
        id: "a".to_string(),
        name: "A".to_string(),
        system_prompt: Some("  You are terse. ".to_string()),
        avatar_uri: None,
        enabled: true,
        created_at: 0,
        updated_at: 0,
    };
    let messages = build_prompt_with_system(&agent, vec![prompt("user", "hi")]);
    assert_eq!(messages.len(), 2);
    assert_eq!(messages[0], prompt("system", "You are terse."));
    assert_eq!(messages[1], prompt("user", "hi"));
    let mut silent = agent.clone();
    silent.system_prompt = Some("   ".to_string());
    assert_eq!(build_prompt_with_system(&silent, vec![prompt("user", "hi")]), vec![prompt("user", "hi")]);
    assert_eq!(estimate_tokens(&[]), 0);
    assert_eq!(estimate_tokens(&[prompt("user", "hello")]), 3);
    assert_eq!(estimate_tokens(&[prompt("user", "你好")]), 3);
    assert!(is_order_key_conflict(
        "UNIQUE constraint failed: message_nodes.conversation_id, message_nodes.order_key"
    ));
    assert!(!is_order_key_conflict("UNIQUE constraint failed: message_nodes.id"));
}

fn def() -> VariableDef {
    VariableDef {
        id: "v".to_string(),
        var_key: "mood".to_string(),
        name: "Mood".to_string(),
        value_type: "string".to_string(),
        scope_type: "conversation".to_string(),
        namespace: "default".to_string(),
        is_user_editable: false,
        is_plugin_editable: true,
        ai_can_create: true,
        ai_can_update: false,
        ai_can_delete: false,
        ai_can_lock: false,
        ai_can_unlock_own_lock: true,
        ai_can_unlock_any_lock: false,
        default_json: "null".to_string(),
        config_json: "{}".to_string(),
        created_at: 0,
        updated_at: 0,
    }
}

fn lock(owner_kind: &str, owner: Option<&str>) -> VariableLockRow {
    VariableLockRow {
        id: "l".to_string(),
        variable_value_id: "vv".to_string(),
        lock_kind: "write".to_string(),
        owner_kind: owner_kind.to_string(),
        owner_ref_id: owner.map(str::to_string),
        unlock_policy: "owner".to_string(),
        active: true,
        config_json: "{}".to_string(),
        created_at: 0,
        updated_at: 0,
    }
}

#[test]
fn variable_permissions() {
    let d = def();
    assert_eq!(
        enforce_action_permission(&d, VariableActionKind::Update, "user", None, None).unwrap_err(),
        AppError::validation("VALIDATION_ERROR", "user is not allowed to Update variable 'mood'")
    );
    assert!(enforce_action_permission(&d, VariableActionKind::Delete, "plugin", None, None).is_ok());
    assert!(enforce_action_permission(&d, VariableActionKind::Create, "ai", None, None).is_ok());
    assert_eq!(
        enforce_action_permission(&d, VariableActionKind::Update, "ai", None, None).unwrap_err(),
        AppError::validation("VALIDATION_ERROR", "ai is not allowed to update variable 'mood'")
    );
    let own = lock("ai", Some("run-1"));
    assert!(enforce_action_permission(&d, VariableActionKind::Unlock, "ai", Some("run-1"), Some(&own)).is_ok());
    assert_eq!(
        enforce_action_permission(&d, VariableActionKind::Unlock, "ai", Some("run-2"), Some(&own)).unwrap_err(),
        AppError::validation("VALIDATION_ERROR", "ai is not allowed to unlock this variable lock on 'mood'")
    );
    assert_eq!(
        enforce_action_permission(&d, VariableActionKind::Unlock, "ai", None, None).unwrap_err(),
        AppError::validation("VALIDATION_ERROR", "ai is not allowed to unlock this variable lock on 'mood'")
    );
    let mut strict = d.clone();
    strict.ai_can_unlock_own_lock = false;
    assert_eq!(
        enforce_action_permission(&strict, VariableActionKind::Unlock, "ai", Some("run-1"), Some(&own)).unwrap_err(),
        AppError::validation("VALIDATION_ERROR", "ai is not allowed to unlock its own lock on variable 'mood'")
    );
    assert!(enforce_action_permission(&d, VariableActionKind::Delete, "workflow", None, None).is_ok());
    assert!(enforce_action_permission(&d, VariableActionKind::Delete, "system", None, None).is_ok());
    assert!(validate_scope_matches(&d, "conversation").is_ok());
    assert_eq!(
        validate_scope_matches(&d, "global").unwrap_err(),
        AppError::validation("VALIDATION_ERROR", "variable 'mood' only supports scope_type 'conversation'")
    );
    assert!(validate_run_scope(Some("g"), None).is_ok());
    assert_eq!(
        validate_run_scope(None, None).unwrap_err(),
        AppError::validation("VALIDATION_ERROR", "at least one of generation_run_id or workflow_run_id is required")
    );
}

#[test]
fn channel_families() {
    let openai = config_for("openai_compatible").unwrap();
    assert_eq!(openai.auth_type, "bearer");
    assert_eq!(openai.models_endpoint, "/v1/models");
    let anthropic = config_for("anthropic").unwrap();
    assert_eq!(anthropic.chat_endpoint, "/v1/messages");
    assert_eq!(
        config_for("carrier_pigeon").unwrap_err(),
        AppError::validation("VALIDATION_ERROR", "unsupported channel_type 'carrier_pigeon'")
    );
    assert_eq!(ContentType::parse("tool_request"), Some(ContentType::ToolRequest));
    assert_eq!(ContentType::parse("TEXT"), None);
    assert_eq!(ContentType::ProviderSignature.as_str(), "provider_signature");
    assert_eq!(AppError::agent_disabled().kind, ErrorKind::Validation);
}

fn stored(text: Option<&str>, preview: Option<&str>) -> StoredContent {
    StoredContent {
        content_id: "c1".to_string(),
        content_type: ContentType::Markdown,
        mime_type: Some("text/markdown".to_string()),
        size_bytes: 12,
        text_content: text.map(str::to_string),
        preview_text: preview.map(str::to_string),
        primary_storage_uri: None,
        config_json: "{\"k\":1}".to_string(),
    }
}

#[test]
fn summary_content_comes_from_the_first_part_with_text() {
    let response = ProviderChatResponse {
        parts: vec![
            ProviderMessagePart { kind: ProviderMessagePartKind::Text, text: Some("  ".to_string()), content: None, metadata_json: "{}".to_string() },
            ProviderMessagePart { kind: ProviderMessagePartKind::Text, text: None, content: Some(stored(None, Some("p"))), metadata_json: "{}".to_string() },
            ProviderMessagePart { kind: ProviderMessagePartKind::Text, text: Some("the summary".to_string()), content: None, metadata_json: "{\"m\":2}".to_string() },
        ],
        finish_reason: None,
        prompt_tokens: None,
        completion_tokens: None,
        total_tokens: None,
        raw_response_json: None,
    };
    let input = extract_summary_content_input(&response).unwrap();
    assert_eq!(input.content_type, ContentType::Text);
    assert_eq!(input.text_content.as_deref(), Some("the summary"));
    assert_eq!(input.mime_type.as_deref(), Some("text/plain"));
    assert_eq!(input.config_json, "{\"m\":2}");
    let empty = ProviderChatResponse { parts: vec![], ..response.clone() };
    assert_eq!(
        extract_summary_content_input(&empty).unwrap_err(),
        AppError::validation("VALIDATION_ERROR", "provider response contained no usable summary content")
    );
    let from_content = ProviderChatResponse {
        parts: vec![ProviderMessagePart { kind: ProviderMessagePartKind::Text, text: None, content: Some(stored(Some("body"), Some("prev"))), metadata_json: "{}".to_string() }],
        ..response
    };
    let input = extract_summary_content_input(&from_content).unwrap();
    assert_eq!(input.text_content.as_deref(), Some("body"));
    assert_eq!(input.size_bytes_hint, Some(12));
    assert_eq!(input.preview_text.as_deref(), Some("prev"));
    let _: ContentWriteInput = input;
}
