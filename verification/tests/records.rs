use buyu::models::agent::{CreateAgentInput, UpdateAgentInput};
use buyu::models::conversation::UpdateConversationInput;
use buyu::services::agent_service::{agent_patch, new_agent_record};
use buyu::services::conversation_service::conversation_patch;

fn conversation_input(title: Option<&str>) -> UpdateConversationInput {
    UpdateConversationInput {
        title: title.map(|t| t.to_string()),
        agent_id_set: true,
        agent_id: None,
        channel_id_set: true,
        channel_id: Some("ch-2".to_string()),
        channel_model_id_set: false,
        channel_model_id: Some("ignored".to_string()),
        archived: Some(true),
        pinned: None,
    }
}

#[test]
fn new_agents_are_trimmed_enabled_and_without_avatar() {
    let record = new_agent_record(
        CreateAgentInput { name: "  Ada ".to_string(), system_prompt: Some("   ".to_string()) },
        "a-1".to_string(),
        42,
    )
    .unwrap();
    assert_eq!(record.id, "a-1");
    assert_eq!(record.name, "Ada");
    assert_eq!(record.system_prompt, None);
    assert_eq!(record.avatar_uri, None);
    assert!(record.enabled);
    assert_eq!((record.created_at, record.updated_at), (42, 42));
    let error = new_agent_record(CreateAgentInput { name: " ".to_string(), system_prompt: None }, "a-2".to_string(), 1)
        .unwrap_err();
    assert_eq!(error.message, "name must not be empty");
}

#[test]
fn agent_patches_keep_what_is_not_given() {
    let patch = agent_patch(
        UpdateAgentInput { name: None, system_prompt: Some(Some(" Be calm ".to_string())), enabled: Some(false) },
        7,
    )
    .unwrap();
    assert_eq!(patch.name, None);
    assert_eq!(patch.system_prompt, Some(Some("Be calm".to_string())));
    assert_eq!(patch.enabled, Some(false));
    assert_eq!(patch.updated_at, 7);
    let cleared = agent_patch(UpdateAgentInput { name: Some(" Bo ".to_string()), system_prompt: Some(None), enabled: None }, 8)
        .unwrap();
    assert_eq!(cleared.name, Some("Bo".to_string()));
    assert_eq!(cleared.system_prompt, Some(None));
    assert!(agent_patch(UpdateAgentInput { name: Some("".to_string()), system_prompt: None, enabled: None }, 9).is_err());
}

#[test]
fn conversation_patches_follow_the_flags() {
    let patch = conversation_patch(conversation_input(Some("  Trip ")), 5).unwrap();
    assert_eq!(patch.title, Some("Trip".to_string()));
    assert_eq!(patch.agent_id, Some(None));
    assert_eq!(patch.channel_id, Some(Some("ch-2".to_string())));
    assert_eq!(patch.channel_model_id, None);
    assert_eq!(patch.archived, Some(true));
    assert_eq!(patch.pinned, None);
    assert_eq!(patch.updated_at, 5);
    assert_eq!(conversation_patch(conversation_input(None), 5).unwrap().title, None);
    assert_eq!(
        conversation_patch(conversation_input(Some("  ")), 5).unwrap_err().message,
        "title must not be empty"
    );
}
