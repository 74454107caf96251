use buyu::error::AppError;
use buyu::models::agent::Agent;
use buyu::models::model::ChannelModel;
use buyu::models::Channel;
use buyu::services::conversation_service::{
    agent_binding, bindings_outcome, channel_binding, check_participant, model_belongs_to_channel, model_binding,
};

fn agent(enabled: bool) -> Agent {
    Agent {
        id: "a1".to_string(),
        name: "Helper".to_string(),
        system_prompt: None,
        avatar_uri: None,
        enabled,
        created_at: 0,
        updated_at: 0,
    }
}

fn channel(enabled: bool) -> Channel {
    Channel {
        id: "c1".to_string(),
        name: "Main".to_string(),
        channel_type: "openai_compatible".to_string(),
        base_url: "https://example.com".to_string(),
        api_key: None,
        auth_type: None,
        models_endpoint: None,
        chat_endpoint: None,
        stream_endpoint: None,
        enabled,
        created_at: 0,
        updated_at: 0,
    }
}

#[test]
fn an_agent_binding_needs_an_enabled_agent() {
    assert_eq!(agent_binding(Ok(Some(agent(true))), "a1"), Ok(()));
    assert_eq!(agent_binding(Ok(Some(agent(false))), "a1"), Err(AppError::agent_disabled()));
    assert_eq!(agent_binding(Ok(None), "a1"), Err(AppError::not_found("agent 'a1' not found")));
    assert_eq!(agent_binding(Err("locked".to_string()), "a1"), Err(AppError::internal("failed to load agent: locked")));
}

#[test]
fn a_channel_binding_needs_an_enabled_channel() {
    assert_eq!(channel_binding(Ok(Some(channel(true))), "c1"), Ok(()));
    assert_eq!(channel_binding(Ok(Some(channel(false))), "c1"), Err(AppError::channel_disabled()));
    assert_eq!(channel_binding(Ok(None), "c1"), Err(AppError::not_found("channel 'c1' not found")));
    assert_eq!(channel_binding(Err("io".to_string()), "c1"), Err(AppError::internal("failed to load channel: io")));
}

#[test]
fn a_model_binding_needs_the_model_of_the_channel() {
    assert_eq!(model_binding(Ok(None), "m1"), Err(AppError::not_found("model 'm1' not found")));
    assert_eq!(model_binding(Err("io".to_string()), "m1"), Err(AppError::internal("failed to load model: io")));
    let model = ChannelModel {
        id: "m1".to_string(),
        channel_id: "c1".to_string(),
        model_id: "gpt".to_string(),
        display_name: None,
        context_window: None,
        max_output_tokens: None,
    };
    assert_eq!(model_binding(Ok(Some(model)), "m1"), Ok(()));
}

#[test]
fn a_bound_model_must_belong_to_the_bound_channel() {
    let model = ChannelModel {
        id: "m1".to_string(),
        channel_id: "c1".to_string(),
        model_id: "gpt".to_string(),
        display_name: None,
        context_window: None,
        max_output_tokens: None,
    };
    assert_eq!(model_belongs_to_channel("c1", &model), Ok(()));
    assert_eq!(
        model_belongs_to_channel("c2", &model),
        Err(AppError::validation("VALIDATION_ERROR", "channel_model_id does not belong to channel_id"))
    );
}

#[test]
fn participants_are_checked_by_type() {
    assert_eq!(check_participant("agent", Some("a1")), Ok(Some("a1".to_string())));
    assert_eq!(
        check_participant("agent", None),
        Err(AppError::validation("VALIDATION_ERROR", "agent participant requires agent_id"))
    );
    assert_eq!(check_participant("human", None), Ok(None));
    assert_eq!(check_participant("system", Some("a1")), Ok(None));
    assert_eq!(
        check_participant("robot", None),
        Err(AppError::validation("VALIDATION_ERROR", "unsupported participant_type 'robot'"))
    );
}

#[test]
fn the_first_failing_binding_decides() {
    let model = ChannelModel {
        id: "m1".to_string(),
        channel_id: "c1".to_string(),
        model_id: "gpt".to_string(),
        display_name: None,
        context_window: None,
        max_output_tokens: None,
    };
    assert_eq!(bindings_outcome(None, None, None, Ok(None), Ok(None), Ok(None)), Ok(()));
    assert_eq!(
        bindings_outcome(Some("a1"), Some("c1"), Some("m1"), Ok(Some(agent(true))), Ok(Some(channel(true))), Ok(Some(model.clone()))),
        Ok(())
    );
    assert_eq!(
        bindings_outcome(Some("a1"), Some("c1"), None, Ok(Some(agent(false))), Ok(Some(channel(false))), Ok(None)),
        Err(AppError::agent_disabled())
    );
    assert_eq!(
        bindings_outcome(Some("a1"), Some("c1"), None, Ok(Some(agent(true))), Ok(Some(channel(false))), Ok(None)),
        Err(AppError::channel_disabled())
    );
    assert_eq!(
        bindings_outcome(None, Some("c1"), None, Ok(None), Err("disk".to_string()), Ok(None)),
        Err(AppError::internal("failed to load channel: disk"))
    );
    assert_eq!(
        bindings_outcome(Some("a1"), None, Some("m1"), Ok(Some(agent(true))), Ok(None), Ok(Some(model))),
        Err(AppError::validation("VALIDATION_ERROR", "channel_model_id requires channel_id"))
    );
    assert_eq!(
        bindings_outcome(None, Some("c1"), Some("m1"), Ok(None), Ok(Some(channel(true))), Ok(None)),
        Err(AppError::not_found("model 'm1' not found"))
    );
}
