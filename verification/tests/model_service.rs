use std::sync::Mutex;

use buyu::error::AppError;
use buyu::models::model::{
    ChannelModel, ChannelModelPatch, CreateModelInput, NewChannelModel, RemoteModelInfo,
    UpdateModelInput,
};
use buyu::models::{Channel, ChannelPatch, NewChannel};
use buyu::repo::channel_repo::ChannelRepo;
use buyu::repo::model_repo::ModelRepo;
use buyu::services::model_service::validation::{normalize_optional_text, validate_model_id};
use buyu::services::model_service::{
    create_with, delete_with, fetch_remote_models_with, list_with, update_with, ModelCatalog,
};

#[derive(Default)]
struct FakeModelRepo {
    channels: Mutex<Vec<String>>,
    models: Mutex<Vec<ChannelModel>>,
}

impl FakeModelRepo {
    fn with_model(channel_id: &str, model: ChannelModel) -> Self {
        Self {
            channels: Mutex::new(vec![channel_id.to_string()]),
            models: Mutex::new(vec![model]),
        }
    }
}

impl ModelRepo for FakeModelRepo {
    fn channel_exists(&self, channel_id: &str) -> Result<bool, String> {
        Ok(self.channels.lock().unwrap().iter().any(|candidate| candidate == channel_id))
    }

    fn model_id_exists(&self, channel_id: &str, model_id: &str) -> Result<bool, String> {
        Ok(self
            .models
            .lock()
            .unwrap()
            .iter()
            .any(|model| model.channel_id == channel_id && model.model_id == model_id))
    }

    fn insert(&self, new_model: &NewChannelModel) -> Result<ChannelModel, String> {
        let model = ChannelModel {
            id: new_model.id.clone(),
            channel_id: new_model.channel_id.clone(),
            model_id: new_model.model_id.clone(),
            display_name: new_model.display_name.clone(),
            context_window: new_model.context_window,
            max_output_tokens: new_model.max_output_tokens,
        };
        self.models.lock().unwrap().push(model.clone());
        Ok(model)
    }

    fn list_by_channel(&self, channel_id: &str) -> Result<Vec<ChannelModel>, String> {
        Ok(self
            .models
            .lock()
            .unwrap()
            .iter()
            .filter(|model| model.channel_id == channel_id)
            .cloned()
            .collect())
    }

    fn get_by_channel_and_id(&self, channel_id: &str, id: &str) -> Result<Option<ChannelModel>, String> {
        Ok(self
            .models
            .lock()
            .unwrap()
            .iter()
            .find(|model| model.channel_id == channel_id && model.id == id)
            .cloned())
    }

    fn update(&self, channel_id: &str, id: &str, patch: &ChannelModelPatch) -> Result<Option<ChannelModel>, String> {
        let mut models = self.models.lock().unwrap();
        let Some(model) = models.iter_mut().find(|model| model.channel_id == channel_id && model.id == id) else {
            return Ok(None);
        };
        if let Some(display_name) = &patch.display_name {
            model.display_name = display_name.clone();
        }
        if let Some(context_window) = patch.context_window {
            model.context_window = context_window;
        }
        if let Some(max_output_tokens) = patch.max_output_tokens {
            model.max_output_tokens = max_output_tokens;
        }
        Ok(Some(model.clone()))
    }

    fn delete(&self, channel_id: &str, id: &str) -> Result<bool, String> {
        let mut models = self.models.lock().unwrap();
        let before = models.len();
        models.retain(|model| !(model.channel_id == channel_id && model.id == id));
        Ok(models.len() != before)
    }
}

struct FakeChannelRepo(Channel);

impl ChannelRepo for FakeChannelRepo {
    fn insert(&self, _new_channel: &NewChannel) -> Result<Channel, String> {
        Err("not used".to_string())
    }
    fn list(&self, _include_disabled: bool) -> Result<Vec<Channel>, String> {
        Err("not used".to_string())
    }
    fn get(&self, id: &str) -> Result<Option<Channel>, String> {
        Ok((self.0.id == id).then(|| self.0.clone()))
    }
    fn update(&self, _id: &str, _patch: &ChannelPatch) -> Result<Option<Channel>, String> {
        Err("not used".to_string())
    }
    fn delete(&self, _id: &str) -> Result<bool, String> {
        Err("not used".to_string())
    }
}

#[derive(Default)]
struct FakeMetadataClient {
    fetched: Mutex<Vec<RemoteModelInfo>>,
}

impl ModelCatalog for FakeMetadataClient {
    fn fetch_remote_models(&self, _channel: &Channel) -> Result<Vec<RemoteModelInfo>, AppError> {
        Ok(self.fetched.lock().unwrap().clone())
    }
}

fn sample_model(channel_id: &str) -> ChannelModel {
    ChannelModel {
        id: "0195d4f5-3af3-7c13-8d69-f4f4bb73f0aa".to_string(),
        channel_id: channel_id.to_string(),
        model_id: "gpt-4o".to_string(),
        display_name: Some("GPT-4o".to_string()),
        context_window: Some(128_000),
        max_output_tokens: Some(16_384),
    }
}

fn sample_channel() -> Channel {
    Channel {
        id: "0195d4f5-3af3-7c13-8d69-f4f4bb73f0ab".to_string(),
        name: "My OpenAI".to_string(),
        channel_type: "openai_compatible".to_string(),
        base_url: "https://api.openai.com".to_string(),
        api_key: Some("sk-xxx".to_string()),
        auth_type: Some("bearer".to_string()),
        models_endpoint: Some("/v1/models".to_string()),
        chat_endpoint: Some("/v1/chat/completions".to_string()),
        stream_endpoint: Some("/v1/chat/completions".to_string()),
        enabled: true,
        created_at: 100,
        updated_at: 100,
    }
}

#[test]
fn create_model_trims_fields_and_generates_uuid() {
    let channel_id = sample_channel().id;
    let repo = FakeModelRepo { channels: Mutex::new(vec![channel_id.clone()]), ..FakeModelRepo::default() };

    let created = create_with(
        &repo,
        &channel_id,
        CreateModelInput {
            model_id: "  gpt-4o  ".to_string(),
            display_name: Some("  GPT-4o  ".to_string()),
            context_window: Some(128_000),
            max_output_tokens: Some(16_384),
        },
    )
    .unwrap();

    assert_eq!(created.model_id, "gpt-4o");
    assert_eq!(created.display_name.as_deref(), Some("GPT-4o"));
    assert_eq!(created.id.len(), 36);
}

#[test]
fn create_model_with_empty_model_id_returns_validation_error() {
    let repo = FakeModelRepo { channels: Mutex::new(vec!["channel-1".to_string()]), ..FakeModelRepo::default() };

    let error = create_with(
        &repo,
        "channel-1",
        CreateModelInput { model_id: "   ".to_string(), display_name: None, context_window: None, max_output_tokens: None },
    )
    .unwrap_err();

    assert_eq!(error, AppError::validation("VALIDATION_ERROR", "model_id cannot be empty"));
}

#[test]
fn create_model_with_duplicate_model_id_returns_conflict() {
    let channel = sample_channel();
    let repo = FakeModelRepo::with_model(&channel.id, sample_model(&channel.id));

    let error = create_with(
        &repo,
        &channel.id,
        CreateModelInput { model_id: "gpt-4o".to_string(), display_name: None, context_window: None, max_output_tokens: None },
    )
    .unwrap_err();

    assert_eq!(
        error,
        AppError::conflict("MODEL_ID_CONFLICT", "model_id 'gpt-4o' already exists in this channel")
    );
}

#[test]
fn list_models_returns_not_found_when_channel_missing() {
    let error = list_with(&FakeModelRepo::default(), "missing").unwrap_err();
    assert_eq!(error, AppError::not_found("channel 'missing' not found"));
}

#[test]
fn update_model_changes_only_allowed_fields() {
    let channel = sample_channel();
    let original = sample_model(&channel.id);
    let repo = FakeModelRepo::with_model(&channel.id, original.clone());

    let updated = update_with(
        &repo,
        &channel.id,
        &original.id,
        UpdateModelInput {
            display_name: Some(Some("GPT-4o Latest".to_string())),
            context_window: Some(Some(200_000)),
            max_output_tokens: None,
        },
    )
    .unwrap();

    assert_eq!(updated.model_id, "gpt-4o");
    assert_eq!(updated.display_name.as_deref(), Some("GPT-4o Latest"));
    assert_eq!(updated.context_window, Some(200_000));
    assert_eq!(updated.max_output_tokens, Some(16_384));
}

#[test]
fn delete_missing_model_returns_not_found() {
    let channel = sample_channel();
    let repo = FakeModelRepo { channels: Mutex::new(vec![channel.id.clone()]), ..FakeModelRepo::default() };

    let error = delete_with(&repo, &channel.id, "missing").unwrap_err();

    assert_eq!(error, AppError::not_found("model 'missing' not found"));
}

#[test]
fn fetch_remote_models_returns_not_found_when_channel_missing() {
    let adapter = FakeMetadataClient::default();
    let error = fetch_remote_models_with(&FakeChannelRepo(sample_channel()), &adapter, "missing").unwrap_err();
    assert_eq!(error, AppError::not_found("channel 'missing' not found"));
}

#[test]
fn fetch_remote_models_delegates_to_ai_adapter() {
    let channel = sample_channel();
    let adapter = FakeMetadataClient {
        fetched: Mutex::new(vec![RemoteModelInfo {
            model_id: "gpt-4o".to_string(),
            display_name: Some("GPT-4o".to_string()),
            context_window: Some(128_000),
        }]),
    };

    let models = fetch_remote_models_with(&FakeChannelRepo(channel.clone()), &adapter, &channel.id).unwrap();

    assert_eq!(models.len(), 1);
    assert_eq!(models[0].model_id, "gpt-4o");
    assert_eq!(models[0].display_name.as_deref(), Some("GPT-4o"));
}

#[test]
fn model_validation_rules() {
    assert!(validate_model_id("gpt").is_ok());
    assert_eq!(
        validate_model_id(" \u{3000}").unwrap_err(),
        AppError::validation("VALIDATION_ERROR", "model_id cannot be empty")
    );
    assert_eq!(normalize_optional_text(Some("  x ".to_string())), Some("x".to_string()));
    assert_eq!(normalize_optional_text(Some("   ".to_string())), None);
    assert_eq!(normalize_optional_text(None), None);
}

#[test]
fn clearing_display_name_and_missing_channel_on_update() {
    let channel = sample_channel();
    let original = sample_model(&channel.id);
    let repo = FakeModelRepo::with_model(&channel.id, original.clone());
    let updated = update_with(
        &repo,
        &channel.id,
        &original.id,
        UpdateModelInput { display_name: Some(Some("   ".to_string())), ..UpdateModelInput::default() },
    )
    .unwrap();
    assert_eq!(updated.display_name, None);
    let error = update_with(&repo, "nope", &original.id, UpdateModelInput::default()).unwrap_err();
    assert_eq!(error, AppError::not_found("channel 'nope' not found"));
    let error = update_with(&repo, &channel.id, "ghost", UpdateModelInput::default()).unwrap_err();
    assert_eq!(error, AppError::not_found("model 'ghost' not found"));
}
