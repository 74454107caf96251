use buyu::services::keyring::KeyringService;
use buyu::services::provider::{plan_provider_config, raw_request_url, stored_api_key, ProviderConfig};

#[test]
fn raw_requests_join_base_and_path_with_one_slash() {
    assert_eq!(raw_request_url("https://api.x.com/v1//", "//models"), "https://api.x.com/v1/models");
    assert_eq!(raw_request_url("https://api.x.com", "chat"), "https://api.x.com/chat");
}

#[test]
fn saving_a_key_stores_it_under_the_provider() {
    let mut keyring = KeyringService::new("buyu");
    let plan = plan_provider_config(&mut keyring, "openai", Some("sk-1"), None, None).unwrap();
    assert_eq!(plan.api_key_id, Some("provider:openai".to_string()));
    assert_eq!(plan.base_url, None);
    assert_eq!(keyring.get("provider:openai").unwrap(), "sk-1");

    let existing = ProviderConfig {
        api_key_id: Some("provider:openai".to_string()),
        base_url: Some("https://old".to_string()),
    };
    let kept = plan_provider_config(&mut keyring, "openai", None, Some("https://new"), Some(&existing)).unwrap();
    assert_eq!(kept.api_key_id, Some("provider:openai".to_string()));
    assert_eq!(kept.base_url, Some("https://new".to_string()));
    assert_eq!(stored_api_key(&keyring, Some(&existing)).unwrap(), Some("sk-1".to_string()));

    let cleared = plan_provider_config(&mut keyring, "openai", Some("  "), None, Some(&existing)).unwrap();
    assert_eq!(cleared.api_key_id, None);
    assert_eq!(cleared.base_url, Some("https://old".to_string()));
    assert!(!keyring.contains("provider:openai").unwrap());
    assert_eq!(stored_api_key(&keyring, Some(&existing)).unwrap(), None);

    let missing = plan_provider_config(&mut keyring, "openai", None, None, Some(&existing)).unwrap();
    assert_eq!(missing.api_key_id, None);
    assert_eq!(stored_api_key(&keyring, None).unwrap(), None);
}
