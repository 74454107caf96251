use buyu::error::AppError;
use buyu::providers::openai_compatible::role_to_provider;
use buyu::providers::registry::{ChatProvider, DefaultProvider, ProviderRegistry};
use buyu::domain::MessageRole;

#[derive(Debug, PartialEq)]
struct FakeProvider {
    family: &'static str,
    tag: u32,
}

impl ChatProvider for FakeProvider {
    fn provider_type(&self) -> &'static str {
        self.family
    }
}

#[test]
fn registry_finds_the_adapter_of_each_family() {
    let mut registry = ProviderRegistry::new();
    registry.register(FakeProvider { family: "anthropic", tag: 1 });
    registry.register(FakeProvider { family: "gemini", tag: 2 });
    assert_eq!(registry.get("anthropic").unwrap().tag, 1);
    assert_eq!(registry.get("gemini").unwrap().tag, 2);
    registry.register(FakeProvider { family: "anthropic", tag: 3 });
    assert_eq!(registry.get("anthropic").unwrap().tag, 3);
    assert_eq!(registry.get("gemini").unwrap().tag, 2);
    let err = registry.get("openai_compatible").map(|p| p.tag).unwrap_err();
    assert_eq!(err, AppError::validation("VALIDATION_ERROR", "unsupported provider type 'openai_compatible'"));
}

#[test]
fn registry_with_adapters_registers_each_one() {
    let registry = ProviderRegistry::with_adapters(vec![
        FakeProvider { family: "anthropic", tag: 1 },
        FakeProvider { family: "gemini", tag: 2 },
        FakeProvider { family: "openai_compatible", tag: 3 },
    ]);
    assert_eq!(registry.get("openai_compatible").unwrap().tag, 3);
    assert_eq!(registry.get("anthropic").unwrap().tag, 1);
    let mut explicit = ProviderRegistry::new();
    explicit.register_as("custom", FakeProvider { family: "anthropic", tag: 9 });
    assert_eq!(explicit.get("custom").unwrap().tag, 9);
    assert!(explicit.get("anthropic").is_err());
}

#[test]
fn roles_are_named_as_the_provider_expects() {
    assert_eq!(role_to_provider(MessageRole::System), "system");
    assert_eq!(role_to_provider(MessageRole::User), "user");
    assert_eq!(role_to_provider(MessageRole::Assistant), "assistant");
    assert_eq!(role_to_provider(MessageRole::Tool), "tool");
    assert_eq!(MessageRole::parse("assistant"), Some(MessageRole::Assistant));
    assert_eq!(MessageRole::parse("robot"), None);
    assert_eq!(MessageRole::Tool.as_str(), "tool");
}

#[test]
fn the_default_registry_serves_the_three_families() {
    let registry = ProviderRegistry::with_defaults();
    for family in ["anthropic", "gemini", "openai_compatible"] {
        assert_eq!(registry.get(family).unwrap().provider_type(), family);
    }
    assert!(matches!(registry.get("gemini").unwrap(), DefaultProvider::Gemini(_)));
    assert_eq!(
        registry.get("openai").map(|p| p.provider_type()).unwrap_err(),
        AppError::validation("VALIDATION_ERROR", "unsupported provider type 'openai'")
    );
}

#[test]
fn the_last_of_several_registrations_for_a_family_wins() {
    let registry = ProviderRegistry::with_adapters(vec![
        FakeProvider { family: "gemini", tag: 1 },
        FakeProvider { family: "anthropic", tag: 2 },
        FakeProvider { family: "gemini", tag: 3 },
        FakeProvider { family: "anthropic", tag: 4 },
        FakeProvider { family: "gemini", tag: 5 },
    ]);
    assert_eq!(registry.get("gemini").unwrap().tag, 5);
    assert_eq!(registry.get("anthropic").unwrap().tag, 4);
    assert!(registry.get("openai_compatible").is_err());
    let empty: ProviderRegistry<FakeProvider> = ProviderRegistry::new();
    assert_eq!(
        empty.get("x").map(|p| p.tag).unwrap_err(),
        AppError::validation("VALIDATION_ERROR", "unsupported provider type 'x'")
    );
}
