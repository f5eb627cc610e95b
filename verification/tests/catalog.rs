use codex_models::catalog::{
    default_input_modalities, model_from_preset, model_from_provider_model,
    reasoning_efforts_from_preset, supported_models_from_presets, InputModality,
    ModelAvailabilityNux, ModelPreset, ModelUpgrade, ProviderCatalogModel, ReasoningEffort,
    ReasoningEffortOption, ReasoningEffortPreset, ServiceTierPreset,
};

fn preset(id: &str, show_in_picker: bool) -> ModelPreset {
    ModelPreset {
        id: id.to_string(),
        model: format!("{id}-model"),
        upgrade: None,
        availability_nux: None,
        display_name: format!("{id} display"),
        description: format!("{id} description"),
        show_in_picker,
        supported_reasoning_efforts: vec![ReasoningEffortPreset {
            effort: ReasoningEffort::Medium,
            description: "medium".to_string(),
        }],
        default_reasoning_effort: ReasoningEffort::Medium,
        input_modalities: vec![InputModality::Text],
        supports_personality: true,
        additional_speed_tiers: vec!["fast".to_string()],
        service_tiers: vec![],
        default_service_tier: None,
        is_default: false,
    }
}

fn provider(provider_id: &str, provider_name: &str, model_id: &str) -> ProviderCatalogModel {
    ProviderCatalogModel {
        provider_id: provider_id.to_string(),
        provider_name: provider_name.to_string(),
        model_id: model_id.to_string(),
    }
}

#[test]
fn provider_model_is_namespaced_and_described_by_provider_name() {
    let model = model_from_provider_model(provider("ollama", "Ollama", "llama3"));
    assert_eq!(model.id, "ollama/llama3");
    assert_eq!(model.model, "ollama/llama3");
    assert_eq!(model.display_name, "llama3");
    assert_eq!(model.description, "Ollama model");
    assert!(!model.hidden);
    assert!(!model.is_default);
    assert!(!model.supports_personality);
    assert_eq!(model.upgrade, None);
    assert_eq!(model.upgrade_info, None);
    assert_eq!(model.availability_nux, None);
    assert_eq!(
        model.supported_reasoning_efforts,
        vec![ReasoningEffortOption {
            reasoning_effort: ReasoningEffort::Disabled,
            description: "No reasoning controls".to_string(),
        }]
    );
    assert_eq!(model.default_reasoning_effort, ReasoningEffort::Disabled);
    assert_eq!(model.input_modalities, vec![InputModality::Text, InputModality::Image]);
    assert!(model.additional_speed_tiers.is_empty());
    assert!(model.service_tiers.is_empty());
    assert_eq!(model.default_service_tier, None);
}

#[test]
fn blank_provider_name_falls_back_to_provider_id() {
    let model = model_from_provider_model(provider("lmstudio", "  \t", "qwen"));
    assert_eq!(model.description, "lmstudio model");
    let model = model_from_provider_model(provider("lmstudio", "", "qwen"));
    assert_eq!(model.description, "lmstudio model");
    let model = model_from_provider_model(provider("p", " Local ", "m"));
    assert_eq!(model.description, " Local  model");
}

#[test]
fn default_input_modalities_are_text_and_image() {
    assert_eq!(default_input_modalities(), vec![InputModality::Text, InputModality::Image]);
}

#[test]
fn reasoning_efforts_keep_order_and_descriptions() {
    let options = reasoning_efforts_from_preset(vec![
        ReasoningEffortPreset { effort: ReasoningEffort::Low, description: "low".to_string() },
        ReasoningEffortPreset { effort: ReasoningEffort::High, description: "high".to_string() },
    ]);
    assert_eq!(
        options,
        vec![
            ReasoningEffortOption { reasoning_effort: ReasoningEffort::Low, description: "low".to_string() },
            ReasoningEffortOption { reasoning_effort: ReasoningEffort::High, description: "high".to_string() },
        ]
    );
}

#[test]
fn preset_carries_over_with_upgrade_and_tiers() {
    let mut p = preset("gpt-x", false);
    p.upgrade = Some(ModelUpgrade {
        id: "gpt-y".to_string(),
        upgrade_copy: Some("try it".to_string()),
        model_link: None,
        migration_markdown: Some("# move".to_string()),
    });
    p.availability_nux = Some(ModelAvailabilityNux { message: "new".to_string() });
    p.service_tiers = vec![ServiceTierPreset {
        id: "flex".to_string(),
        name: "Flex".to_string(),
        description: "cheaper".to_string(),
    }];
    p.default_service_tier = Some("flex".to_string());
    p.is_default = true;
    let model = model_from_preset(p);
    assert_eq!(model.id, "gpt-x");
    assert_eq!(model.model, "gpt-x-model");
    assert_eq!(model.upgrade, Some("gpt-y".to_string()));
    let info = model.upgrade_info.unwrap();
    assert_eq!(info.model, "gpt-y");
    assert_eq!(info.upgrade_copy, Some("try it".to_string()));
    assert_eq!(info.model_link, None);
    assert_eq!(info.migration_markdown, Some("# move".to_string()));
    assert_eq!(model.availability_nux, Some(ModelAvailabilityNux { message: "new".to_string() }));
    assert!(model.hidden);
    assert_eq!(model.service_tiers.len(), 1);
    assert_eq!(model.service_tiers[0].id, "flex");
    assert_eq!(model.service_tiers[0].name, "Flex");
    assert_eq!(model.service_tiers[0].description, "cheaper");
    assert_eq!(model.default_service_tier, Some("flex".to_string()));
    assert!(model.is_default);
    assert!(model.supports_personality);
    assert_eq!(model.additional_speed_tiers, vec!["fast".to_string()]);
    assert_eq!(model.input_modalities, vec![InputModality::Text]);
    assert_eq!(model.default_reasoning_effort, ReasoningEffort::Medium);
}

#[test]
fn catalogue_lists_visible_presets_then_providers() {
    let presets = vec![preset("a", true), preset("hidden-1", false), preset("b", true)];
    let models = supported_models_from_presets(presets, false, vec![provider("p", "P", "m")]);
    let ids: Vec<&str> = models.iter().map(|m| m.id.as_str()).collect();
    assert_eq!(ids, vec!["a", "b", "p/m"]);
    assert!(models.iter().all(|m| !m.hidden));
}

#[test]
fn catalogue_with_hidden_appends_hidden_presets_last() {
    let presets = vec![preset("h1", false), preset("a", true), preset("h2", false)];
    let models = supported_models_from_presets(presets, true, vec![provider("p", "", "m")]);
    let ids: Vec<&str> = models.iter().map(|m| m.id.as_str()).collect();
    assert_eq!(ids, vec!["a", "p/m", "h1", "h2"]);
    let hidden: Vec<bool> = models.iter().map(|m| m.hidden).collect();
    assert_eq!(hidden, vec![false, false, true, true]);
    assert_eq!(models[1].description, "p model");
}

#[test]
fn empty_catalogue() {
    assert!(supported_models_from_presets(vec![], true, vec![]).is_empty());
    assert!(supported_models_from_presets(vec![preset("h", false)], false, vec![]).is_empty());
}

#[test]
fn catalogue_without_hidden_is_prefix_of_catalogue_with_hidden() {
    let presets = || vec![preset("h1", false), preset("a", true), preset("h2", false), preset("b", true)];
    let providers = || vec![provider("p", "P", "m"), provider("q", " ", "n")];
    let without = supported_models_from_presets(presets(), false, providers());
    let with = supported_models_from_presets(presets(), true, providers());
    assert_eq!(without.len(), 4);
    assert_eq!(with[..without.len()], without[..]);
    assert_eq!(with[without.len()..], [model_from_preset(preset("h1", false)), model_from_preset(preset("h2", false))]);
}
