use universal_bot::bedrock::model::{
    ClaudeModel, ModelCapability, ModelInfo, ModelRegistry, TaskType,
};

#[test]
fn test_task_recommendations() {
    assert_eq!(
        ClaudeModel::recommend_for_task(TaskType::CodeGeneration),
        ClaudeModel::Claude35Sonnet
    );
    assert_eq!(
        ClaudeModel::recommend_for_task(TaskType::QuestionAnswering),
        ClaudeModel::Claude3Haiku
    );
}

#[test]
fn every_task_has_its_model() {
    let table = [
        (TaskType::CodeGeneration, ClaudeModel::Claude35Sonnet),
        (TaskType::Analysis, ClaudeModel::Claude35Sonnet),
        (TaskType::CreativeWriting, ClaudeModel::Claude3Opus),
        (TaskType::QuestionAnswering, ClaudeModel::Claude3Haiku),
        (TaskType::Summarization, ClaudeModel::Claude3Haiku),
        (TaskType::Translation, ClaudeModel::Claude35Sonnet),
        (TaskType::Reasoning, ClaudeModel::Claude3Opus),
    ];
    for (task, model) in table {
        assert_eq!(ClaudeModel::recommend_for_task(task), model);
    }
    assert_eq!(
        ClaudeModel::all(),
        vec![ClaudeModel::Claude35Sonnet, ClaudeModel::Claude3Opus, ClaudeModel::Claude3Haiku]
    );
}

#[test]
fn capabilities_hold_the_tabled_numbers() {
    let sonnet = ClaudeModel::Claude35Sonnet.capabilities();
    assert_eq!(sonnet.max_tokens, 200_000);
    assert_eq!(sonnet.context_window, 200_000);
    assert!(sonnet.supports_vision && sonnet.supports_function_calling);
    assert_eq!(sonnet.input_cost_per_1k_tokens, 3_000_000);
    assert_eq!(sonnet.output_cost_per_1k_tokens, 15_000_000);
    assert_eq!(sonnet.description, "Most capable model for complex reasoning and analysis");
    let opus = ClaudeModel::Claude3Opus.capabilities();
    assert_eq!(opus.input_cost_per_1k_tokens, 15_000_000);
    assert_eq!(opus.output_cost_per_1k_tokens, 75_000_000);
    assert_eq!(opus.description, "Most powerful model for complex tasks");
    let haiku = ClaudeModel::Claude3Haiku.capabilities();
    assert!(!haiku.supports_function_calling);
    assert_eq!(haiku.input_cost_per_1k_tokens, 250_000);
    assert_eq!(haiku.output_cost_per_1k_tokens, 1_250_000);
    assert_eq!(haiku.description, "Fastest and most cost-effective model");
    assert!(haiku.supports(ModelCapability::LowCost));
    assert!(!sonnet.supports(ModelCapability::LowCost));
    assert!(sonnet.supports(ModelCapability::LargeContext));
    assert!(!haiku.supports(ModelCapability::FunctionCalling));
    assert!(haiku.clone().supports(ModelCapability::Vision));
}

fn registry() -> ModelRegistry {
    let mut registry = ModelRegistry::empty();
    registry.register(ModelInfo::of(ClaudeModel::Claude35Sonnet, "sonnet-id", "Sonnet"));
    registry.register(ModelInfo::of(ClaudeModel::Claude3Opus, "opus-id", "Opus"));
    registry.register(ModelInfo::of(ClaudeModel::Claude3Haiku, "haiku-id", "Haiku"));
    registry
}

#[test]
fn the_registry_knows_what_was_registered() {
    let registry = registry();
    let available = registry.list_available();
    assert_eq!(available.len(), 3);
    let info = registry.get("sonnet-id").unwrap();
    assert_eq!(info.name, "Sonnet");
    assert_eq!(info.provider, "anthropic");
    assert_eq!(info.version, "1.0");
    assert!(info.capabilities.supports_vision);
    assert!(registry.get("unknown").is_none());
    assert!(ModelRegistry::empty().list_available().is_empty());
}

#[test]
fn the_registry_filters_by_capability_and_availability() {
    let mut registry = registry();
    assert_eq!(registry.models_with_capability(ModelCapability::Vision).len(), 3);
    let low_cost = registry.models_with_capability(ModelCapability::LowCost);
    assert_eq!(low_cost.len(), 1);
    assert_eq!(low_cost[0].id, "haiku-id");
    assert_eq!(registry.models_with_capability(ModelCapability::FunctionCalling).len(), 2);
    assert_eq!(registry.models_with_capability(ModelCapability::LargeContext).len(), 3);
    registry.mark_unavailable("haiku-id");
    registry.mark_unavailable("nobody");
    assert!(!registry.get("haiku-id").unwrap().available);
    assert_eq!(registry.list_available().len(), 2);
    assert!(registry.models_with_capability(ModelCapability::LowCost).is_empty());
    // Registering under a name that is taken replaces the model.
    registry.register(ModelInfo::of(ClaudeModel::Claude3Haiku, "haiku-id", "Haiku again"));
    assert_eq!(registry.list_available().len(), 3);
    assert_eq!(registry.get("haiku-id").unwrap().name, "Haiku again");
}

#[test]
fn test_capability_filtering() {
    let registry = registry();

    let vision_models = registry.models_with_capability(ModelCapability::Vision);
    assert_eq!(vision_models.len(), 3); // All models of the family support vision

    let low_cost_models = registry.models_with_capability(ModelCapability::LowCost);
    assert_eq!(low_cost_models.len(), 1); // Only Haiku is low cost
}
