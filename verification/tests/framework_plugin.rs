use universal_bot::framework::error::Error;
use universal_bot::framework::message::Message;
use universal_bot::framework::plugin::{
    CapabilityType, EchoPlugin, HookType, Permission, Plugin, PluginConfig, PluginMetadata,
    PluginRegistry, PluginResponse, RequestType, ResourceLimits,
};

#[test]
fn test_plugin_registry() {
    let mut registry = PluginRegistry::new();
    let plugin = EchoPlugin::new();

    assert!(registry.register_plugin(&plugin).is_ok());
    assert!(registry.get("echo").is_some());

    let plugins = registry.list();
    assert_eq!(plugins.len(), 1);
    assert_eq!(plugins[0].name, "echo");
}

#[test]
fn test_plugin_permissions() {
    let mut registry = PluginRegistry::new();
    let plugin = EchoPlugin::new();

    // Before registering, plugin shouldn't have permissions
    assert!(!registry.has_permission("echo", &Permission::All));

    // After registering, plugin gets all permissions by default
    registry.register_plugin(&plugin).ok().unwrap();
    assert!(registry.has_permission("echo", &Permission::All));
    assert!(registry.has_permission("echo", &Permission::ReadMessages));

    // Non-existent plugins don't have permissions
    assert!(!registry.has_permission("nonexistent", &Permission::ReadMessages));
}

#[test]
fn test_plugin_response() {
    let mut data = serde_json::Map::new();
    data.insert("key".to_string(), serde_json::Value::String("value".to_string()));
    let response = PluginResponse::success("test", serde_json::Value::Object(data));
    assert!(response.success);
    assert!(response.error.is_none());

    let error_response = PluginResponse::error("test", "Something went wrong");
    assert!(!error_response.success);
    assert_eq!(
        error_response.error.as_deref(),
        Some("Something went wrong")
    );
}

#[test]
fn the_echo_plugin_echoes_messages() {
    let plugin = EchoPlugin::default();
    assert_eq!(plugin.name(), "echo");
    assert_eq!(plugin.version(), "1.0.0");
    assert_eq!(plugin.description(), "Simple echo plugin for testing");
    let message = Message::text("Hello, world!");
    assert!(plugin.can_handle(&message));
    let echoed = plugin.respond(&RequestType::ProcessMessage, Some(&message)).ok().unwrap();
    assert_eq!(echoed.content, "Echo: Hello, world!");
    assert_eq!(
        plugin.respond(&RequestType::ProcessMessage, None).err(),
        Some("Invalid message data")
    );
    assert_eq!(
        plugin.respond(&RequestType::InvokeTool, Some(&message)).err(),
        Some("Unsupported request type")
    );
    let capabilities = plugin.capabilities();
    assert_eq!(capabilities.len(), 1);
    assert_eq!(capabilities[0].name, "echo");
    assert!(matches!(capabilities[0].capability_type, CapabilityType::MessageProcessor));
    assert_eq!(
        capabilities[0].required_permissions,
        vec![Permission::ReadMessages, Permission::WriteMessages]
    );
    let metadata = plugin.metadata();
    assert_eq!(metadata.name, "echo");
    assert_eq!(metadata.version, "1.0.0");
    assert!(metadata.author.is_none());
}

#[test]
fn names_are_unique_and_unregistering_forgets_everything() {
    let mut registry = PluginRegistry::default();
    let plugin = EchoPlugin::new();
    registry.register_plugin(&plugin).ok().unwrap();
    match registry.register_plugin(&plugin) {
        Err(Error::Plugin(m)) => assert_eq!(m, "Plugin 'echo' already registered"),
        _ => panic!("a failure is due"),
    }
    assert_eq!(registry.list().len(), 1);
    assert_eq!(
        registry.plugins_for_hook(&HookType::MessageProcessor),
        Some(&vec!["echo".to_string()])
    );
    assert!(registry.plugins_for_hook(&HookType::Middleware).is_none());
    assert!(registry.unregister("echo").is_ok());
    assert!(registry.get("echo").is_none());
    assert!(!registry.has_permission("echo", &Permission::All));
    assert_eq!(registry.plugins_for_hook(&HookType::MessageProcessor), Some(&vec![]));
    match registry.unregister("echo") {
        Err(Error::NotFound(m)) => assert_eq!(m, "Plugin 'echo' not found"),
        _ => panic!("a failure is due"),
    }
    let metadata = PluginMetadata {
        name: "named".to_string(),
        version: "2".to_string(),
        description: String::new(),
        author: None,
        homepage: None,
        license: None,
    };
    assert!(registry.register(metadata, &plugin.capabilities()).is_ok());
    assert_eq!(registry.get("named").unwrap().version, "2");
    assert!(registry.has_permission("named", &Permission::DatabaseAccess));
    assert_eq!(
        registry.plugins_for_hook(&HookType::MessageProcessor),
        Some(&vec!["named".to_string()])
    );
    // A plugin with two capabilities on one hook is on the hook twice.
    let mut twice = plugin.capabilities();
    twice.extend(plugin.capabilities());
    let metadata = PluginMetadata {
        name: "double".to_string(),
        version: "1".to_string(),
        description: String::new(),
        author: None,
        homepage: None,
        license: None,
    };
    assert!(registry.register(metadata, &twice).is_ok());
    assert_eq!(
        registry.plugins_for_hook(&HookType::MessageProcessor),
        Some(&vec!["named".to_string(), "double".to_string(), "double".to_string()])
    );
    assert!(registry.unregister("double").is_ok());
    assert_eq!(
        registry.plugins_for_hook(&HookType::MessageProcessor),
        Some(&vec!["named".to_string()])
    );
    assert_eq!(HookType::Custom("mine".to_string()).to_key(), "custom:mine");
    assert_eq!(HookType::ToolProvider.to_key(), "tool_provider");
}

#[test]
fn plugin_defaults_hold_the_tabled_numbers() {
    let limits = ResourceLimits::default();
    assert_eq!(limits.max_memory, Some(100 * 1024 * 1024));
    assert_eq!(limits.max_cpu_percent, Some(50));
    assert_eq!(limits.max_execution_time_ms, Some(30_000));
    assert_eq!(limits.max_concurrent_ops, Some(10));
    let config = PluginConfig::default();
    assert!(config.settings.is_empty());
    assert!(config.enabled_features.is_empty());
    assert!(config.permissions.is_empty());
    assert_eq!(config.resource_limits, limits);
}

#[test]
fn test_plugin_unregister() {
    let mut registry = PluginRegistry::new();
    let plugin = EchoPlugin::new();

    registry.register_plugin(&plugin).ok().unwrap();
    assert!(registry.unregister("echo").is_ok());
    assert!(registry.get("echo").is_none());
}

#[test]
fn test_echo_plugin() {
    let plugin = EchoPlugin::new();
    let message = Message::text("Hello, world!");

    let echo_message = plugin.respond(&RequestType::ProcessMessage, Some(&message)).ok().unwrap();
    assert_eq!(echo_message.content, "Echo: Hello, world!");
}
