use universal_bot::framework::config::{ContextConfig, StorageBackend};
use universal_bot::framework::context::{
    Context, ContextManager, ContextMessage, MemoryContextStore, MessageRole,
};
use universal_bot::framework::error::Error;
use universal_bot::framework::message::{Message, Response, TokenUsage};

#[test]
fn test_context_creation() {
    let context = Context::new("test-123");
    assert_eq!(context.id, "test-123");
    assert!(context.history.is_empty());
    assert_eq!(context.token_count, 0);
}

#[test]
fn test_context_message_addition() {
    let mut context = Context::new("test");
    let message = Message::text("Hello");

    context.add_message(&message);
    assert_eq!(context.history.len(), 1);
    assert!(context.token_count > 0);
    assert_eq!(context.metadata.message_count, 1);
}

#[test]
fn test_context_trimming() {
    let mut context = Context::new("test");

    // Add multiple messages
    for i in 0..10 {
        let msg = Message::text(&format!("Message {i}"));
        context.add_message(&msg);
    }

    let original_count = context.history.len();
    context.trim_to_token_limit(10); // Very low limit

    assert!(context.history.len() < original_count);
    assert!(context.token_count <= 10);
}

#[test]
fn test_context_variables() {
    let mut context = Context::new("test");

    context.set_variable("key", serde_json::Value::String("value".to_string()));
    assert_eq!(
        context.get_variable("key"),
        Some(&serde_json::Value::String("value".to_string()))
    );
    assert_eq!(context.get_variable("missing"), None);
}

#[test]
fn test_context_expiry() {
    let context = Context::new("test");
    assert!(!context.is_expired(3_600_000));
}

#[test]
fn histories_count_tokens_by_bytes() {
    let mut context = Context::new("c");
    context.add_message(&Message::text("12345678"));
    assert_eq!(context.token_count, 2);
    context.add_message(&Message::text("éééé"));
    assert_eq!(context.token_count, 4);
    let response = Response::text("c", "abcdabcdabcd").with_usage(TokenUsage::new(10, 20, "m", 7));
    context.add_response(&response);
    assert_eq!(context.token_count, 7);
    assert_eq!(context.metadata.message_count, 3);
    assert_eq!(context.metadata.total_tokens, 30);
    assert_eq!(context.metadata.total_cost_nanos, 7);
    assert_eq!(context.history[0].role, MessageRole::User);
    assert_eq!(context.history[2].role, MessageRole::Assistant);
    assert_eq!(context.history[2].content, "abcdabcdabcd");
    assert_eq!(ContextMessage::system("be brief").role, MessageRole::System);
    assert_eq!(ContextMessage::system("12345").estimated_tokens(), 1);
    // Trimming removes the oldest until the count fits.
    context.trim_to_token_limit(5);
    assert_eq!(context.history.len(), 2);
    assert_eq!(context.token_count, 5);
    context.trim_to_token_limit(5);
    assert_eq!(context.history.len(), 2);
    context.trim_to_token_limit(0);
    assert!(context.history.is_empty());
    assert_eq!(context.token_count, 0);
    assert_eq!(context.metadata.message_count, 3);
    context.add_message(&Message::text("again"));
    context.clear_history();
    assert!(context.history.is_empty());
    assert_eq!(context.metadata.message_count, 0);
    assert_eq!(context.metadata.total_tokens, 30);
}

#[test]
fn ages_are_measured_from_creation() {
    let context = Context::new("c");
    let born = context.metadata.created_at_ms;
    assert_eq!(context.age_at(born), 0);
    assert_eq!(context.age_at(born - 10), 0);
    assert_eq!(context.age_at(born + 1500), 1500);
    assert!(!context.is_expired_at(1500, born + 1500));
    assert!(context.is_expired_at(1500, born + 1501));
    assert!(context.age() < 60_000);
    let summary = context.summary();
    assert!(summary.starts_with("Context c - Messages: 0, Tokens: 0, Age: "));
}

fn manager() -> ContextManager {
    ContextManager::new(ContextConfig::default()).ok().unwrap()
}

#[test]
fn the_manager_hands_out_one_context_per_conversation() {
    let mut manager = manager();
    let born = manager.get_or_create("test-1").metadata.created_at_ms;
    let again = manager.get_or_create_at("test-1", born + 1000);
    assert_eq!(again.id, "test-1");
    assert_eq!(again.metadata.created_at_ms, born);
    // Past its time to live a context is replaced by a fresh one.
    let mut kept = Context::new("test-1");
    kept.add_message(&Message::text("remember me"));
    manager.update("test-1", kept);
    assert_eq!(manager.get_or_create("test-1").history.len(), 1);
    let fresh = manager.get_or_create_at("test-1", i64::MAX);
    assert!(fresh.history.is_empty());
    manager.delete("test-1");
    assert_eq!(manager.stats().total_contexts, 0);
}

#[test]
fn the_manager_trims_counts_and_forgets() {
    let mut config = ContextConfig::default();
    config.max_context_tokens = 100;
    config.context_ttl_ms = 1000;
    let mut manager = ContextManager::new(config).ok().unwrap();
    let mut long = Context::new("long");
    for _ in 0..10 {
        long.add_message(&Message::text(&"x".repeat(80)));
    }
    assert_eq!(long.token_count, 200);
    let born = long.metadata.created_at_ms;
    manager.update("long", long);
    manager.update("short", Context::new("short"));
    let stats = manager.stats();
    assert_eq!(stats.total_contexts, 2);
    assert_eq!(stats.cache_size, 2);
    assert_eq!(stats.total_tokens, 100);
    assert_eq!(stats.total_messages, 10);
    assert_eq!(manager.clear_expired_at(born), 0);
    assert_eq!(manager.stats().total_contexts, 2);
    manager.update("fresh", Context::new("fresh"));
    // Only what is older than the time to live goes.
    let before = manager.stats().total_contexts;
    let removed = manager.clear_expired();
    assert_eq!(removed + manager.stats().total_contexts, before);
    assert_eq!(manager.clear_expired_at(i64::MAX), before - removed);
    assert_eq!(manager.stats().total_contexts, 0);
    assert_eq!(manager.clear_expired(), 0);
}

#[test]
fn only_the_memory_backend_exists() {
    for (backend, message) in [
        (StorageBackend::Redis { url: "r".to_string() }, "Redis store not yet implemented"),
        (StorageBackend::Postgres { url: "p".to_string() }, "Postgres store not yet implemented"),
        (StorageBackend::Sqlite { path: "s".to_string() }, "SQLite store not yet implemented"),
    ] {
        let config = ContextConfig { storage_backend: backend, ..ContextConfig::default() };
        match ContextManager::new(config) {
            Err(e @ Error::Other { .. }) => assert_eq!(e.to_string(), message),
            _ => panic!("a failure is due"),
        }
    }
    let mut bad = ContextConfig::default();
    assert!(bad.validate().is_ok());
    bad.max_context_tokens = 99;
    assert!(bad.validate().is_err());
    bad.max_context_tokens = 100_001;
    assert!(bad.validate().is_err());
}

#[test]
fn the_memory_store_keeps_contexts_by_key() {
    let mut store = MemoryContextStore::new();
    store.set("test", Context::new("test"), 60_000, 0);
    store.set("other", Context::new("other"), 60_000, 0);
    let loaded = store.get("test");
    assert!(loaded.is_some());
    assert_eq!(loaded.unwrap().id, "test");
    assert_eq!(store.list_keys("t"), vec!["test".to_string(), "other".to_string()]);
    assert_eq!(store.list_keys("es"), vec!["test".to_string()]);
    assert!(store.list_keys("zzz").is_empty());
    store.delete("test");
    assert!(store.get("test").is_none());
    store.delete("test");
    assert!(store.get("other").is_some());
}

#[test]
fn test_context_manager() {
    let config = ContextConfig::default();
    let mut manager = ContextManager::new(config).ok().unwrap();

    let first = manager.get_or_create("test-1").id.clone();
    let second = manager.get_or_create("test-1").id.clone();

    // Should get the same context
    assert_eq!(first, second);
    assert_eq!(manager.stats().total_contexts, 1);
}

#[test]
fn test_memory_store() {
    let mut store = MemoryContextStore::new();
    let context = Context::new("test");

    store.set("test", context, 60_000, 0);

    let loaded = store.get("test");
    assert!(loaded.is_some());
    assert_eq!(loaded.unwrap().id, "test");

    store.delete("test");
    let deleted = store.get("test");
    assert!(deleted.is_none());
}
