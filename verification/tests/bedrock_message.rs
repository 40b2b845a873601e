use universal_bot::bedrock::error::BedrockError;
use universal_bot::bedrock::message::{
    BedrockMessage, ContentBlock, ConversationContext, ConversationRole, GenerationResponse,
    MessageRole, StreamChunk, TokenUsage, UniversalMessage,
};
use universal_bot::string_map::StringMap;

#[test]
fn test_universal_message_creation() {
    let user_msg = UniversalMessage::user("Hello, bot!");
    assert_eq!(user_msg.role, MessageRole::User);
    assert_eq!(user_msg.content, "Hello, bot!");

    let assistant_msg = UniversalMessage::assistant("Hello, user!");
    assert_eq!(assistant_msg.role, MessageRole::Assistant);
    assert_eq!(assistant_msg.content, "Hello, user!");
}

#[test]
fn test_message_with_metadata() {
    let msg = UniversalMessage::user("Test")
        .with_metadata("key", serde_json::Value::String("value".to_string()));

    assert!(msg.metadata.contains_key("key"));
    assert_eq!(
        msg.metadata.get("key"),
        Some(&serde_json::Value::String("value".to_string()))
    );
}

#[test]
fn test_bedrock_conversion() {
    let user_msg = UniversalMessage::user("Test message");
    let bedrock_msg = user_msg.to_bedrock_message().unwrap();

    // Verify the conversion worked
    assert!(!bedrock_msg.content.is_empty());

    // Convert back
    let converted_back = UniversalMessage::from_bedrock_message(&bedrock_msg).unwrap();
    assert_eq!(converted_back.role, MessageRole::User);
    assert_eq!(converted_back.content, "Test message");
}

#[test]
fn test_system_message_conversion_error() {
    let system_msg = UniversalMessage::system("System prompt");
    let result = system_msg.to_bedrock_message();
    assert!(result.is_err());
}

#[test]
fn test_generation_response() {
    let usage = TokenUsage::new(100, 50, "test-model", 10_000_000);
    let response = GenerationResponse {
        id: uuid::Uuid::new_v4(),
        content: "Generated text".to_string(),
        model: "test-model".to_string(),
        usage: Some(usage),
        metadata: StringMap::new(),
        timestamp_ms: 0,
        finish_reason: "stop".to_string(),
    };

    assert_eq!(response.total_tokens(), 150);
    assert_eq!(response.estimated_cost_nanos(), 10_000_000);
    assert!(!response.is_truncated());
    assert!(!response.is_content_filtered());
}

#[test]
fn test_conversation_context() {
    let mut context = ConversationContext::new("test-conversation");

    context.add_user_message("Hello");
    context.add_assistant_message("Hi there!", Some(20));

    assert_eq!(context.messages.len(), 2);
    assert_eq!(context.total_tokens, 20);

    let last_two = context.last_messages(2);
    assert_eq!(last_two.len(), 2);
}

#[test]
fn test_stream_chunk() {
    let chunk = StreamChunk::content("Hello");
    assert_eq!(chunk.content, "Hello");
    assert!(!chunk.is_final);
    assert!(chunk.usage.is_none());

    let usage = TokenUsage::new(10, 5, "test", 1_000_000);
    let final_chunk = StreamChunk::final_chunk(usage);
    assert!(final_chunk.is_final);
    assert!(final_chunk.usage.is_some());
}

#[test]
fn conversions_refuse_what_has_no_counterpart() {
    match UniversalMessage::system("s").to_bedrock_message() {
        Err(BedrockError::InvalidInput(m)) => {
            assert_eq!(m, "System messages should be handled separately in Bedrock")
        }
        _ => panic!("a failure is due"),
    }
    let assistant = UniversalMessage::assistant("a").to_bedrock_message().unwrap();
    assert_eq!(assistant.role, ConversationRole::Assistant);
    assert!(matches!(&assistant.content[0], ContentBlock::Text(t) if t == "a"));
    let unknown = BedrockMessage {
        role: ConversationRole::Unknown,
        content: vec![ContentBlock::Text("x".to_string())],
    };
    match UniversalMessage::from_bedrock_message(&unknown) {
        Err(BedrockError::InvalidResponse(m)) => assert_eq!(m, "Unknown message role"),
        _ => panic!("a failure is due"),
    }
    for content in [vec![], vec![ContentBlock::Other, ContentBlock::Text("late".to_string())]] {
        let message = BedrockMessage { role: ConversationRole::User, content };
        match UniversalMessage::from_bedrock_message(&message) {
            Err(BedrockError::InvalidResponse(m)) => assert_eq!(m, "No text content found"),
            _ => panic!("a failure is due"),
        }
    }
}

#[test]
fn the_total_is_always_the_sum() {
    let usage = TokenUsage::new(7, 11, "m", 3);
    assert_eq!(usage.total_tokens(), 18);
    assert_eq!(usage.total_tokens(), usage.input_tokens() + usage.output_tokens());
    let copy = usage.clone();
    assert_eq!(copy.total_tokens(), 18);
    assert_eq!(copy.model(), "m");
    assert_eq!(copy.estimated_cost_nanos(), 3);
}

#[test]
fn responses_without_usage_count_nothing() {
    let mut response = GenerationResponse {
        id: uuid::Uuid::new_v4(),
        content: String::new(),
        model: "m".to_string(),
        usage: None,
        metadata: StringMap::new(),
        timestamp_ms: 0,
        finish_reason: "max_tokens".to_string(),
    };
    assert_eq!(response.total_tokens(), 0);
    assert_eq!(response.estimated_cost_nanos(), 0);
    assert!(response.is_truncated());
    response.finish_reason = "length".to_string();
    assert!(response.is_truncated());
    response.finish_reason = "content_filter".to_string();
    assert!(response.is_content_filtered());
    assert!(!response.is_truncated());
}

#[test]
fn conversations_trim_from_the_oldest() {
    let mut context = ConversationContext::new("c");
    for i in 0..5 {
        context.add_assistant_message(&format!("m{}", i), Some(1000));
    }
    assert_eq!(context.total_tokens, 5000);
    assert_eq!(context.last_messages(2)[0].content, "m3");
    assert_eq!(context.last_messages(9).len(), 5);
    assert_eq!(context.last_messages(0).len(), 0);
    // Within the limit nothing changes.
    context.trim_to_token_limit(5000);
    assert_eq!(context.messages.len(), 5);
    assert_eq!(context.total_tokens, 5000);
    // Over the limit the oldest go and the count is estimated anew.
    context.trim_to_token_limit(250);
    assert_eq!(context.messages.len(), 2);
    assert_eq!(context.messages[0].content, "m3");
    assert_eq!(context.total_tokens, 200);
    context.total_tokens = 1000;
    context.trim_to_token_limit(999);
    assert_eq!(context.messages.len(), 1);
    assert_eq!(context.total_tokens, 100);
    context.total_tokens = 1000;
    context.trim_to_token_limit(0);
    assert!(context.messages.is_empty());
    assert_eq!(context.total_tokens, 0);
    context.add_message(UniversalMessage::system("s"));
    context.add_assistant_message("a", None);
    assert_eq!(context.total_tokens, 0);
    assert_eq!(context.messages.len(), 2);
}

#[test]
fn test_message_conversion() {
    let msg = UniversalMessage {
        role: MessageRole::User,
        content: "Test message".to_string(),
        metadata: StringMap::new(),
    };

    let bedrock_msg = msg.to_bedrock_message().unwrap();
    // Verify the conversion worked
    assert!(!bedrock_msg.content.is_empty());
}
