use universal_bot::framework::error::Error;
use universal_bot::framework::message::{
    Attachment, Message, MessageFlags, MessageType, Response, ResponseError, ResponseFlags,
    ResponseType, Suggestion, SuggestionAction, TokenUsage,
};

#[test]
fn message_test_message_creation() {
    let message = Message::text("Hello, bot!");
    assert_eq!(message.content, "Hello, bot!");
    assert_eq!(message.message_type, MessageType::Text);
    assert!(message.validate().is_ok());
}

#[test]
fn test_message_builder() {
    let attachment = Attachment::new(
        "image.png",
        "image/png",
        1024,
        "http://example.com/image.png",
    );
    let message = Message::text("Check this out")
        .with_conversation_id("conv-123")
        .with_user_id("user-456")
        .with_attachment(attachment)
        .with_metadata("key", serde_json::Value::String("value".to_string()));

    assert_eq!(message.conversation_id, "conv-123");
    assert_eq!(message.user_id, "user-456");
    assert_eq!(message.attachments.len(), 1);
    assert!(message.metadata.contains_key("key"));
}

#[test]
fn test_empty_message_validation() {
    let mut message = Message::text("");
    message.content.clear();
    assert!(message.validate().is_err());
}

#[test]
fn test_response_creation() {
    let response = Response::text("conv-123", "Hello, user!");
    assert_eq!(response.content, "Hello, user!");
    assert_eq!(response.conversation_id, "conv-123");
    assert!(!response.is_error());
}

#[test]
fn message_test_error_response() {
    let error = ResponseError::new("E001", "Something went wrong")
        .retryable(true)
        .retry_after(60);
    let response = Response::error("conv-123", error);

    assert!(response.is_error());
    assert!(response.error.is_some());

    let error = response.error.unwrap();
    assert_eq!(error.code, "E001");
    assert!(error.retryable);
    assert_eq!(error.retry_after, Some(60));
}

#[test]
fn test_attachment_types() {
    let image = Attachment::new(
        "photo.jpg",
        "image/jpeg",
        2048,
        "http://example.com/photo.jpg",
    );
    assert!(image.is_image());
    assert!(!image.is_video());
    assert!(!image.is_audio());

    let video = Attachment::new(
        "movie.mp4",
        "video/mp4",
        1_048_576,
        "http://example.com/movie.mp4",
    );
    assert!(!video.is_image());
    assert!(video.is_video());
    assert!(!video.is_audio());

    let audio = Attachment::new(
        "song.mp3",
        "audio/mpeg",
        4096,
        "http://example.com/song.mp3",
    );
    assert!(!audio.is_image());
    assert!(!audio.is_video());
    assert!(audio.is_audio());
}

#[test]
fn messages_are_validated_by_their_length_in_characters() {
    assert!(Message::text("x").validate().is_ok());
    let longest = "é".repeat(100_000);
    assert!(Message::text(&longest).validate().is_ok());
    let too_long = "x".repeat(100_001);
    match Message::text(&too_long).validate() {
        Err(Error::Validation(_)) => {}
        _ => panic!("a validation error is due"),
    }
}

#[test]
fn message_builders_set_one_thing_each() {
    let parent = uuid::Uuid::new_v4();
    let flags = MessageFlags { urgent: true, ..MessageFlags::default() };
    let message = Message::with_type("/go", MessageType::Command)
        .with_parent(parent)
        .with_flags(flags)
        .with_attachment(Attachment::new("a", "text/plain", 10, "u"))
        .with_attachment(Attachment::new("b", "text/plain", 32, "u"));
    assert_eq!(message.message_type, MessageType::Command);
    assert_eq!(message.user_id, "anonymous");
    assert_eq!(message.parent_id, Some(parent));
    assert!(message.flags.urgent && !message.flags.private);
    assert!(message.has_attachments());
    assert_eq!(message.attachment_size(), 42);
    assert!(!message.is_system());
    assert!(Message::with_type("s", MessageType::System).is_system());
    assert_eq!(Message::text("t").attachment_size(), 0);
    assert!(!Message::text("t").has_attachments());
    for (t, media) in [
        (MessageType::Text, false),
        (MessageType::Command, false),
        (MessageType::System, false),
        (MessageType::Error, false),
        (MessageType::Embed, false),
        (MessageType::File, true),
        (MessageType::Image, true),
        (MessageType::Audio, true),
        (MessageType::Video, true),
    ] {
        assert_eq!(t.is_media(), media);
    }
}

#[test]
fn responses_carry_usage_flags_and_suggestions() {
    let usage = TokenUsage::new(100, 50, "some-model", 5);
    assert_eq!(usage.total_tokens(), 150);
    let response = Response::text("c", "hello")
        .with_usage(usage)
        .with_flags(ResponseFlags { cached: true, ..ResponseFlags::default() })
        .with_suggestion(Suggestion {
            text: "more".to_string(),
            action: SuggestionAction::Message("tell me more".to_string()),
            icon: None,
        });
    assert_eq!(response.total_tokens(), 150);
    assert!(response.flags.cached && !response.flags.partial);
    assert_eq!(response.suggestions.len(), 1);
    assert_eq!(response.response_type, ResponseType::Text);
    assert_eq!(Response::text("c", "x").total_tokens(), 0);
    let failed = Response::error("c", ResponseError::new("E1", "went wrong"));
    assert_eq!(failed.content, "went wrong");
    assert_eq!(failed.response_type, ResponseType::Error);
    let plain = ResponseError::new("E1", "m");
    assert!(!plain.retryable);
    assert_eq!(plain.retry_after, None);
}
