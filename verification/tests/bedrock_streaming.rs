use universal_bot::bedrock::error::BedrockError;
use universal_bot::bedrock::message::{StreamChunk, TokenUsage};
use universal_bot::bedrock::streaming::{
    collect_chunks, collect_text, StreamBuffer, StreamEvent, StreamProcessor, StreamStep,
    StreamingResponse,
};

#[test]
fn test_stream_buffer() {
    let mut buffer = StreamBuffer::new();

    let chunk1 = StreamChunk::content("Hello");
    let chunk2 = StreamChunk::content(" world");
    let usage = TokenUsage::new(10, 5, "test", 1_000_000);
    let final_chunk = StreamChunk::final_chunk(usage);

    buffer.add_chunk(chunk1);
    buffer.add_chunk(chunk2);
    buffer.add_chunk(final_chunk);

    assert_eq!(buffer.content(), "Hello world");
    assert_eq!(buffer.chunks().len(), 3);
    assert_eq!(buffer.total_tokens(), 15);
    assert!(buffer.is_complete());
}

fn synthetic_events() -> Vec<StreamEvent> {
    vec![
        StreamEvent::Text("Hello".to_string()),
        StreamEvent::Pending,
        StreamEvent::Text(" world".to_string()),
        StreamEvent::Usage(TokenUsage::new(10, 5, "test", 1_000_000)),
        StreamEvent::End,
    ]
}

#[test]
fn collect_text_joins_the_text_and_keeps_the_final_chunk_for_usage() {
    let mut stream = StreamingResponse::new("test-model".to_string());
    assert_eq!(stream.model(), "test-model");
    assert!(!stream.is_finished());
    let items = stream.drain(synthetic_events());
    assert!(stream.is_finished());
    assert_eq!(items.len(), 3);
    let last = items[2].as_ref().unwrap();
    assert!(last.is_final);
    assert_eq!(last.content, "");
    let usage = last.usage.as_ref().unwrap();
    assert_eq!(usage.input_tokens(), 10);
    assert_eq!(usage.output_tokens(), 5);
    assert_eq!(usage.total_tokens(), 15);
    assert_eq!(usage.model(), "test");
    assert_eq!(usage.estimated_cost_nanos(), 1_000_000);
    let (text, usage) = collect_text(items).unwrap();
    assert_eq!(text, "Hello world");
    // The usage of the final chunk comes back with the text.
    let usage = usage.unwrap();
    assert_eq!(usage.input_tokens(), 10);
    assert_eq!(usage.output_tokens(), 5);
    assert_eq!(usage.total_tokens(), 15);
    assert_eq!(usage.model(), "test");
    assert_eq!(usage.estimated_cost_nanos(), 1_000_000);
}

#[test]
fn collect_chunks_keeps_every_chunk_in_order() {
    let mut stream = StreamingResponse::new("m".to_string());
    let chunks = collect_chunks(stream.drain(synthetic_events())).unwrap();
    assert_eq!(chunks.len(), 3);
    assert_eq!(chunks[0].content, "Hello");
    assert_eq!(chunks[1].content, " world");
    assert!(!chunks[0].is_final && !chunks[1].is_final && chunks[2].is_final);
    assert!(chunks[0].usage.is_none());
}

#[test]
fn a_finished_stream_stays_finished() {
    let mut stream = StreamingResponse::new("m".to_string());
    assert!(matches!(stream.on_event(StreamEvent::Pending), StreamStep::Pending));
    assert!(matches!(
        stream.on_event(StreamEvent::Text("a".to_string())),
        StreamStep::Chunk(_)
    ));
    assert!(matches!(
        stream.on_event(StreamEvent::Usage(TokenUsage::new(1, 2, "m", 3))),
        StreamStep::Again
    ));
    match stream.on_event(StreamEvent::End) {
        StreamStep::Chunk(c) => {
            assert!(c.is_final);
            assert_eq!(c.usage.unwrap().total_tokens(), 3);
        }
        _ => panic!("the final chunk is due"),
    }
    assert!(stream.is_finished());
    // Nothing comes back to life.
    assert!(matches!(stream.on_event(StreamEvent::End), StreamStep::Ended));
    assert!(matches!(
        stream.on_event(StreamEvent::Text("late".to_string())),
        StreamStep::Ended
    ));
    assert!(matches!(
        stream.on_event(StreamEvent::Failed(BedrockError::Timeout("t".to_string()))),
        StreamStep::Ended
    ));
    assert!(stream.drain(synthetic_events()).is_empty());
}

#[test]
fn a_stream_without_usage_ends_without_a_final_chunk() {
    let mut stream = StreamingResponse::new("m".to_string());
    let items = stream.drain(vec![StreamEvent::Text("only".to_string()), StreamEvent::End]);
    assert_eq!(items.len(), 1);
    assert!(stream.is_finished());
    let (text, usage) = collect_text(items).unwrap();
    assert_eq!(text, "only");
    assert!(usage.is_none());
}

#[test]
fn an_upstream_failure_is_the_last_item() {
    let mut stream = StreamingResponse::new("m".to_string());
    let items = stream.drain(vec![
        StreamEvent::Text("a".to_string()),
        StreamEvent::Usage(TokenUsage::new(1, 1, "m", 0)),
        StreamEvent::Failed(BedrockError::ServiceError("boom".to_string())),
        StreamEvent::Text("b".to_string()),
        StreamEvent::End,
    ]);
    assert_eq!(items.len(), 2);
    assert!(matches!(items[1], Err(BedrockError::ServiceError(_))));
    assert!(stream.is_finished());
    match collect_text(items) {
        Err(BedrockError::ServiceError(m)) => assert_eq!(m, "boom"),
        _ => panic!("the failure is due"),
    }
    let failing: Vec<Result<StreamChunk, BedrockError>> = vec![
        Ok(StreamChunk::content("x")),
        Err(BedrockError::Timeout("first".to_string())),
        Err(BedrockError::Internal("second".to_string())),
    ];
    match collect_chunks(failing) {
        Err(BedrockError::Timeout(m)) => assert_eq!(m, "first"),
        _ => panic!("the first failure is due"),
    }
}

#[test]
fn the_processor_hands_every_chunk_to_the_handler() {
    let seen = std::cell::RefCell::new(String::new());
    let processor = StreamProcessor::new(|chunk: StreamChunk| {
        if !chunk.is_final {
            seen.borrow_mut().push_str(&chunk.content);
        }
        Ok(())
    });
    let mut stream = StreamingResponse::new("m".to_string());
    let usage = processor.process(stream.drain(synthetic_events())).unwrap();
    assert_eq!(seen.borrow().as_str(), "Hello world");
    assert_eq!(usage.total_tokens(), 15);
}

#[test]
fn the_processor_fails_without_usage_and_on_a_failing_handler() {
    let processor = StreamProcessor::new(|_chunk: StreamChunk| Ok(()));
    let items: Vec<Result<StreamChunk, BedrockError>> = vec![Ok(StreamChunk::content("x"))];
    match processor.process(items) {
        Err(BedrockError::InvalidResponse(m)) => assert_eq!(m, "No usage information received"),
        _ => panic!("a failure is due"),
    }
    let items: Vec<Result<StreamChunk, BedrockError>> =
        vec![Err(BedrockError::RateLimited("slow".to_string()))];
    assert!(matches!(processor.process(items), Err(BedrockError::RateLimited(_))));
    let refusing =
        StreamProcessor::new(|_chunk: StreamChunk| Err(BedrockError::Internal("no".to_string())));
    let items: Vec<Result<StreamChunk, BedrockError>> = vec![
        Ok(StreamChunk::content("x")),
        Ok(StreamChunk::final_chunk(TokenUsage::new(1, 1, "m", 0))),
    ];
    assert!(matches!(refusing.process(items), Err(BedrockError::Internal(_))));
}

#[test]
fn the_buffer_clears_and_tracks_completion() {
    let mut buffer = StreamBuffer::default();
    assert!(!buffer.is_complete());
    buffer.add_chunk(StreamChunk::final_chunk(TokenUsage::new(3, 4, "m", 9)));
    assert!(buffer.is_complete());
    assert_eq!(buffer.total_tokens(), 7);
    assert_eq!(buffer.estimated_cost_nanos(), 9);
    buffer.add_chunk(StreamChunk::content("more"));
    assert!(!buffer.is_complete());
    assert_eq!(buffer.total_tokens(), 7);
    buffer.clear();
    assert_eq!(buffer.content(), "");
    assert_eq!(buffer.chunks().len(), 0);
    assert_eq!(buffer.total_tokens(), 0);
    assert_eq!(buffer.estimated_cost_nanos(), 0);
}

#[test]
fn test_stream_processor() {
    let events = vec![
        StreamEvent::Text("Hello".to_string()),
        StreamEvent::Text(" world".to_string()),
        StreamEvent::Usage(TokenUsage::new(10, 5, "test", 1_000_000)),
        StreamEvent::End,
    ];
    let mut streaming_response = StreamingResponse::new("test-model".to_string());
    let items = streaming_response.drain(events);

    let content = std::cell::RefCell::new(String::new());
    let processor = StreamProcessor::new(|chunk: StreamChunk| {
        if !chunk.is_final {
            content.borrow_mut().push_str(&chunk.content);
        }
        Ok(())
    });

    let usage = processor.process(items).unwrap();
    assert_eq!(content.borrow().as_str(), "Hello world");
    assert_eq!(usage.total_tokens(), 15);
}
