use universal_bot::bedrock::client::{
    build_response, calculate_cost, classify_send_failure, client_for_request, select_client,
    AttemptError,
    BedrockClient, MockBedrockClient, RawResponse,
};
use universal_bot::bedrock::error::BedrockError;
use universal_bot::bedrock::message::UniversalMessage;

#[test]
fn test_cost_calculation() {
    let cost = calculate_cost(1000, 500, 3_000_000, 15_000_000);
    assert!(cost > 0);
    assert!(cost < 1_000_000_000); // Reasonable bounds
}

#[test]
fn costs_follow_the_rates() {
    assert_eq!(calculate_cost(1000, 500, 3_000_000, 15_000_000), 3_000_000 + 7_500_000);
    assert_eq!(calculate_cost(1, 1, 250_000, 1_250_000), 250 + 1250);
    assert_eq!(calculate_cost(0, 0, 1_000_000, 2_000_000), 0);
    assert_eq!(calculate_cost(3, 0, 1, 0), 0);
    assert_eq!(calculate_cost(usize::MAX, usize::MAX, u64::MAX, u64::MAX), u64::MAX);
}

#[test]
fn clients_are_chosen_by_the_request_number() {
    assert_eq!(select_client(0, 5), 0);
    assert_eq!(select_client(7, 5), 2);
    assert_eq!(select_client(12, 1), 0);
    let big: u128 = (1u128 << 100) + 9;
    assert_eq!(select_client(big, 4), ((big as usize) % 4));
    for n in 0..50u128 {
        assert!(select_client(n * 7919, 3) < 3);
    }
    let id = uuid::Uuid::new_v4();
    assert_eq!(client_for_request(&id, 7), select_client(id.as_u128(), 7));
    // The identifier's number decides, so the clients take turns as it grows.
    for n in 0..40u128 {
        let id = uuid::Uuid::from_u128(n);
        assert_eq!(client_for_request(&id, 4), (n % 4) as usize);
        assert_eq!(client_for_request(&id, 4), client_for_request(&id, 4));
    }
    let high = uuid::Uuid::from_u128(u128::MAX);
    assert_eq!(client_for_request(&high, 10), (usize::MAX % 10));
    assert_eq!(client_for_request(&high, 1), 0);
}

#[test]
fn send_failures_are_read_by_their_origin() {
    match classify_send_failure(true, "throttled".to_string()) {
        AttemptError::Transient(BedrockError::ServiceError(m)) => assert_eq!(m, "throttled"),
        _ => panic!("a transient service error is due"),
    }
    match classify_send_failure(false, "no route".to_string()) {
        AttemptError::Permanent(BedrockError::RequestFailed(m)) => assert_eq!(m, "no route"),
        _ => panic!("a permanent request failure is due"),
    }
    let e = classify_send_failure(true, "x".to_string()).into_error();
    assert!(e.is_retryable());
}

#[test]
fn responses_are_built_from_what_came_back() {
    let id = uuid::Uuid::new_v4();
    let raw = RawResponse {
        text: Some("hello".to_string()),
        tokens: Some((1000, 500)),
        stop_reason: Some("end_turn".to_string()),
    };
    let response = build_response(id, "m", raw, (3_000_000, 15_000_000), 42).ok().unwrap();
    assert_eq!(response.id, id);
    assert_eq!(response.content, "hello");
    assert_eq!(response.model, "m");
    assert_eq!(response.finish_reason, "end_turn");
    assert_eq!(response.timestamp_ms, 42);
    assert_eq!(response.total_tokens(), 1500);
    assert_eq!(response.estimated_cost_nanos(), 10_500_000);
    let raw = RawResponse { text: Some(String::new()), tokens: None, stop_reason: None };
    let response = build_response(id, "m", raw, (1, 1), 0).ok().unwrap();
    assert_eq!(response.finish_reason, "unknown");
    assert!(response.usage.is_none());
    let raw = RawResponse { text: None, tokens: Some((1, 1)), stop_reason: None };
    match build_response(id, "m", raw, (1, 1), 0) {
        Err(AttemptError::Permanent(BedrockError::InvalidResponse(m))) => {
            assert_eq!(m, "No text content in response")
        }
        _ => panic!("a permanent failure is due"),
    }
}

#[test]
fn the_mock_answers_as_it_was_told() {
    let mut client = MockBedrockClient::new();
    let reply = client.generate_text("m1", vec![UniversalMessage::user("hi")], None).unwrap();
    assert_eq!(reply.content, "Mock response from m1");
    assert_eq!(reply.model, "m1");
    assert_eq!(reply.finish_reason, "stop");
    assert!(reply.usage.is_none());
    client.add_response("m1", "first");
    client.add_response("m2", "second");
    client.add_response("m1", "replaced");
    assert_eq!(client.generate_text("m1", vec![], None).unwrap().content, "replaced");
    assert_eq!(client.generate_text("m2", vec![], None).unwrap().content, "second");
    let chunks = client.stream_text("m1", vec![], None).unwrap();
    let text: String = chunks.iter().map(|c| c.content.as_str()).collect();
    assert_eq!(text, "Mock streaming response");
    let health = client.health_check().unwrap();
    assert!(health.healthy);
    assert_eq!(health.latency_ms, 1);
    assert_eq!(
        MockBedrockClient::default().list_models().unwrap(),
        vec!["mock-model-1".to_string(), "mock-model-2".to_string()]
    );
}
