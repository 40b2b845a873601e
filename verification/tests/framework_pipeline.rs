use universal_bot::framework::config::BotConfig;
use universal_bot::framework::error::Error;
use universal_bot::framework::message::{Attachment, Message, MessageType, Response, ResponseType};
use universal_bot::framework::pipeline::{
    average_of, is_sensitive_key, EnrichStage, FormatStage, LoggingMiddleware, MessagePipeline,
    PipelineContext, PipelineMetrics, PipelineMiddleware, PipelineStage, ProcessStage, Route,
    RouteStage, SanitizeStage, Stage, TimeoutMiddleware,
};
use universal_bot::string_map::StringMap;

#[test]
fn test_sanitize_stage() {
    let stage = SanitizeStage::new();
    let content = "Hello\x00World\x01Test";
    let sanitized = stage.sanitize_content(content);
    assert!(!sanitized.contains('\x00'));
    assert!(!sanitized.contains('\x01'));
}

#[test]
fn test_route_stage_command_extraction() {
    let stage = RouteStage::new();
    assert_eq!(stage.extract_command("/help me"), Some("help".to_string()));
    assert_eq!(stage.extract_command("not a command"), None);
}

fn reference_sanitize(content: &str) -> String {
    let kept = content
        .chars()
        .filter(|c| !c.is_control() || c.is_whitespace())
        .collect::<String>();
    kept.lines()
        .map(str::trim)
        .filter(|line| !line.is_empty())
        .collect::<Vec<_>>()
        .join("\n")
}

#[test]
fn sanitizing_drops_controls_and_trims_lines() {
    let stage = SanitizeStage::new();
    assert_eq!(stage.sanitize_content("Hello\x00World\x01Test"), "HelloWorldTest");
    assert_eq!(stage.sanitize_content("  a  \n\n\t b\t\r\n   \nc"), "a\nb\nc");
    assert_eq!(stage.sanitize_content(""), "");
    assert_eq!(stage.sanitize_content(" \n \r\n\t"), "");
    assert_eq!(stage.sanitize_content("one\n"), "one");
    assert_eq!(stage.sanitize_content("a\rb"), "a\rb");
    assert_eq!(stage.sanitize_content("\u{3000}wide\u{a0}\nspace\u{2028}"), "wide\nspace");
    for sample in [
        "plain",
        "  lead and trail  ",
        "x\x07y\x1bz",
        "\r\n\r\nfirst\r\n  second \r\n",
        "tab\there\nnew\x0bline\x0c",
        "zero\u{200b}width\n\u{feff}bom",
        "\n\n\n",
        "a \n b \n c ",
    ] {
        assert_eq!(stage.sanitize_content(sample), reference_sanitize(sample));
    }
}

#[test]
fn sensitive_metadata_is_removed() {
    let stage = SanitizeStage::new();
    let mut metadata: StringMap<serde_json::Value> = StringMap::new();
    for key in ["user", "Password", "API_KEY", "x-auth-header", "Token", "my_secret", "lang"] {
        metadata.insert(key.to_string(), serde_json::Value::Null);
    }
    stage.sanitize_metadata(&mut metadata);
    assert_eq!(metadata.len(), 2);
    assert!(metadata.contains_key("user"));
    assert!(metadata.contains_key("lang"));
    assert!(is_sensitive_key("the password"));
    assert!(is_sensitive_key("author"));
    assert!(!is_sensitive_key("api-key"));
}

#[test]
fn commands_are_the_first_word_without_its_slashes() {
    let stage = RouteStage::new();
    let cases = [
        ("/help", Some("help")),
        ("/help\tme now", Some("help")),
        ("//double x", Some("double")),
        ("/", Some("")),
        ("/ spaced", Some("")),
        ("/a/b c", Some("a/b")),
        ("", None),
        (" /late", None),
        ("word /x", None),
    ];
    for (content, command) in cases {
        assert_eq!(stage.extract_command(content).as_deref(), command);
    }
}

#[test]
fn routes_follow_type_and_attachments() {
    let stage = RouteStage::new();
    let with_file = |t| {
        Message::with_type("x", t).with_attachment(Attachment::new("f", "image/png", 1, "u"))
    };
    assert_eq!(stage.route_for(&Message::with_type("x", MessageType::Command)), Route::Command);
    assert_eq!(stage.route_for(&with_file(MessageType::Command)), Route::Command);
    assert_eq!(stage.route_for(&with_file(MessageType::System)), Route::System);
    assert_eq!(stage.route_for(&with_file(MessageType::Error)), Route::Error);
    assert_eq!(stage.route_for(&with_file(MessageType::Text)), Route::Media);
    assert_eq!(stage.route_for(&Message::text("x")), Route::Default);
    assert_eq!(stage.route_for(&Message::with_type("x", MessageType::Image)), Route::Default);
    assert_eq!(Route::Media.as_str(), "media");
    assert_eq!(Route::Default.as_str(), "default");
    assert_eq!(EnrichStage::new().detect_language("bonjour"), "en");
}

#[test]
fn answers_depend_on_the_route() {
    let stage = ProcessStage::new();
    let message = Message::text("hello")
        .with_attachment(Attachment::new("a", "image/png", 1, "u"))
        .with_attachment(Attachment::new("b", "image/png", 1, "u"));
    assert_eq!(stage.answer(Route::Default, &None, &message), "Processing message: hello");
    assert_eq!(stage.answer(Route::System, &None, &message), "System message received");
    assert_eq!(stage.answer(Route::Error, &None, &message), "Error processed");
    assert_eq!(stage.answer(Route::Media, &None, &message), "Received 2 attachment(s)");
    assert_eq!(stage.answer(Route::Command, &None, &message), "Executing command: unknown");
    assert_eq!(
        stage.answer(Route::Command, &Some("help".to_string()), &message),
        "Executing command: help"
    );
    assert_eq!(stage.process_command(&Some("x".to_string())), "Executing command: x");
}

fn reference_html(content: &str) -> String {
    format!(
        "<p>{}</p>",
        content
            .lines()
            .map(|line| format!("{}<br>", html_escape::encode_text(line)))
            .collect::<Vec<_>>()
            .join("\n")
    )
}

#[test]
fn html_escapes_every_line() {
    let stage = FormatStage::new();
    assert_eq!(stage.to_html("a < b & c > d"), "<p>a &lt; b &amp; c &gt; d<br></p>");
    assert_eq!(stage.to_html("one\ntwo"), "<p>one<br>\ntwo<br></p>");
    assert_eq!(stage.to_html(""), "<p></p>");
    assert_eq!(stage.to_html("\"quoted\" 'text'"), "<p>\"quoted\" 'text'<br></p>");
    for sample in [
        "plain",
        "trailing\n",
        "\n",
        "\n\n",
        "win\r\ndows\r\n",
        "lone\r",
        "mid\rdle\nlast\r",
        "<&>\n&&\n",
        "a\n\nb",
        "\r\n",
    ] {
        assert_eq!(stage.to_html(sample), reference_html(sample));
    }
}

#[test]
fn formats_set_the_type_and_html_rewrites_the_content() {
    let stage = FormatStage::new();
    let html = stage.apply_format("html", Response::text("c", "1 < 2"));
    assert_eq!(html.response_type, ResponseType::Html);
    assert_eq!(html.content, "<p>1 &lt; 2<br></p>");
    let markdown = stage.apply_format("markdown", Response::text("c", "1 < 2"));
    assert_eq!(markdown.response_type, ResponseType::Markdown);
    assert_eq!(markdown.content, "1 < 2");
    let json = stage.apply_format("json", Response::text("c", "{}"));
    assert_eq!(json.response_type, ResponseType::Json);
    let other = stage.apply_format("yaml", Response::text("c", "x"));
    assert_eq!(other.response_type, ResponseType::Text);
    assert_eq!(stage.response_type_for("HTML", ResponseType::Stream), ResponseType::Stream);
    let kept = stage.format_response(Some(Response::text("c", "a&b")), None).unwrap();
    assert_eq!(kept.content, "a&b");
    let made = stage
        .format_response(Some(Response::text("c", "a&b")), Some("html".to_string()))
        .unwrap();
    assert_eq!(made.content, "<p>a&amp;b<br></p>");
    assert_eq!(made.conversation_id, "c");
    assert!(stage.format_response(None, Some("html".to_string())).is_none());
}

#[test]
fn the_default_pipeline_answers_a_message() {
    let config = BotConfig::for_model("some-model");
    let mut pipeline = MessagePipeline::new(&config).ok().unwrap();
    let message = Message::text("  Hello\x00 there  ").with_conversation_id("conv-1");
    let response = pipeline.process(message).ok().unwrap();
    assert_eq!(response.conversation_id, "conv-1");
    assert_eq!(response.content, "Processing message: Hello there");
    assert_eq!(pipeline.metrics().requests_total(), 1);
    assert!(pipeline.metrics().average_processing_time().is_some());
    let command = Message::with_type("/status now", MessageType::Command)
        .with_metadata("format", serde_json::Value::String("html".to_string()));
    let response = pipeline.process(command).ok().unwrap();
    assert_eq!(response.content, "<p>Executing command: status<br></p>");
    assert_eq!(response.response_type, ResponseType::Html);
    // A message that is empty once sanitized fails validation.
    match pipeline.process(Message::text(" \x00 ")) {
        Err(Error::Validation(_)) => {}
        _ => panic!("a validation error is due"),
    }
    assert_eq!(pipeline.metrics().requests_total(), 3);
}

#[test]
fn pipelines_are_built_from_known_stages() {
    let mut config = BotConfig::for_model("some-model");
    config.pipeline_config.enabled_stages = vec!["route".to_string(), "bogus".to_string()];
    match MessagePipeline::new(&config) {
        Err(Error::Configuration(m)) => assert_eq!(m, "Unknown pipeline stage: bogus"),
        _ => panic!("a configuration error is due"),
    }
    for name in ["sanitize", "enrich", "route", "process", "format"] {
        assert_eq!(MessagePipeline::create_stage(name).ok().unwrap().name(), name);
    }
    config.pipeline_config.enabled_stages = vec![];
    let mut pipeline = MessagePipeline::new(&config).ok().unwrap();
    let response = pipeline.process(Message::text("x").with_conversation_id("c")).ok().unwrap();
    assert_eq!(response.content, "Message processed successfully");
    assert_eq!(response.conversation_id, "c");
    pipeline.add_stage(Stage::Process(ProcessStage::new()));
    let response = pipeline.process(Message::text("x")).ok().unwrap();
    assert_eq!(response.content, "Processing message: x");
}

#[test]
fn stages_fill_the_context() {
    let message = Message::text("look")
        .with_attachment(Attachment::new("f", "image/png", 1, "u"))
        .with_metadata("password", serde_json::Value::Null);
    let ctx = PipelineContext::new(message);
    let ctx = SanitizeStage::new().process(ctx).ok().unwrap();
    assert!(!ctx.message.metadata.contains_key("password"));
    let ctx = EnrichStage::new().process(ctx).ok().unwrap();
    assert_eq!(
        ctx.message.metadata.get("language"),
        Some(&serde_json::Value::String("en".to_string()))
    );
    let ctx = RouteStage::new().process(ctx).ok().unwrap();
    assert_eq!(ctx.route, Some(Route::Media));
    assert_eq!(ctx.media_types, vec!["image/png".to_string()]);
    let ctx = ProcessStage::new().process(ctx).ok().unwrap();
    assert_eq!(ctx.response.as_ref().unwrap().content, "Received 1 attachment(s)");
    let ctx = FormatStage::new().process(ctx).ok().unwrap();
    assert_eq!(ctx.response.as_ref().unwrap().response_type, ResponseType::Text);
    assert_eq!(SanitizeStage::new().name(), "sanitize");
    assert_eq!(FormatStage::new().name(), "format");
}

#[test]
fn metrics_remember_the_last_thousand_times() {
    let mut metrics = PipelineMetrics::new();
    assert_eq!(metrics.requests_total(), 0);
    assert!(metrics.average_processing_time().is_none());
    metrics.increment_requests();
    metrics.record_processing_time(100);
    metrics.record_processing_time(200);
    assert_eq!(metrics.requests_total(), 1);
    assert_eq!(metrics.average_processing_time(), Some(150));
    for _ in 0..1000 {
        metrics.record_processing_time(10);
    }
    assert_eq!(metrics.average_processing_time(), Some(10));
    assert_eq!(average_of(&vec![1, 2, 4]), Some(2));
    assert_eq!(average_of(&vec![u64::MAX, u64::MAX]), Some(u64::MAX));
    assert_eq!(average_of(&vec![]), None);
}

#[test]
fn middleware_passes_everything_through() {
    let logging = LoggingMiddleware::new();
    let timeout = TimeoutMiddleware::new(10_000);
    assert_eq!(timeout.timeout_ms(), 10_000);
    let message = logging.before_pipeline(Message::text("m")).ok().unwrap();
    let message = timeout.before_pipeline(message).ok().unwrap();
    assert_eq!(message.content, "m");
    let response = timeout.after_pipeline(Response::text("c", "r")).ok().unwrap();
    let response = logging.after_pipeline(response).ok().unwrap();
    assert_eq!(response.content, "r");
}

#[test]
fn test_pipeline_creation() {
    let config = BotConfig::for_model("some-model");
    let pipeline = MessagePipeline::new(&config);
    assert!(pipeline.is_ok());
}
