use coral_rs::api::TelemetryTarget;
use coral_rs::message::Message;
use coral_rs::telemetry::{
    Error, TelemetryIdentifier, TelemetryMessages, TelemetryMode, TelemetryRequest,
};

fn target(id: &str) -> TelemetryTarget {
    TelemetryTarget { message_id: id.to_string(), thread_id: "thread".to_string() }
}

fn request(targets: Vec<TelemetryTarget>, messages: Vec<Message>) -> TelemetryRequest {
    TelemetryRequest::new(
        TelemetryIdentifier { targets, session_id: "sid".to_string() },
        "http://api".to_string(),
        "gpt".to_string(),
        messages,
    )
}

#[test]
fn new_request_uses_the_compact_format() {
    let r = request(vec![target("m")], vec![Message::user("hi".to_string())]);
    assert_eq!(r.mode(), TelemetryMode::OpenAI);
    assert_eq!(r.messages(), &vec![Message::user("hi".to_string())]);
    let g = r.telemetry_mode(TelemetryMode::Generic);
    assert_eq!(g.mode(), TelemetryMode::Generic);
    assert_eq!(g.messages().len(), 1);
}

#[test]
fn send_without_targets_fails_locally() {
    let r = request(vec![], vec![Message::user("hi".to_string())]);
    assert_eq!(r.send::<u8>(None).unwrap_err(), Error::EmptyTargets);
    // Without targets and without messages the targets are reported.
    let both = request(vec![], vec![]);
    assert_eq!(both.send(Some(vec![1u8])).unwrap_err(), Error::EmptyTargets);
    let off = request(vec![], vec![]).telemetry_mode(TelemetryMode::Disabled);
    assert_eq!(off.send::<u8>(None).unwrap_err(), Error::EmptyTargets);
}

#[test]
fn send_without_messages_fails_locally() {
    let r = request(vec![target("m")], vec![]);
    assert_eq!(r.send::<u8>(None).unwrap_err(), Error::EmptyMessages);
}

#[test]
fn compact_format_is_used_where_it_is_there() {
    let r = request(vec![target("m1"), target("m2")], vec![Message::user("hi".to_string())]);
    let post = r.send(Some(vec![10u8, 20u8])).unwrap();
    assert_eq!(post.url, "http://api");
    assert_eq!(post.session_id, "sid");
    assert_eq!(post.model_description, "gpt");
    assert_eq!(post.targets, vec![target("m1"), target("m2")]);
    assert_eq!(post.messages, TelemetryMessages::OpenAi(vec![10u8, 20u8]));
}

#[test]
fn compact_format_falls_back_to_generic() {
    let history = vec![Message::user("hi".to_string()), Message::user("there".to_string())];
    let r = request(vec![target("m")], history.clone());
    let post = r.send::<u8>(None).unwrap();
    assert_eq!(post.messages, TelemetryMessages::Generic(history));
}

#[test]
fn generic_format_ignores_the_compact_history() {
    let history = vec![Message::user("hi".to_string())];
    let r = request(vec![target("m")], history.clone()).telemetry_mode(TelemetryMode::Generic);
    let post = r.send(Some(vec![1u8])).unwrap();
    assert_eq!(post.messages, TelemetryMessages::Generic(history));
}

#[test]
fn compact_history_needs_every_message() {
    assert_eq!(
        TelemetryRequest::messages_openai(vec![Some(vec![1u8, 2]), Some(vec![]), Some(vec![3])]),
        Some(vec![1u8, 2, 3])
    );
    assert_eq!(TelemetryRequest::messages_openai(vec![Some(vec![1u8]), None, Some(vec![3])]), None);
    assert_eq!(TelemetryRequest::messages_openai(vec![None::<Vec<u8>>]), None);
    assert_eq!(TelemetryRequest::messages_openai(Vec::<Option<Vec<u8>>>::new()), Some(vec![]));
}
