use lyserver::cbor::LYServerCborValue;
use lyserver::event::{LYServerEventDecodeError, LYServerMessageEvent, LYServerMessageEventTarget};

fn sample() -> LYServerMessageEvent {
    LYServerMessageEvent::new(
        "id-1".to_string(),
        "http_request",
        LYServerMessageEventTarget::All,
        LYServerMessageEventTarget::plugin("http@lyserver.local"),
        vec![1, 2, 3],
    )
}

#[test]
fn new_event_holds_what_it_was_given() {
    let event = sample();
    assert_eq!(event.event_id, "id-1");
    assert_eq!(event.event_type, "http_request");
    assert_eq!(event.event_target, LYServerMessageEventTarget::All);
    assert_eq!(event.event_sender, LYServerMessageEventTarget::Plugin("http@lyserver.local".to_string()));
    assert_eq!(event.data(), vec![1, 2, 3]);
}

#[test]
fn reply_keeps_the_id_and_answers_the_sender() {
    let event = sample();
    let reply = event.reply(
        "http_response",
        LYServerMessageEventTarget::plugin("hello@lyserver.local"),
        vec![9],
    );
    assert_eq!(reply.event_id, "id-1");
    assert_eq!(reply.event_type, "http_response");
    assert_eq!(reply.event_target.to_string(), "http@lyserver.local");
    assert_eq!(reply.event_sender.to_string(), "hello@lyserver.local");
    assert_eq!(reply.data(), vec![9]);
}

#[test]
fn reply_to_a_reply_goes_back_to_the_replier() {
    let event = sample();
    let first = event.reply("a", LYServerMessageEventTarget::plugin("p"), vec![]);
    let second = first.reply("b", LYServerMessageEventTarget::plugin("q"), vec![]);
    assert_eq!(second.event_id, event.event_id);
    assert_eq!(second.event_target, LYServerMessageEventTarget::plugin("p"));
    assert_eq!(second.event_sender, LYServerMessageEventTarget::plugin("q"));
}

#[test]
fn target_text_form() {
    assert_eq!(LYServerMessageEventTarget::All.to_string(), "all");
    assert_eq!(LYServerMessageEventTarget::plugin("p").to_string(), "p");
    assert_eq!(LYServerMessageEventTarget::from("p".to_string()), LYServerMessageEventTarget::plugin("p"));
}

#[test]
fn target_accessors() {
    assert!(LYServerMessageEventTarget::All.is_all());
    assert!(!LYServerMessageEventTarget::plugin("p").is_all());
    assert_eq!(LYServerMessageEventTarget::All.plugin_id(), None);
    assert_eq!(LYServerMessageEventTarget::plugin("p").plugin_id(), Some("p".to_string()));
    assert!(LYServerMessageEventTarget::All == LYServerMessageEventTarget::All);
    assert!(LYServerMessageEventTarget::All != LYServerMessageEventTarget::plugin("all"));
    assert!(LYServerMessageEventTarget::plugin("p") == LYServerMessageEventTarget::plugin("p"));
    assert!(LYServerMessageEventTarget::plugin("p") != LYServerMessageEventTarget::plugin("q"));
}

#[test]
fn matching_rule() {
    assert!(LYServerMessageEventTarget::All.delivers_to("a"));
    assert!(LYServerMessageEventTarget::plugin("a").delivers_to("a"));
    assert!(!LYServerMessageEventTarget::plugin("a").delivers_to("b"));
    assert!(!LYServerMessageEventTarget::plugin("a").delivers_to("A"));
    assert!(!LYServerMessageEventTarget::plugin("a").delivers_to(""));
}

#[test]
fn event_predicates() {
    let event = sample();
    assert!(event.has_type("http_request"));
    assert!(!event.has_type("http_response"));
    assert!(event.answers("http_request", "id-1"));
    assert!(!event.answers("http_request", "id-2"));
    assert!(!event.answers("http_response", "id-1"));
}

#[test]
fn clone_is_equal() {
    let event = sample();
    assert_eq!(event.clone(), event);
}

fn array_form() -> Vec<LYServerCborValue> {
    vec![
        LYServerCborValue::Bytes(vec![7, 8]),
        LYServerCborValue::Text("id-9".to_string()),
        LYServerCborValue::Text("greeting".to_string()),
        LYServerCborValue::Text("from".to_string()),
        LYServerCborValue::Text("to".to_string()),
    ]
}

#[test]
fn array_form_is_read() {
    let event = LYServerMessageEvent::try_from(LYServerCborValue::Array(array_form())).unwrap();
    assert_eq!(event.event_id, "id-9");
    assert_eq!(event.event_type, "greeting");
    assert_eq!(event.event_sender, LYServerMessageEventTarget::plugin("from"));
    assert_eq!(event.event_target, LYServerMessageEventTarget::plugin("to"));
    assert_eq!(event.data, vec![7, 8]);
}

#[test]
fn array_form_errors() {
    assert_eq!(
        LYServerMessageEvent::try_from(LYServerCborValue::Null),
        Err(LYServerEventDecodeError::NotAnArray)
    );
    assert_eq!(
        LYServerMessageEvent::try_from(LYServerCborValue::Text("x".to_string())),
        Err(LYServerEventDecodeError::NotAnArray)
    );
    let wrong = [
        LYServerEventDecodeError::DataNotBytes,
        LYServerEventDecodeError::EventIdNotText,
        LYServerEventDecodeError::EventTypeNotText,
        LYServerEventDecodeError::EventSenderNotText,
        LYServerEventDecodeError::EventTargetNotText,
    ];
    for (i, expected) in wrong.iter().enumerate() {
        let mut items = array_form();
        items[i] = LYServerCborValue::Integer(1);
        assert_eq!(
            LYServerMessageEvent::try_from(LYServerCborValue::Array(items)),
            Err(*expected)
        );
    }
    // A wrong first element is reported without a look at what follows.
    assert_eq!(
        LYServerMessageEvent::try_from(LYServerCborValue::Array(vec![LYServerCborValue::Null])),
        Err(LYServerEventDecodeError::DataNotBytes)
    );
}

#[test]
fn decode_error_messages() {
    assert_eq!(LYServerEventDecodeError::NotAnArray.message(), "Expected CBOR array with 4 elements");
    assert_eq!(LYServerEventDecodeError::DataNotBytes.message(), "Expected event_data as bytes");
    assert_eq!(LYServerEventDecodeError::EventIdNotText.message(), "Expected event_id as text");
    assert_eq!(LYServerEventDecodeError::EventTypeNotText.message(), "Expected event_type as text");
    assert_eq!(LYServerEventDecodeError::EventSenderNotText.message(), "Expected event_sender as text");
    assert_eq!(LYServerEventDecodeError::EventTargetNotText.message(), "Expected event_target as text");
}

#[test]
fn arrays_that_end_too_early_are_errors() {
    let expected = [
        LYServerEventDecodeError::DataNotBytes,
        LYServerEventDecodeError::EventIdNotText,
        LYServerEventDecodeError::EventTypeNotText,
        LYServerEventDecodeError::EventSenderNotText,
        LYServerEventDecodeError::EventTargetNotText,
    ];
    for n in 0..5 {
        let short: Vec<LYServerCborValue> = array_form().into_iter().take(n).collect();
        assert_eq!(LYServerMessageEvent::try_from(LYServerCborValue::Array(short)), Err(expected[n]));
    }
    assert_eq!(
        LYServerMessageEvent::try_from(LYServerCborValue::Array(vec![LYServerCborValue::Bytes(vec![])])),
        Err(LYServerEventDecodeError::EventIdNotText)
    );
    let mut long = array_form();
    long.push(LYServerCborValue::Null);
    assert!(LYServerMessageEvent::try_from(LYServerCborValue::Array(long)).is_ok());
}

#[test]
fn target_from_a_text_names_the_plugin() {
    assert_eq!(LYServerMessageEventTarget::from("p"), LYServerMessageEventTarget::Plugin("p".to_string()));
    assert_eq!(LYServerMessageEventTarget::from(""), LYServerMessageEventTarget::Plugin(String::new()));
    assert_ne!(LYServerMessageEventTarget::from("all"), LYServerMessageEventTarget::All);
}

#[test]
fn target_into_a_text() {
    assert_eq!(String::from(LYServerMessageEventTarget::All), "all");
    assert_eq!(String::from(LYServerMessageEventTarget::plugin("p@x")), "p@x");
    let text: String = LYServerMessageEventTarget::plugin("").into();
    assert_eq!(text, "");
}
