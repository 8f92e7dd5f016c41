use lyserver::bridge::{
    LYServerBridgeAction, LYServerBridgeError, LYServerBridgeInput, LYServerBridgePhase,
    LYServerExternalResponse, LYServerHTTPVersion, LYServerRouterPluginMiddleware,
    LYServerRouterPluginMiddlewareFactory, HTTP_INTENT_EVENT, HTTP_INTENT_TIMEOUT_MS,
    HTTP_REQUEST_EVENT, HTTP_RESPONSE_EVENT, HTTP_RESPONSE_TIMEOUT_MS,
};
use lyserver::bus::{LYServerMessagingError, LYServerReceived, LYServerWait, LYServerWaitOutcome};
use lyserver::error::LYServerErrorKind;
use lyserver::event::{LYServerMessageEvent, LYServerMessageEventTarget};
use lyserver::http::{LYServerHTTPRequest, LYServerHTTPResponse};
use lyserver::metadata::LYServerPluginMetadata;
use lyserver::plugins::{answer_events, hello_response, media_response, HELLO_PLUGIN_ID, MEDIA_PLUGIN_ID};
use lyserver::string_map::LYServerStringMap;

fn request(method: &str, uri: &str) -> LYServerHTTPRequest {
    LYServerHTTPRequest::new(
        method.to_string(),
        uri.to_string(),
        LYServerHTTPVersion::Http11.as_text().to_string(),
        LYServerStringMap::new(),
        Some(vec![]),
    )
}

fn request_event(id: &str) -> LYServerMessageEvent {
    LYServerMessageEvent::new(
        id.to_string(),
        HTTP_REQUEST_EVENT,
        LYServerMessageEventTarget::All,
        LYServerMessageEventTarget::plugin("http@lyserver.local"),
        vec![],
    )
}

fn bridge() -> LYServerRouterPluginMiddleware {
    LYServerRouterPluginMiddlewareFactory.new_transform()
}

fn respond(action: LYServerBridgeAction) -> LYServerExternalResponse {
    match action {
        LYServerBridgeAction::Respond(response) => response,
        other => panic!("no response: {:?}", other),
    }
}

fn response(status: u16, body: &[u8]) -> LYServerHTTPResponse {
    request("GET", "/").build_response().status_code(status).body(body.to_vec()).build()
}

#[test]
fn version_texts() {
    assert_eq!(LYServerHTTPVersion::Http09.as_text(), "HTTP/0.9");
    assert_eq!(LYServerHTTPVersion::Http10.as_text(), "HTTP/1.0");
    assert_eq!(LYServerHTTPVersion::Http11.as_text(), "HTTP/1.1");
    assert_eq!(LYServerHTTPVersion::Http2.as_text(), "HTTP/2");
    assert_eq!(LYServerHTTPVersion::Http3.as_text(), "HTTP/3");
    assert_eq!(LYServerHTTPVersion::Other.as_text(), "HTTP/1.1");
}

#[test]
fn bridge_walks_through_its_phases() {
    let mut b = bridge();
    assert_eq!(b.phase, LYServerBridgePhase::Received);
    assert_eq!(b.event_id, None);
    assert_eq!(b.responder, None);
    let sent = request_event("r1");
    assert_eq!(
        b.call(LYServerBridgeInput::Request(Some(Ok(sent.clone())))),
        LYServerBridgeAction::Dispatch(sent.clone())
    );
    assert_eq!(b.phase, LYServerBridgePhase::Dispatching);
    assert_eq!(b.event_id, Some("r1".to_string()));
    assert_eq!(
        b.call(LYServerBridgeInput::Dispatched(Ok(()))),
        LYServerBridgeAction::Await(HTTP_INTENT_EVENT, 5_000)
    );
    assert_eq!(HTTP_INTENT_TIMEOUT_MS, 5_000);
    let plugin = LYServerMessageEventTarget::plugin("a@lyserver.local");
    let (intent, reply) = answer_events(&sent, &plugin, vec![1, 2]);
    assert!(b.accepts(&intent));
    assert!(!b.accepts(&reply));
    assert_eq!(
        b.call(LYServerBridgeInput::Waited(Some(intent.clone()))),
        LYServerBridgeAction::Await(HTTP_RESPONSE_EVENT, 60_000)
    );
    assert_eq!(b.responder, Some(plugin.clone()));
    assert_eq!(HTTP_RESPONSE_TIMEOUT_MS, 60_000);
    assert!(b.accepts(&reply));
    assert!(!b.accepts(&intent));
    assert_eq!(
        b.call(LYServerBridgeInput::Waited(Some(reply.clone()))),
        LYServerBridgeAction::Decode(reply)
    );
    assert_eq!(b.phase, LYServerBridgePhase::Decoding);
    let out = respond(b.call(LYServerBridgeInput::Decoded(Some(response(201, b"made")), None)));
    assert_eq!(out.status_code, 201);
    assert_eq!(out.body, b"made".to_vec());
    assert_eq!(out.headers.entries(), vec![("content-length".to_string(), "4".to_string())]);
    assert_eq!(b.phase, LYServerBridgePhase::Finished);
    assert_eq!(b.call(LYServerBridgeInput::Waited(None)), LYServerBridgeAction::Nothing);
    assert_eq!(b.phase, LYServerBridgePhase::Finished);
}

#[test]
fn bridge_failures_are_answered_with_500() {
    let mut b = bridge();
    assert_eq!(b.call(LYServerBridgeInput::Request(None)), LYServerBridgeAction::PassOn);
    assert_eq!(b.phase, LYServerBridgePhase::Finished);

    let mut b = bridge();
    let out = respond(b.call(LYServerBridgeInput::Request(Some(Err(
        LYServerMessagingError::PluginIdNotSet,
    )))));
    assert_eq!(out.status_code, 500);
    assert_eq!(out.body, b"event err".to_vec());
    assert_eq!(out.headers.len(), 0);

    let mut b = bridge();
    b.call(LYServerBridgeInput::Request(Some(Ok(request_event("r")))));
    let out = respond(b.call(LYServerBridgeInput::Dispatched(Err(LYServerMessagingError::BusClosed))));
    assert_eq!(out.status_code, 500);
    assert_eq!(out.body, b"dispatch err".to_vec());

    let mut b = bridge();
    b.call(LYServerBridgeInput::Request(Some(Ok(request_event("r")))));
    b.call(LYServerBridgeInput::Dispatched(Ok(())));
    let out = respond(b.call(LYServerBridgeInput::Waited(None)));
    assert_eq!(out.status_code, 500);
    assert_eq!(out.body, b"No plugin responded with intent".to_vec());

    let claimant = LYServerMessageEventTarget::plugin("a");
    let (intent, reply) = answer_events(&request_event("r"), &claimant, vec![]);
    let mut b = bridge();
    b.call(LYServerBridgeInput::Request(Some(Ok(request_event("r")))));
    b.call(LYServerBridgeInput::Dispatched(Ok(())));
    b.call(LYServerBridgeInput::Waited(Some(intent.clone())));
    let out = respond(b.call(LYServerBridgeInput::Waited(None)));
    assert_eq!(out.status_code, 500);
    assert_eq!(out.body, b"Plugin response timed out after 60s".to_vec());

    let mut b = bridge();
    b.call(LYServerBridgeInput::Request(Some(Ok(request_event("r")))));
    b.call(LYServerBridgeInput::Dispatched(Ok(())));
    b.call(LYServerBridgeInput::Waited(Some(intent)));
    b.call(LYServerBridgeInput::Waited(Some(reply)));
    let out = respond(b.call(LYServerBridgeInput::Decoded(None, None)));
    assert_eq!(out.status_code, 500);
    assert_eq!(out.body, b"deser fail".to_vec());
}

#[test]
fn bridge_error_kinds_and_messages() {
    assert_eq!(LYServerBridgeError::EventNotCreated.kind(), None);
    assert_eq!(LYServerBridgeError::NotDispatched.kind(), Some(LYServerErrorKind::BusClosed));
    assert_eq!(LYServerBridgeError::NoIntent.kind(), Some(LYServerErrorKind::HandlerTimeout));
    assert_eq!(LYServerBridgeError::ResponseTimedOut.kind(), Some(LYServerErrorKind::HandlerTimeout));
    assert_eq!(LYServerBridgeError::ResponseNotDecoded.kind(), Some(LYServerErrorKind::PayloadDecode));
    assert_eq!(LYServerBridgeError::NoIntent.message(), "No plugin responded with intent");
    let out = LYServerExternalResponse::failure(LYServerBridgeError::ResponseTimedOut);
    assert_eq!(out.status_code, 500);
    assert_eq!(out.body, b"Plugin response timed out after 60s".to_vec());
}

#[test]
fn inputs_out_of_phase_change_nothing() {
    let mut b = bridge();
    assert_eq!(b.call(LYServerBridgeInput::Dispatched(Ok(()))), LYServerBridgeAction::Nothing);
    assert_eq!(b.call(LYServerBridgeInput::Waited(None)), LYServerBridgeAction::Nothing);
    assert_eq!(b.call(LYServerBridgeInput::Decoded(None, None)), LYServerBridgeAction::Nothing);
    assert_eq!(b.phase, LYServerBridgePhase::Received);
    assert!(!b.accepts(&request_event("r")));
}

#[test]
fn status_codes_outside_three_digits_become_500() {
    for (given, expected) in [(0u16, 500u16), (99, 500), (100, 100), (200, 200), (404, 404), (999, 999), (1000, 500), (65535, 500)] {
        let out = LYServerExternalResponse::from_plugin(response(given, b""), None);
        assert_eq!(out.status_code, expected);
    }
}

#[test]
fn responder_headers_are_added() {
    let metadata = LYServerPluginMetadata::builder().id("p@x").name("P").version("9.9").build();
    let made = request("GET", "/")
        .build_response()
        .header("x-lyserver-plugin-id".to_string(), "forged".to_string())
        .header("x-other".to_string(), "kept".to_string())
        .build();
    let out = LYServerExternalResponse::from_plugin(made, Some(metadata));
    assert_eq!(
        out.headers.entries(),
        vec![
            ("x-lyserver-plugin-id".to_string(), "p@x".to_string()),
            ("x-other".to_string(), "kept".to_string()),
            ("content-length".to_string(), "0".to_string()),
            ("x-lyserver-plugin-version".to_string(), "9.9".to_string()),
            ("x-lyserver-plugin-name".to_string(), "P".to_string()),
        ]
    );
}

#[test]
fn answer_events_are_replies() {
    let sent = request_event("r7");
    let plugin = LYServerMessageEventTarget::plugin("a");
    let (intent, reply) = answer_events(&sent, &plugin, vec![5]);
    assert_eq!(intent.event_id, "r7");
    assert_eq!(intent.event_type, "http_request_handle_intent");
    assert_eq!(intent.event_target, LYServerMessageEventTarget::plugin("http@lyserver.local"));
    assert_eq!(intent.event_sender, plugin);
    assert_eq!(intent.data, vec![0xf6]);
    assert_eq!(reply.event_id, "r7");
    assert_eq!(reply.event_type, "http_response");
    assert_eq!(reply.event_target, LYServerMessageEventTarget::plugin("http@lyserver.local"));
    assert_eq!(reply.data, vec![5]);
}

#[test]
fn http_fan_out_to_the_greeting_plugin() {
    // The listener turns `GET /hello` into an event; the greeting plugin
    // claims and answers it; the bridge hands the answer to the client.
    let incoming = request("GET", "/hello");
    let mut b = bridge();
    let sent = request_event("req-1");
    b.call(LYServerBridgeInput::Request(Some(Ok(sent.clone()))));
    b.call(LYServerBridgeInput::Dispatched(Ok(())));

    let answer = hello_response(&incoming).unwrap();
    assert!(hello_response(&request("GET", "/other")).is_none());
    assert!(hello_response(&request("POST", "/hello")).is_none());
    let hello = LYServerMessageEventTarget::plugin(HELLO_PLUGIN_ID);
    let (intent, reply) = answer_events(&sent, &hello, vec![]);

    let wait = LYServerWait::new(HTTP_INTENT_TIMEOUT_MS);
    let steps = vec![(1, Some(LYServerReceived::Event(intent))), (2, Some(LYServerReceived::Event(reply.clone())))];
    let claimed = match wait.run(&steps, &|e: &LYServerMessageEvent| b.accepts(e)) {
        LYServerWaitOutcome::Matched(e) => e,
        other => panic!("no intent: {:?}", other),
    };
    b.call(LYServerBridgeInput::Waited(Some(claimed)));
    let wait = LYServerWait::new(HTTP_RESPONSE_TIMEOUT_MS);
    let answered = match wait.run(&steps, &|e: &LYServerMessageEvent| b.accepts(e)) {
        LYServerWaitOutcome::Matched(e) => e,
        other => panic!("no response: {:?}", other),
    };
    assert_eq!(answered, reply);
    b.call(LYServerBridgeInput::Waited(Some(answered.clone())));
    let responder = LYServerPluginMetadata::builder()
        .id(&answered.event_sender.to_string())
        .name("Hello")
        .version("0.1.0")
        .build();
    let out = respond(b.call(LYServerBridgeInput::Decoded(Some(answer), Some(responder))));
    assert_eq!(out.status_code, 200);
    assert_eq!(out.body, b"hello from WASM!".to_vec());
    assert_eq!(out.headers.get("x-lyserver-plugin-id"), Some("hello@lyserver.local".to_string()));
    assert_eq!(out.headers.get("content-length"), Some("16".to_string()));
}

#[test]
fn two_phase_intent() {
    // Plugins A and B both see the request. Only A claims it. Both send a
    // response under the request's id, B's first: the response is A's.
    let sent = request_event("req-2");
    let a = LYServerMessageEventTarget::plugin("a@lyserver.local");
    let other = LYServerMessageEventTarget::plugin("b@lyserver.local");
    let (intent_a, reply_a) = answer_events(&sent, &a, vec![b'A']);
    let (_, reply_b) = answer_events(&sent, &other, vec![b'B']);
    let stranger = request_event("req-3").reply("http_request_handle_intent", other.clone(), vec![]);

    for b_first in [true, false] {
        let mut b = bridge();
        b.call(LYServerBridgeInput::Request(Some(Ok(sent.clone()))));
        b.call(LYServerBridgeInput::Dispatched(Ok(())));
        let (first, second) = if b_first {
            (reply_b.clone(), reply_a.clone())
        } else {
            (reply_a.clone(), reply_b.clone())
        };
        let stream = vec![
            (1, Some(LYServerReceived::Event(stranger.clone()))),
            (2, Some(LYServerReceived::Event(intent_a.clone()))),
            (3, Some(LYServerReceived::Event(first))),
            (4, Some(LYServerReceived::Event(second))),
        ];
        let wait = LYServerWait::new(HTTP_INTENT_TIMEOUT_MS);
        let claimed = wait.run(&stream, &|e: &LYServerMessageEvent| b.accepts(e));
        assert_eq!(claimed, LYServerWaitOutcome::Matched(intent_a.clone()));
        b.call(LYServerBridgeInput::Waited(Some(intent_a.clone())));
        assert_eq!(b.responder, Some(a.clone()));
        assert!(!b.accepts(&reply_b));
        assert!(b.accepts(&reply_a));
        let wait = LYServerWait::new(HTTP_RESPONSE_TIMEOUT_MS);
        let answered = wait.run(&stream, &|e: &LYServerMessageEvent| b.accepts(e));
        assert_eq!(answered, LYServerWaitOutcome::Matched(reply_a.clone()));
        assert_eq!(
            b.call(LYServerBridgeInput::Waited(Some(reply_a.clone()))),
            LYServerBridgeAction::Decode(reply_a.clone())
        );
        let metadata_a = LYServerPluginMetadata::builder().id("a@lyserver.local").name("A").version("1").build();
        let made = request("GET", "/only-a").build_response().status_code(202).body(vec![b'A']).build();
        let out = respond(b.call(LYServerBridgeInput::Decoded(Some(made), Some(metadata_a))));
        assert_eq!(out.status_code, 202);
        assert_eq!(out.body, vec![b'A']);
        assert_eq!(out.headers.get("x-lyserver-plugin-id"), Some("a@lyserver.local".to_string()));
    }
}

#[test]
fn a_response_from_a_plugin_that_sent_no_intent_is_not_taken() {
    let sent = request_event("req-4");
    let a = LYServerMessageEventTarget::plugin("a");
    let other = LYServerMessageEventTarget::plugin("b");
    let (intent_a, _) = answer_events(&sent, &a, vec![]);
    let (intent_b, reply_b) = answer_events(&sent, &other, vec![]);
    let mut b = bridge();
    b.call(LYServerBridgeInput::Request(Some(Ok(sent.clone()))));
    b.call(LYServerBridgeInput::Dispatched(Ok(())));
    // What is no intent for this request changes nothing.
    assert_eq!(b.call(LYServerBridgeInput::Waited(Some(reply_b.clone()))), LYServerBridgeAction::Nothing);
    assert_eq!(b.phase, LYServerBridgePhase::AwaitingIntent);
    assert_eq!(b.responder, None);
    b.call(LYServerBridgeInput::Waited(Some(intent_a)));
    assert_eq!(b.call(LYServerBridgeInput::Waited(Some(reply_b))), LYServerBridgeAction::Nothing);
    assert_eq!(b.call(LYServerBridgeInput::Waited(Some(intent_b))), LYServerBridgeAction::Nothing);
    assert_eq!(b.phase, LYServerBridgePhase::AwaitingResponse);
    assert_eq!(b.responder, Some(a));
}

#[test]
fn metadata_of_another_plugin_gives_no_headers() {
    let sent = request_event("req-5");
    let a = LYServerMessageEventTarget::plugin("a");
    let (intent, reply) = answer_events(&sent, &a, vec![]);
    let mut b = bridge();
    b.call(LYServerBridgeInput::Request(Some(Ok(sent))));
    b.call(LYServerBridgeInput::Dispatched(Ok(())));
    b.call(LYServerBridgeInput::Waited(Some(intent)));
    b.call(LYServerBridgeInput::Waited(Some(reply)));
    let wrong = LYServerPluginMetadata::builder().id("b").build();
    let out = respond(b.call(LYServerBridgeInput::Decoded(Some(response(200, b"x")), Some(wrong))));
    assert_eq!(out.headers.get("x-lyserver-plugin-id"), None);
    assert_eq!(out.body, b"x".to_vec());
}

#[test]
fn media_plugin_serves_its_asset() {
    let answer = media_response(&request("GET", "/player.mp3"), vec![1, 2, 3]).unwrap();
    assert_eq!(answer.status_code, 200);
    assert_eq!(answer.body, vec![1, 2, 3]);
    assert_eq!(answer.headers.get("content-length"), Some("3".to_string()));
    assert!(media_response(&request("GET", "/player.ogg"), vec![1]).is_none());
    assert!(media_response(&request("PUT", "/player.mp3"), vec![1]).is_none());
    assert_eq!(MEDIA_PLUGIN_ID, "media@lyserver.local");
}
