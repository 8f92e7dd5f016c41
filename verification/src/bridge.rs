//! The bridge from HTTP to the bus: an incoming request becomes an
//! `http_request` event, a plugin claims it with an intent, the plugin's
//! `http_response` event becomes the response to the client, and every failure on the way
//! becomes a response with status 500.

use vstd::prelude::*;
use vstd::utf8::encode_utf8;
use crate::bus::LYServerMessagingError;
use crate::error::LYServerErrorKind;
use crate::event::{EventModel, LYServerMessageEvent, LYServerMessageEventTarget, TargetModel};
use crate::http::{LYServerHTTPResponse, ResponseModel};
use crate::metadata::{LYServerPluginMetadata, MetadataModel};
use crate::string_map::{put, LYServerStringMap, Pairs};
use crate::text::text_eq;

verus! {

/// The type of the event that carries a request.
pub const HTTP_REQUEST_EVENT: &'static str = "http_request";

/// The type of the event by which a plugin claims a request.
pub const HTTP_INTENT_EVENT: &'static str = "http_request_handle_intent";

/// The type of the event that carries a response.
pub const HTTP_RESPONSE_EVENT: &'static str = "http_response";

/// How long the bridge waits for an intent, in milliseconds.
pub const HTTP_INTENT_TIMEOUT_MS: u64 = 5000;

/// How long the bridge waits for the response, in milliseconds.
pub const HTTP_RESPONSE_TIMEOUT_MS: u64 = 60000;

/// The header that names the id of the plugin that answered.
pub const PLUGIN_ID_HEADER: &'static str = "x-lyserver-plugin-id";

/// The header that names the version of the plugin that answered.
pub const PLUGIN_VERSION_HEADER: &'static str = "x-lyserver-plugin-version";

/// The header that names the plugin that answered.
pub const PLUGIN_NAME_HEADER: &'static str = "x-lyserver-plugin-name";

/// The versions of HTTP that a listener tells apart.
#[derive(Clone, Copy, Debug, PartialEq, Eq, Structural)]
pub enum LYServerHTTPVersion {
    Http09,
    Http10,
    Http11,
    Http2,
    Http3,
    /// Any other version.
    Other,
}

impl LYServerHTTPVersion {
    /// The text of a version; a version that the bridge does not know is
    /// taken for HTTP/1.1.
    pub open spec fn text(self) -> Seq<char> {
        match self {
            LYServerHTTPVersion::Http09 => "HTTP/0.9"@,
            LYServerHTTPVersion::Http10 => "HTTP/1.0"@,
            LYServerHTTPVersion::Http2 => "HTTP/2"@,
            LYServerHTTPVersion::Http3 => "HTTP/3"@,
            _ => "HTTP/1.1"@,
        }
    }

    /// The text of the version.
    pub fn as_text(self) -> (r: &'static str)
        ensures
            r@ == self.text(),
    {
        match self {
            LYServerHTTPVersion::Http09 => "HTTP/0.9",
            LYServerHTTPVersion::Http10 => "HTTP/1.0",
            LYServerHTTPVersion::Http2 => "HTTP/2",
            LYServerHTTPVersion::Http3 => "HTTP/3",
            _ => "HTTP/1.1",
        }
    }
}

/// Why the bridge answers with status 500.
#[derive(Clone, Copy, Debug, PartialEq, Eq, Structural)]
pub enum LYServerBridgeError {
    /// The `http_request` event could not be made.
    EventNotCreated,
    /// The `http_request` event could not be sent.
    NotDispatched,
    /// No plugin claimed the request in time.
    NoIntent,
    /// The plugin that claimed the request did not answer in time.
    ResponseTimedOut,
    /// The payload of the `http_response` event is no response.
    ResponseNotDecoded,
}

impl LYServerBridgeError {
    /// The message of the failure, which is the body of the response.
    pub open spec fn message_text(self) -> Seq<char> {
        match self {
            LYServerBridgeError::EventNotCreated => "event err"@,
            LYServerBridgeError::NotDispatched => "dispatch err"@,
            LYServerBridgeError::NoIntent => "No plugin responded with intent"@,
            LYServerBridgeError::ResponseTimedOut => "Plugin response timed out after 60s"@,
            LYServerBridgeError::ResponseNotDecoded => "deser fail"@,
        }
    }

    /// The kind of the failure, for the failures that have one: a wait that
    /// ran out is a handler timeout, an event that could not be sent means
    /// that the bus is closed, and a payload that is no response could not
    /// be decoded.
    pub open spec fn kind_of(self) -> Option<LYServerErrorKind> {
        match self {
            LYServerBridgeError::EventNotCreated => None,
            LYServerBridgeError::NotDispatched => Some(LYServerErrorKind::BusClosed),
            LYServerBridgeError::NoIntent => Some(LYServerErrorKind::HandlerTimeout),
            LYServerBridgeError::ResponseTimedOut => Some(LYServerErrorKind::HandlerTimeout),
            LYServerBridgeError::ResponseNotDecoded => Some(LYServerErrorKind::PayloadDecode),
        }
    }

    /// The message of the failure.
    pub fn message(self) -> (r: &'static str)
        ensures
            r@ == self.message_text(),
    {
        match self {
            LYServerBridgeError::EventNotCreated => "event err",
            LYServerBridgeError::NotDispatched => "dispatch err",
            LYServerBridgeError::NoIntent => "No plugin responded with intent",
            LYServerBridgeError::ResponseTimedOut => "Plugin response timed out after 60s",
            LYServerBridgeError::ResponseNotDecoded => "deser fail",
        }
    }

    /// The kind of the failure, for the failures that have one.
    pub fn kind(self) -> (r: Option<LYServerErrorKind>)
        ensures
            r == self.kind_of(),
    {
        match self {
            LYServerBridgeError::EventNotCreated => None,
            LYServerBridgeError::NotDispatched => Some(LYServerErrorKind::BusClosed),
            LYServerBridgeError::NoIntent => Some(LYServerErrorKind::HandlerTimeout),
            LYServerBridgeError::ResponseTimedOut => Some(LYServerErrorKind::HandlerTimeout),
            LYServerBridgeError::ResponseNotDecoded => Some(LYServerErrorKind::PayloadDecode),
        }
    }
}

/// The response that goes back to the client.
#[derive(Debug, PartialEq, Eq)]
pub struct LYServerExternalResponse {
    pub status_code: u16,
    pub headers: LYServerStringMap,
    pub body: Vec<u8>,
}

/// The mathematical value of an external response.
pub struct ExternalResponseModel {
    pub status_code: u16,
    pub headers: Pairs,
    pub body: Seq<u8>,
}

impl View for LYServerExternalResponse {
    type V = ExternalResponseModel;

    open spec fn view(&self) -> ExternalResponseModel {
        ExternalResponseModel {
            status_code: self.status_code,
            headers: self.headers@,
            body: self.body@,
        }
    }
}

/// The status code that goes out for the status code of a plugin's
/// response: the code itself where it has three digits, and 500 otherwise.
pub open spec fn external_status(status_code: u16) -> u16 {
    if 100 <= status_code <= 999 {
        status_code
    } else {
        500
    }
}

/// The headers that go out: the headers of the plugin's response and, where
/// the plugin that answered is loaded, its id, version and name.
pub open spec fn external_headers(headers: Pairs, responder: Option<MetadataModel>) -> Pairs {
    match responder {
        Some(metadata) => put(
            put(put(headers, PLUGIN_ID_HEADER@, metadata.id), PLUGIN_VERSION_HEADER@, metadata.version),
            PLUGIN_NAME_HEADER@,
            metadata.name,
        ),
        None => headers,
    }
}

/// The response that goes out for a plugin's response.
pub open spec fn outgoing(response: ResponseModel, responder: Option<MetadataModel>) -> ExternalResponseModel {
    ExternalResponseModel {
        status_code: external_status(response.status_code),
        headers: external_headers(response.headers, responder),
        body: response.body,
    }
}

/// The response that goes out for a failure: status 500, no header, and the
/// message as body.
pub open spec fn failure(error: LYServerBridgeError) -> ExternalResponseModel {
    ExternalResponseModel {
        status_code: 500,
        headers: Pairs::empty(),
        body: encode_utf8(error.message_text()),
    }
}

/// The metadata of a responder as a mathematical value.
pub open spec fn responder_model(responder: Option<LYServerPluginMetadata>) -> Option<MetadataModel> {
    match responder {
        Some(metadata) => Some(metadata@),
        None => None,
    }
}

impl LYServerExternalResponse {
    /// The response that goes out for a plugin's response.
    pub fn from_plugin(response: LYServerHTTPResponse, responder: Option<LYServerPluginMetadata>) -> (r:
        Self)
        ensures
            r@ == outgoing(response@, responder_model(responder)),
    {
        let status_code: u16 = if 100 <= response.status_code && response.status_code <= 999 {
            response.status_code
        } else {
            500
        };
        let mut headers = response.headers;
        match responder {
            Some(metadata) => {
                headers.insert(PLUGIN_ID_HEADER.to_owned(), metadata.id);
                headers.insert(PLUGIN_VERSION_HEADER.to_owned(), metadata.version);
                headers.insert(PLUGIN_NAME_HEADER.to_owned(), metadata.name);
            },
            None => {},
        }
        LYServerExternalResponse { status_code, headers, body: response.body }
    }

    /// The response that goes out for a failure.
    pub fn failure(error: LYServerBridgeError) -> (r: Self)
        ensures
            r@ == failure(error),
    {
        LYServerExternalResponse {
            status_code: 500,
            headers: LYServerStringMap::new(),
            body: error.message().as_bytes_vec(),
        }
    }
}

/// Where the bridge stands with one request.
#[derive(Clone, Copy, Debug, PartialEq, Eq, Structural)]
pub enum LYServerBridgePhase {
    /// The request has come and nothing is done yet.
    Received,
    /// The `http_request` event is being sent.
    Dispatching,
    /// The bridge waits for a plugin to claim the request.
    AwaitingIntent,
    /// The bridge waits for the response.
    AwaitingResponse,
    /// The response event has come and its payload is being decoded.
    Decoding,
    /// The request has been answered or passed on.
    Finished,
}

/// What has happened to a request.
#[derive(Debug, PartialEq, Eq)]
pub enum LYServerBridgeInput {
    /// The request has been read. With the plugin's handle at hand, the
    /// `http_request` event was made of it, or could not be made; without
    /// the handle there is nothing.
    Request(Option<Result<LYServerMessageEvent, LYServerMessagingError>>),
    /// The event has been sent, or could not be sent.
    Dispatched(Result<(), LYServerMessagingError>),
    /// The wait of the current phase has ended, with an event or without.
    Waited(Option<LYServerMessageEvent>),
    /// The payload of the response event has been decoded, or could not be;
    /// with it comes the metadata of the plugin that sent the event, where
    /// that plugin is loaded.
    Decoded(Option<LYServerHTTPResponse>, Option<LYServerPluginMetadata>),
}

/// What the bridge does next.
#[derive(Debug, PartialEq, Eq)]
pub enum LYServerBridgeAction {
    /// Nothing: what happened does not belong to the phase.
    Nothing,
    /// Subscribe a receiver, then send the event.
    Dispatch(LYServerMessageEvent),
    /// Wait, on the receiver subscribed before the sending, for an event of
    /// this type with the request's id, for as long as the timeout says.
    Await(&'static str, u64),
    /// Decode the payload of this event as a response, and look up the
    /// plugin that sent it.
    Decode(LYServerMessageEvent),
    /// Answer the client.
    Respond(LYServerExternalResponse),
    /// Hand the request to the next service.
    PassOn,
}

/// The bridge for one request.
#[derive(Debug, PartialEq, Eq)]
pub struct LYServerRouterPluginMiddleware {
    /// The phase.
    pub phase: LYServerBridgePhase,
    /// The id of the `http_request` event, once there is one.
    pub event_id: Option<String>,
    /// The sender of the intent that claimed the request, once there is one:
    /// the plugin whose response the bridge takes.
    pub responder: Option<LYServerMessageEventTarget>,
}

/// Makes the bridge for each request.
pub struct LYServerRouterPluginMiddlewareFactory;

impl LYServerRouterPluginMiddlewareFactory {
    /// The bridge for a request that has just come.
    pub fn new_transform(&self) -> (r: LYServerRouterPluginMiddleware)
        ensures
            r.phase == LYServerBridgePhase::Received,
            r.event_id.is_none(),
            r.responder.is_none(),
    {
        LYServerRouterPluginMiddleware {
            phase: LYServerBridgePhase::Received,
            event_id: None,
            responder: None,
        }
    }
}

/// The metadata that goes into the headers of the outgoing response: that of
/// the plugin that claimed the request, where the metadata handed over is
/// that plugin's.
pub open spec fn responder_metadata(
    responder: Option<TargetModel>,
    found: Option<MetadataModel>,
) -> Option<MetadataModel> {
    match (responder, found) {
        (Some(target), Some(metadata)) => if metadata.id == target.text() {
            Some(metadata)
        } else {
            None
        },
        _ => None,
    }
}

impl LYServerRouterPluginMiddleware {
    /// The id of the request's event.
    pub open spec fn id(&self) -> Option<Seq<char>> {
        match self.event_id {
            Some(id) => Some(id@),
            None => None,
        }
    }

    /// The plugin that claimed the request.
    pub open spec fn claimed_by(&self) -> Option<TargetModel> {
        match self.responder {
            Some(target) => Some(target@),
            None => None,
        }
    }

    /// Whether the bridge waits for this event. While it waits for an
    /// intent, it waits for an `http_request_handle_intent` event with the
    /// id of the request's event. While it waits for the response, it waits
    /// for an `http_response` event with that id from the plugin that sent
    /// the intent, and from no other.
    pub open spec fn awaits(&self, event: EventModel) -> bool {
        match (self.phase, self.id()) {
            (LYServerBridgePhase::AwaitingIntent, Some(event_id)) => event.answers(
                HTTP_INTENT_EVENT@,
                event_id,
            ),
            (LYServerBridgePhase::AwaitingResponse, Some(event_id)) => event.answers(
                HTTP_RESPONSE_EVENT@,
                event_id,
            ) && self.claimed_by() == Some(event.event_sender),
            _ => false,
        }
    }

    /// Whether the bridge waits for this event. This is the predicate of the
    /// wait of the current phase.
    pub fn accepts(&self, event: &LYServerMessageEvent) -> (r: bool)
        ensures
            r == self.awaits(event@),
    {
        let event_id = match &self.event_id {
            Some(id) => id,
            None => {
                return false;
            },
        };
        match self.phase {
            LYServerBridgePhase::AwaitingIntent => event.answers(HTTP_INTENT_EVENT, event_id.as_str()),
            LYServerBridgePhase::AwaitingResponse => {
                if !event.answers(HTTP_RESPONSE_EVENT, event_id.as_str()) {
                    return false;
                }
                match &self.responder {
                    Some(responder) => *responder == event.event_sender,
                    None => false,
                }
            },
            _ => false,
        }
    }

    /// What a step of the bridge comes to: the next phase, the plugin that
    /// has claimed the request, and whether the action is the one that the
    /// step owes.
    ///
    /// The event is sent first. Then the bridge waits five seconds for an
    /// intent. The intent that comes names the replying plugin: the bridge
    /// then waits sixty seconds for that plugin's response, and a response
    /// from any other plugin is not taken. The response is decoded and
    /// handed to the client, with the replying plugin's id, version and name
    /// in its headers. A failure at any step is answered with status 500,
    /// and a request that comes without the plugin's handle is passed on.
    /// What does not belong to the phase changes nothing.
    pub open spec fn steps(
        before: LYServerRouterPluginMiddleware,
        input: LYServerBridgeInput,
        after: LYServerRouterPluginMiddleware,
        action: LYServerBridgeAction,
    ) -> bool {
        match (before.phase, input) {
            (LYServerBridgePhase::Received, LYServerBridgeInput::Request(None)) => {
                &&& action is PassOn
                &&& after.phase == LYServerBridgePhase::Finished
                &&& after.id() == before.id()
                &&& after.claimed_by() == before.claimed_by()
            },
            (LYServerBridgePhase::Received, LYServerBridgeInput::Request(Some(Err(_)))) => {
                &&& action matches LYServerBridgeAction::Respond(response)
                &&& response@ == failure(LYServerBridgeError::EventNotCreated)
                &&& after.phase == LYServerBridgePhase::Finished
                &&& after.id() == before.id()
                &&& after.claimed_by() == before.claimed_by()
            },
            (LYServerBridgePhase::Received, LYServerBridgeInput::Request(Some(Ok(event)))) => {
                &&& action matches LYServerBridgeAction::Dispatch(sent)
                &&& sent@ == event@
                &&& after.phase == LYServerBridgePhase::Dispatching
                &&& after.id() == Some(event@.event_id)
                &&& after.claimed_by() == before.claimed_by()
            },
            (LYServerBridgePhase::Dispatching, LYServerBridgeInput::Dispatched(Err(_))) => {
                &&& action matches LYServerBridgeAction::Respond(response)
                &&& response@ == failure(LYServerBridgeError::NotDispatched)
                &&& after.phase == LYServerBridgePhase::Finished
                &&& after.id() == before.id()
                &&& after.claimed_by() == before.claimed_by()
            },
            (LYServerBridgePhase::Dispatching, LYServerBridgeInput::Dispatched(Ok(_))) => {
                &&& action matches LYServerBridgeAction::Await(event_type, timeout)
                &&& event_type@ == HTTP_INTENT_EVENT@
                &&& timeout == HTTP_INTENT_TIMEOUT_MS
                &&& after.phase == LYServerBridgePhase::AwaitingIntent
                &&& after.id() == before.id()
                &&& after.claimed_by() == before.claimed_by()
            },
            (LYServerBridgePhase::AwaitingIntent, LYServerBridgeInput::Waited(None)) => {
                &&& action matches LYServerBridgeAction::Respond(response)
                &&& response@ == failure(LYServerBridgeError::NoIntent)
                &&& after.phase == LYServerBridgePhase::Finished
                &&& after.id() == before.id()
                &&& after.claimed_by() == before.claimed_by()
            },
            (LYServerBridgePhase::AwaitingIntent, LYServerBridgeInput::Waited(Some(intent))) => if before.awaits(
                intent@,
            ) {
                &&& action matches LYServerBridgeAction::Await(event_type, timeout)
                &&& event_type@ == HTTP_RESPONSE_EVENT@
                &&& timeout == HTTP_RESPONSE_TIMEOUT_MS
                &&& after.phase == LYServerBridgePhase::AwaitingResponse
                &&& after.id() == before.id()
                &&& after.claimed_by() == Some(intent@.event_sender)
            } else {
                &&& action is Nothing
                &&& after.phase == before.phase
                &&& after.id() == before.id()
                &&& after.claimed_by() == before.claimed_by()
            },
            (LYServerBridgePhase::AwaitingResponse, LYServerBridgeInput::Waited(None)) => {
                &&& action matches LYServerBridgeAction::Respond(response)
                &&& response@ == failure(LYServerBridgeError::ResponseTimedOut)
                &&& after.phase == LYServerBridgePhase::Finished
                &&& after.id() == before.id()
                &&& after.claimed_by() == before.claimed_by()
            },
            (LYServerBridgePhase::AwaitingResponse, LYServerBridgeInput::Waited(Some(event))) => if before.awaits(
                event@,
            ) {
                &&& action matches LYServerBridgeAction::Decode(reply)
                &&& reply@ == event@
                &&& before.claimed_by() == Some(reply@.event_sender)
                &&& after.phase == LYServerBridgePhase::Decoding
                &&& after.id() == before.id()
                &&& after.claimed_by() == before.claimed_by()
            } else {
                &&& action is Nothing
                &&& after.phase == before.phase
                &&& after.id() == before.id()
                &&& after.claimed_by() == before.claimed_by()
            },
            (LYServerBridgePhase::Decoding, LYServerBridgeInput::Decoded(None, _)) => {
                &&& action matches LYServerBridgeAction::Respond(response)
                &&& response@ == failure(LYServerBridgeError::ResponseNotDecoded)
                &&& after.phase == LYServerBridgePhase::Finished
                &&& after.id() == before.id()
                &&& after.claimed_by() == before.claimed_by()
            },
            (LYServerBridgePhase::Decoding, LYServerBridgeInput::Decoded(Some(made), found)) => {
                &&& action matches LYServerBridgeAction::Respond(response)
                &&& response@ == outgoing(
                    made@,
                    responder_metadata(before.claimed_by(), responder_model(found)),
                )
                &&& after.phase == LYServerBridgePhase::Finished
                &&& after.id() == before.id()
                &&& after.claimed_by() == before.claimed_by()
            },
            _ => {
                &&& action is Nothing
                &&& after.phase == before.phase
                &&& after.id() == before.id()
                &&& after.claimed_by() == before.claimed_by()
            },
        }
    }

    /// Takes one step with a request: moves to the next phase and says what
    /// to do, as `steps` describes.
    pub fn call(&mut self, input: LYServerBridgeInput) -> (r: LYServerBridgeAction)
        ensures
            Self::steps(*old(self), input, *final(self), r),
    {
        match (self.phase, input) {
            (LYServerBridgePhase::Received, LYServerBridgeInput::Request(None)) => {
                self.phase = LYServerBridgePhase::Finished;
                LYServerBridgeAction::PassOn
            },
            (LYServerBridgePhase::Received, LYServerBridgeInput::Request(Some(Err(_)))) => {
                self.phase = LYServerBridgePhase::Finished;
                LYServerBridgeAction::Respond(
                    LYServerExternalResponse::failure(LYServerBridgeError::EventNotCreated),
                )
            },
            (LYServerBridgePhase::Received, LYServerBridgeInput::Request(Some(Ok(event)))) => {
                self.phase = LYServerBridgePhase::Dispatching;
                self.event_id = Some(event.event_id.clone());
                LYServerBridgeAction::Dispatch(event)
            },
            (LYServerBridgePhase::Dispatching, LYServerBridgeInput::Dispatched(Err(_))) => {
                self.phase = LYServerBridgePhase::Finished;
                LYServerBridgeAction::Respond(
                    LYServerExternalResponse::failure(LYServerBridgeError::NotDispatched),
                )
            },
            (LYServerBridgePhase::Dispatching, LYServerBridgeInput::Dispatched(Ok(_))) => {
                self.phase = LYServerBridgePhase::AwaitingIntent;
                LYServerBridgeAction::Await(HTTP_INTENT_EVENT, HTTP_INTENT_TIMEOUT_MS)
            },
            (LYServerBridgePhase::AwaitingIntent, LYServerBridgeInput::Waited(None)) => {
                self.phase = LYServerBridgePhase::Finished;
                LYServerBridgeAction::Respond(
                    LYServerExternalResponse::failure(LYServerBridgeError::NoIntent),
                )
            },
            (LYServerBridgePhase::AwaitingIntent, LYServerBridgeInput::Waited(Some(intent))) => {
                if self.accepts(&intent) {
                    self.phase = LYServerBridgePhase::AwaitingResponse;
                    self.responder = Some(intent.event_sender);
                    LYServerBridgeAction::Await(HTTP_RESPONSE_EVENT, HTTP_RESPONSE_TIMEOUT_MS)
                } else {
                    LYServerBridgeAction::Nothing
                }
            },
            (LYServerBridgePhase::AwaitingResponse, LYServerBridgeInput::Waited(None)) => {
                self.phase = LYServerBridgePhase::Finished;
                LYServerBridgeAction::Respond(
                    LYServerExternalResponse::failure(LYServerBridgeError::ResponseTimedOut),
                )
            },
            (LYServerBridgePhase::AwaitingResponse, LYServerBridgeInput::Waited(Some(event))) => {
                if self.accepts(&event) {
                    self.phase = LYServerBridgePhase::Decoding;
                    LYServerBridgeAction::Decode(event)
                } else {
                    LYServerBridgeAction::Nothing
                }
            },
            (LYServerBridgePhase::Decoding, LYServerBridgeInput::Decoded(None, _)) => {
                self.phase = LYServerBridgePhase::Finished;
                LYServerBridgeAction::Respond(
                    LYServerExternalResponse::failure(LYServerBridgeError::ResponseNotDecoded),
                )
            },
            (LYServerBridgePhase::Decoding, LYServerBridgeInput::Decoded(Some(made), found)) => {
                self.phase = LYServerBridgePhase::Finished;
                let responder = match (&self.responder, found) {
                    (Some(target), Some(metadata)) => {
                        let name = target.to_string();
                        if text_eq(metadata.id.as_str(), name.as_str()) {
                            Some(metadata)
                        } else {
                            None
                        }
                    },
                    _ => None,
                };
                LYServerBridgeAction::Respond(LYServerExternalResponse::from_plugin(made, responder))
            },
            _ => LYServerBridgeAction::Nothing,
        }
    }
}

/// Two-phase intent: the response that the bridge decodes comes from the
/// plugin whose intent it took, and the plugin id in the headers of the
/// outgoing response is that plugin's. Whatever responses other plugins send
/// under the request's id, the bridge does not wait for them.
pub proof fn lemma_response_is_the_claimants(
    bridge: LYServerRouterPluginMiddleware,
    response: EventModel,
    found: Option<MetadataModel>,
)
    requires
        bridge.phase == LYServerBridgePhase::AwaitingResponse,
    ensures
        bridge.awaits(response) ==> bridge.claimed_by() == Some(response.event_sender),
        bridge.claimed_by() != Some(response.event_sender) ==> !bridge.awaits(response),
        responder_metadata(bridge.claimed_by(), found) matches Some(metadata)
            ==> bridge.claimed_by() matches Some(claimant) && metadata.id == claimant.text(),
{
}

} // verus!
