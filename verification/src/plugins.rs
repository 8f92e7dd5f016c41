//! What the plugins that come with the server say of themselves, how a
//! plugin claims and answers a request, and the routes of the HTTP server
//! plugin and of the greeting plugin.

use vstd::prelude::*;
use vstd::utf8::encode_utf8;
use crate::bridge::{HTTP_INTENT_EVENT, HTTP_REQUEST_EVENT, HTTP_RESPONSE_EVENT};
use crate::cbor::{encode_null, null_encoding};
use crate::event::{LYServerMessageEvent, LYServerMessageEventTarget};
use crate::http::{
    encoded_text, LYServerHTTPRequest, LYServerHTTPResponse, RequestModel,
    ResponseModel,
};
use crate::metadata::{LYServerPluginMetadata, MetadataModel};
use crate::router::matched_route;
use crate::server::LYServerBuiltin;

verus! {

/// The id of the HTTP server plugin.
pub const HTTP_PLUGIN_ID: &'static str = "http@lyserver.local";

/// The id of the greeting plugin.
pub const HELLO_PLUGIN_ID: &'static str = "hello@lyserver.local";

/// The id of the media plugin.
pub const MEDIA_PLUGIN_ID: &'static str = "media@lyserver.local";

/// The body of the server's welcome.
pub const WELCOME_BODY: &'static str = "Welcome to LYServer";

/// The body of the greeting plugin's answer.
pub const HELLO_BODY: &'static str = "hello from WASM!";

/// What a built-in plugin says of itself, but for its version.
pub open spec fn builtin_metadata(builtin: LYServerBuiltin, version: Seq<char>) -> MetadataModel {
    match builtin {
        LYServerBuiltin::Database => MetadataModel {
            id: "database@lyserver.local"@,
            name: "LYPlayerDatabasePlugin"@,
            description: "Database plugin for LYPlayer"@,
            version,
            author: "LYPlayer"@,
            wasm_entry_point: None,
        },
        LYServerBuiltin::Preferences => MetadataModel {
            id: "preferences@lyserver.local"@,
            name: "LYServerPreferencesPlugin"@,
            description: "Preferences plugin for LYServer"@,
            version,
            author: "LYServer"@,
            wasm_entry_point: None,
        },
        LYServerBuiltin::Http => MetadataModel {
            id: "http@lyserver.local"@,
            name: "LYServerHTTPServerPlugin"@,
            description: "HTTP server plugin for LYServer"@,
            version,
            author: "LYServer"@,
            wasm_entry_point: None,
        },
    }
}

/// What a built-in plugin of the given version says of itself.
pub fn metadata(builtin: LYServerBuiltin, version: &str) -> (r: LYServerPluginMetadata)
    ensures
        r@ == builtin_metadata(builtin, version@),
        r@.id == builtin.id_text(),
{
    match builtin {
        LYServerBuiltin::Database => LYServerPluginMetadata::builder().id(
            "database@lyserver.local",
        ).name("LYPlayerDatabasePlugin").description("Database plugin for LYPlayer").version(
            version,
        ).author("LYPlayer").build(),
        LYServerBuiltin::Preferences => LYServerPluginMetadata::builder().id(
            "preferences@lyserver.local",
        ).name("LYServerPreferencesPlugin").description("Preferences plugin for LYServer").version(
            version,
        ).author("LYServer").build(),
        LYServerBuiltin::Http => LYServerPluginMetadata::builder().id("http@lyserver.local").name(
            "LYServerHTTPServerPlugin",
        ).description("HTTP server plugin for LYServer").version(version).author("LYServer").build(),
    }
}

/// The two events by which a plugin answers a request: first the intent,
/// which claims the request and carries the CBOR null value, then the
/// response with its encoded payload. Both are replies to the request's
/// event, so both carry its id and go to its sender.
pub fn answer_events(
    request_event: &LYServerMessageEvent,
    sender: &LYServerMessageEventTarget,
    response_payload: Vec<u8>,
) -> (r: (LYServerMessageEvent, LYServerMessageEvent))
    ensures
        r.0@ == request_event@.reply(HTTP_INTENT_EVENT@, sender@, null_encoding()),
        r.1@ == request_event@.reply(HTTP_RESPONSE_EVENT@, sender@, response_payload@),
{
    let intent = request_event.reply(HTTP_INTENT_EVENT, sender.clone(), encode_null());
    let response = request_event.reply(HTTP_RESPONSE_EVENT, sender.clone(), response_payload);
    (intent, response)
}

/// The routes of the HTTP server plugin.
#[derive(Clone, Copy, Debug, PartialEq, Eq, Structural)]
pub enum LYServerHTTPServerRoute {
    /// `GET /`: the welcome.
    Welcome,
    /// `GET /status`: the status report.
    Status,
    /// `GET /favicon.ico`: not found.
    Favicon,
}

/// Whether a request takes a route of the HTTP server plugin.
pub open spec fn takes(request: RequestModel, route: LYServerHTTPServerRoute) -> bool {
    match route {
        LYServerHTTPServerRoute::Welcome => matched_route(request, "GET"@, "/"@).is_some(),
        LYServerHTTPServerRoute::Status => matched_route(request, "GET"@, "/status"@).is_some(),
        LYServerHTTPServerRoute::Favicon => matched_route(request, "GET"@, "/favicon.ico"@).is_some(),
    }
}

/// The route of the HTTP server plugin that a request takes: the first that
/// matches, of the welcome, the status report and the favicon.
pub open spec fn server_route(request: RequestModel) -> Option<LYServerHTTPServerRoute> {
    if takes(request, LYServerHTTPServerRoute::Welcome) {
        Some(LYServerHTTPServerRoute::Welcome)
    } else if takes(request, LYServerHTTPServerRoute::Status) {
        Some(LYServerHTTPServerRoute::Status)
    } else if takes(request, LYServerHTTPServerRoute::Favicon) {
        Some(LYServerHTTPServerRoute::Favicon)
    } else {
        None
    }
}

/// The HTTP server plugin.
pub struct LYServerHTTPServerPlugin;

impl LYServerHTTPServerPlugin {
    /// Whether the plugin handles an event: it handles requests.
    pub fn handles(event: &LYServerMessageEvent) -> (r: bool)
        ensures
            r == (event@.event_type == HTTP_REQUEST_EVENT@),
    {
        event.has_type(HTTP_REQUEST_EVENT)
    }

    /// The route that a request takes.
    pub fn handle_http_request(request: &LYServerHTTPRequest) -> (r: Option<LYServerHTTPServerRoute>)
        ensures
            r == server_route(request@),
    {
        if request.match_request("GET", "/").is_some() {
            Some(LYServerHTTPServerRoute::Welcome)
        } else if request.match_request("GET", "/status").is_some() {
            Some(LYServerHTTPServerRoute::Status)
        } else if request.match_request("GET", "/favicon.ico").is_some() {
            Some(LYServerHTTPServerRoute::Favicon)
        } else {
            None
        }
    }

    /// The response of a route. The status report comes as the outcome of
    /// its JSON encoding, and is looked at for the status route only.
    pub fn respond(
        request: &LYServerHTTPRequest,
        route: LYServerHTTPServerRoute,
        status: Result<String, serde_json::Error>,
    ) -> (r: LYServerHTTPResponse)
        ensures
            match route {
                LYServerHTTPServerRoute::Welcome => r@ == ResponseModel::fresh(request@).with_body(
                    encode_utf8(WELCOME_BODY@),
                ).finished(),
                LYServerHTTPServerRoute::Status => r@ == ResponseModel::fresh(request@).with_json(
                    encoded_text(status),
                ).finished(),
                LYServerHTTPServerRoute::Favicon => r@ == ResponseModel::error(
                    request@,
                    404,
                    "Page or resource not found"@,
                ).finished(),
            },
    {
        match route {
            LYServerHTTPServerRoute::Welcome => request.build_response().body(
                WELCOME_BODY.as_bytes_vec(),
            ).build(),
            LYServerHTTPServerRoute::Status => request.build_response().json(status).build(),
            LYServerHTTPServerRoute::Favicon => request.not_found_response(),
        }
    }
}

/// The greeting plugin's answer to a request: a request for `GET /hello` is
/// answered with the greeting, and no other request is answered.
pub fn hello_response(request: &LYServerHTTPRequest) -> (r: Option<LYServerHTTPResponse>)
    ensures
        match r {
            Some(response) => matched_route(request@, "GET"@, "/hello"@).is_some() && response@
                == ResponseModel::fresh(request@).with_body(encode_utf8(HELLO_BODY@)).finished(),
            None => matched_route(request@, "GET"@, "/hello"@).is_none(),
        },
{
    if request.match_request("GET", "/hello").is_some() {
        Some(request.build_response().body(HELLO_BODY.as_bytes_vec()).build())
    } else {
        None
    }
}

/// The media plugin's answer to a request: a request for `GET /player.mp3`
/// is answered with the asset, and no other request is answered.
pub fn media_response(request: &LYServerHTTPRequest, asset: Vec<u8>) -> (r: Option<LYServerHTTPResponse>)
    ensures
        match r {
            Some(response) => matched_route(request@, "GET"@, "/player.mp3"@).is_some() && response@
                == ResponseModel::fresh(request@).with_body(asset@).finished(),
            None => matched_route(request@, "GET"@, "/player.mp3"@).is_none(),
        },
{
    if request.match_request("GET", "/player.mp3").is_some() {
        Some(request.build_response().body(asset).build())
    } else {
        None
    }
}

} // verus!
