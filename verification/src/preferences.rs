//! The preferences plugin's decisions: the native type of a value, the lock
//! on a preference, what an invocation asks for, and which of the plugin's
//! routes a request takes.

use vstd::prelude::*;
use crate::bridge::HTTP_REQUEST_EVENT;
use crate::event::LYServerMessageEvent;
use crate::http::{LYServerHTTPRequest, LYServerHTTPResponse, RequestModel, ResponseModel};
use crate::router::{matched_route, LYServerHTTPRoute, LYServerHTTPRouter};
use crate::numeral::{
    lemma_numeral_round_trip, lemma_signed_numeral_round_trip, numeral_value, parse_numeral,
    parse_signed_numeral, signed_numeral_value,
};
use crate::text::{
    boolean_text, boolean_to_text, decimal, decimal_text, signed_decimal, signed_decimal_text, text_eq,
};

verus! {

/// The id of the preferences plugin.
pub const PREFERENCES_PLUGIN_ID: &'static str = "preferences@lyserver.local";

/// The native type of a preference's value.
#[derive(Clone, Copy, Debug, PartialEq, Eq, Structural)]
pub enum LYServerPreferenceType {
    Null,
    I32,
    F32,
    U32,
    Boolean,
    String,
    JSON,
}

impl LYServerPreferenceType {
    /// The number under which the type is stored.
    pub open spec fn id_of(self) -> u32 {
        match self {
            LYServerPreferenceType::Null => 0,
            LYServerPreferenceType::I32 => 1,
            LYServerPreferenceType::F32 => 2,
            LYServerPreferenceType::U32 => 3,
            LYServerPreferenceType::Boolean => 4,
            LYServerPreferenceType::String => 5,
            LYServerPreferenceType::JSON => 6,
        }
    }

    /// The name under which the type is stored.
    pub open spec fn name_text(self) -> Seq<char> {
        match self {
            LYServerPreferenceType::Null => "null"@,
            LYServerPreferenceType::I32 => "i32"@,
            LYServerPreferenceType::F32 => "f32"@,
            LYServerPreferenceType::U32 => "u32"@,
            LYServerPreferenceType::Boolean => "bool"@,
            LYServerPreferenceType::String => "str"@,
            LYServerPreferenceType::JSON => "json"@,
        }
    }

    /// The name under which the type is shown.
    pub open spec fn label_text(self) -> Seq<char> {
        match self {
            LYServerPreferenceType::Null => "Null"@,
            LYServerPreferenceType::I32 => "I32"@,
            LYServerPreferenceType::F32 => "F32"@,
            LYServerPreferenceType::U32 => "U32"@,
            LYServerPreferenceType::Boolean => "Boolean"@,
            LYServerPreferenceType::String => "String"@,
            LYServerPreferenceType::JSON => "JSON"@,
        }
    }

    /// The name under which the type is shown.
    pub fn label(self) -> (r: &'static str)
        ensures
            r@ == self.label_text(),
    {
        match self {
            LYServerPreferenceType::Null => "Null",
            LYServerPreferenceType::I32 => "I32",
            LYServerPreferenceType::F32 => "F32",
            LYServerPreferenceType::U32 => "U32",
            LYServerPreferenceType::Boolean => "Boolean",
            LYServerPreferenceType::String => "String",
            LYServerPreferenceType::JSON => "JSON",
        }
    }

    /// The number under which the type is stored.
    pub fn id(self) -> (r: u32)
        ensures
            r == self.id_of(),
            r <= 6,
    {
        match self {
            LYServerPreferenceType::Null => 0,
            LYServerPreferenceType::I32 => 1,
            LYServerPreferenceType::F32 => 2,
            LYServerPreferenceType::U32 => 3,
            LYServerPreferenceType::Boolean => 4,
            LYServerPreferenceType::String => 5,
            LYServerPreferenceType::JSON => 6,
        }
    }

    /// The type that is stored under a number, if there is one.
    pub fn from_id(id: u32) -> (r: Option<Self>)
        ensures
            match r {
                Some(native_type) => native_type.id_of() == id,
                None => id > 6,
            },
    {
        if id == 0 {
            Some(LYServerPreferenceType::Null)
        } else if id == 1 {
            Some(LYServerPreferenceType::I32)
        } else if id == 2 {
            Some(LYServerPreferenceType::F32)
        } else if id == 3 {
            Some(LYServerPreferenceType::U32)
        } else if id == 4 {
            Some(LYServerPreferenceType::Boolean)
        } else if id == 5 {
            Some(LYServerPreferenceType::String)
        } else if id == 6 {
            Some(LYServerPreferenceType::JSON)
        } else {
            None
        }
    }

    /// The name under which the type is stored.
    pub fn name(self) -> (r: &'static str)
        ensures
            r@ == self.name_text(),
    {
        match self {
            LYServerPreferenceType::Null => "null",
            LYServerPreferenceType::I32 => "i32",
            LYServerPreferenceType::F32 => "f32",
            LYServerPreferenceType::U32 => "u32",
            LYServerPreferenceType::Boolean => "bool",
            LYServerPreferenceType::String => "str",
            LYServerPreferenceType::JSON => "json",
        }
    }
}

/// A native type is found again under the number that it is stored under.
pub proof fn lemma_type_id_round_trip(native_type: LYServerPreferenceType)
    ensures
        native_type.id_of() <= 6,
        forall|other: LYServerPreferenceType|
            other.id_of() == native_type.id_of() ==> other == native_type,
{
}

/// What a JSON value is, as far as its native type depends on it. Of a
/// number it says whether it is held as a floating-point number, and
/// whether it fits a signed and an unsigned 64-bit integer.
#[derive(Clone, Copy, Debug, PartialEq, Eq, Structural)]
pub enum LYServerJsonKind {
    Null,
    Bool,
    Number { is_f64: bool, is_i64: bool, is_u64: bool },
    String,
    Array,
    Object,
}

/// Why a preference was not written.
#[derive(Clone, Copy, Debug, PartialEq, Eq, Structural)]
pub enum LYServerPreferenceError {
    /// The preference is locked.
    Locked,
    /// The value is a number of no known kind.
    InvalidNumber,
    /// The method is neither `get` nor `get_all`.
    UnknownMethod,
    /// `get` takes exactly one argument.
    InvalidArguments,
}

impl LYServerPreferenceError {
    /// The message of the failure.
    pub open spec fn message_text(self) -> Seq<char> {
        match self {
            LYServerPreferenceError::Locked => "Locked"@,
            LYServerPreferenceError::InvalidNumber => "Invalid number type in preference value"@,
            LYServerPreferenceError::UnknownMethod => "Unknown method"@,
            LYServerPreferenceError::InvalidArguments => "Invalid arguments for 'get' method"@,
        }
    }

    /// The message of the failure.
    pub fn message(self) -> (r: &'static str)
        ensures
            r@ == self.message_text(),
    {
        match self {
            LYServerPreferenceError::Locked => "Locked",
            LYServerPreferenceError::InvalidNumber => "Invalid number type in preference value",
            LYServerPreferenceError::UnknownMethod => "Unknown method",
            LYServerPreferenceError::InvalidArguments => "Invalid arguments for 'get' method",
        }
    }
}

/// The native type of a JSON value: a floating-point number is an `f32`;
/// an integer that fits a signed 64-bit integer is an `i32`, and one that
/// fits only an unsigned one is a `u32`; arrays and objects are JSON.
pub open spec fn native_type_of(kind: LYServerJsonKind) -> Result<
    LYServerPreferenceType,
    LYServerPreferenceError,
> {
    match kind {
        LYServerJsonKind::Null => Ok(LYServerPreferenceType::Null),
        LYServerJsonKind::Bool => Ok(LYServerPreferenceType::Boolean),
        LYServerJsonKind::Number { is_f64, is_i64, is_u64 } => if is_f64 {
            Ok(LYServerPreferenceType::F32)
        } else if is_i64 {
            Ok(LYServerPreferenceType::I32)
        } else if is_u64 {
            Ok(LYServerPreferenceType::U32)
        } else {
            Err(LYServerPreferenceError::InvalidNumber)
        },
        LYServerJsonKind::String => Ok(LYServerPreferenceType::String),
        LYServerJsonKind::Array => Ok(LYServerPreferenceType::JSON),
        LYServerJsonKind::Object => Ok(LYServerPreferenceType::JSON),
    }
}

/// A preference as it is stored.
#[derive(Debug, PartialEq, Eq)]
pub struct LYServerPreference {
    pub key: String,
    /// The value as a text, or nothing for the null value.
    pub value: Option<String>,
    pub native_type: LYServerPreferenceType,
    /// Whether writes are refused.
    pub is_locked: bool,
}

/// What a write does to the store.
#[derive(Clone, Copy, Debug, PartialEq, Eq, Structural)]
pub enum LYServerPreferenceWrite {
    /// The key is new.
    Created,
    /// The key had a value, which is replaced.
    Updated,
}

/// The status of the response to a write: 201 for a new key, 200 for one
/// that was there.
pub open spec fn write_status(write: LYServerPreferenceWrite) -> u16 {
    match write {
        LYServerPreferenceWrite::Created => 201,
        LYServerPreferenceWrite::Updated => 200,
    }
}

/// The status of the response to a removal.
pub const DELETE_STATUS: u16 = 204;

/// What a write to a key comes to, by what is stored under the key: a locked
/// preference refuses the write; an unlocked one is updated; a key that is
/// not there is created.
pub open spec fn write_decision(existing: Option<LYServerPreference>) -> Result<
    LYServerPreferenceWrite,
    LYServerPreferenceError,
> {
    match existing {
        Some(stored) => if stored.is_locked {
            Err(LYServerPreferenceError::Locked)
        } else {
            Ok(LYServerPreferenceWrite::Updated)
        },
        None => Ok(LYServerPreferenceWrite::Created),
    }
}

/// The routes that the preferences plugin serves.
#[derive(Clone, Copy, Debug, PartialEq, Eq, Structural)]
pub enum LYServerPreferencesRoute {
    /// `GET /preferences`: every preference.
    List,
    /// `GET /preferences/:key`: one preference.
    Get,
    /// `PUT /preferences`: sets a preference.
    Put,
    /// `DELETE /preferences`: removes a preference.
    Delete,
}

/// The methods and patterns of the routes, in the order in which they are
/// tried.
pub open spec fn route_patterns() -> Seq<(Seq<char>, Seq<char>)> {
    seq![
        ("GET"@, "/preferences"@),
        ("GET"@, "/preferences/:key"@),
        ("PUT"@, "/preferences"@),
        ("DELETE"@, "/preferences"@),
    ]
}

/// The routes, in the order in which they are tried.
pub open spec fn route_handlers() -> Seq<LYServerPreferencesRoute> {
    seq![
        LYServerPreferencesRoute::List,
        LYServerPreferencesRoute::Get,
        LYServerPreferencesRoute::Put,
        LYServerPreferencesRoute::Delete,
    ]
}

/// Whether the route at a place matches the request.
pub open spec fn routes_at(request: RequestModel, i: int) -> bool {
    matched_route(request, route_patterns()[i].0, route_patterns()[i].1).is_some()
}

/// Whether `i` is the place of the first route that matches the request.
pub open spec fn is_first_route(request: RequestModel, i: int) -> bool {
    &&& 0 <= i < 4
    &&& routes_at(request, i)
    &&& forall|j: int| 0 <= j < i ==> !routes_at(request, j)
}

/// What an invocation of the preferences plugin asks for.
#[derive(Debug, PartialEq, Eq)]
pub enum LYServerPreferencesInvocation {
    /// The preference with this key.
    Get(String),
    /// Every preference.
    GetAll,
}

/// The preferences plugin.
pub struct LYServerPreferencesPlugin;

impl LYServerPreferencesPlugin {
    /// The native type of a JSON value.
    pub fn native_type(kind: LYServerJsonKind) -> (r: Result<
        LYServerPreferenceType,
        LYServerPreferenceError,
    >)
        ensures
            r == native_type_of(kind),
    {
        match kind {
            LYServerJsonKind::Null => Ok(LYServerPreferenceType::Null),
            LYServerJsonKind::Bool => Ok(LYServerPreferenceType::Boolean),
            LYServerJsonKind::Number { is_f64, is_i64, is_u64 } => {
                if is_f64 {
                    Ok(LYServerPreferenceType::F32)
                } else if is_i64 {
                    Ok(LYServerPreferenceType::I32)
                } else if is_u64 {
                    Ok(LYServerPreferenceType::U32)
                } else {
                    Err(LYServerPreferenceError::InvalidNumber)
                }
            },
            LYServerJsonKind::String => Ok(LYServerPreferenceType::String),
            LYServerJsonKind::Array => Ok(LYServerPreferenceType::JSON),
            LYServerJsonKind::Object => Ok(LYServerPreferenceType::JSON),
        }
    }

    /// What a write to a key comes to, by what is stored under the key.
    pub fn check_write(existing: &Option<LYServerPreference>) -> (r: Result<
        LYServerPreferenceWrite,
        LYServerPreferenceError,
    >)
        ensures
            r == write_decision(*existing),
    {
        match existing {
            Some(stored) => {
                if stored.is_locked {
                    Err(LYServerPreferenceError::Locked)
                } else {
                    Ok(LYServerPreferenceWrite::Updated)
                }
            },
            None => Ok(LYServerPreferenceWrite::Created),
        }
    }

    /// The response to a request that the plugin refuses: status 400, with
    /// the JSON object that reports the failure, whose error is the
    /// failure's message.
    pub fn refuse(request: &LYServerHTTPRequest, error: LYServerPreferenceError) -> (r:
        LYServerHTTPResponse)
        ensures
            r@ == ResponseModel::error(request@, 400, error.message_text()).finished(),
            r@.status_code == 400,
    {
        request.build_error_response(400, error.message()).build()
    }

    /// What a write to a key comes to, with the response that refuses it
    /// where it is refused: a write to a locked preference is answered with
    /// status 400 and the error `Locked`, and changes nothing.
    pub fn write_or_refuse(request: &LYServerHTTPRequest, existing: &Option<LYServerPreference>) -> (r:
        Result<LYServerPreferenceWrite, LYServerHTTPResponse>)
        ensures
            match r {
                Ok(write) => write_decision(*existing) == Ok::<_, LYServerPreferenceError>(write),
                Err(response) => write_decision(*existing) == Err::<LYServerPreferenceWrite, _>(
                    LYServerPreferenceError::Locked,
                ) && response@ == ResponseModel::error(request@, 400, "Locked"@).finished()
                    && response@.status_code == 400,
            },
    {
        match Self::check_write(existing) {
            Ok(write) => Ok(write),
            Err(e) => Err(Self::refuse(request, e)),
        }
    }

    /// What a `PUT` comes to, from the kind of the value and what is stored
    /// under the key. The decisions are taken in this order: the value has to
    /// have a native type, and the preference must not be locked; each
    /// failure is answered with status 400 and the failure's message, and
    /// asks for no write. Otherwise the value is written under its native
    /// type, and the status of the response is 201 for a new key and 200 for
    /// one that was there.
    pub fn put(
        request: &LYServerHTTPRequest,
        kind: LYServerJsonKind,
        existing: &Option<LYServerPreference>,
    ) -> (r: Result<(LYServerPreferenceType, LYServerPreferenceWrite, u16), LYServerHTTPResponse>)
        ensures
            match r {
                Ok((native_type, write, status)) => {
                    &&& native_type_of(kind) == Ok::<_, LYServerPreferenceError>(native_type)
                    &&& write_decision(*existing) == Ok::<_, LYServerPreferenceError>(write)
                    &&& status == write_status(write)
                },
                Err(response) => {
                    &&& response@.status_code == 400
                    &&& match native_type_of(kind) {
                        Err(e) => response@ == ResponseModel::error(
                            request@,
                            400,
                            e.message_text(),
                        ).finished(),
                        Ok(_) => write_decision(*existing) == Err::<LYServerPreferenceWrite, _>(
                            LYServerPreferenceError::Locked,
                        ) && response@ == ResponseModel::error(request@, 400, "Locked"@).finished(),
                    }
                },
            },
    {
        let native_type = match Self::native_type(kind) {
            Ok(native_type) => native_type,
            Err(e) => {
                return Err(Self::refuse(request, e));
            },
        };
        match Self::write_or_refuse(request, existing) {
            Ok(write) => Ok((native_type, write, Self::status_of_write(write))),
            Err(response) => Err(response),
        }
    }

    /// What a `DELETE` comes to, from what is stored under the key: a locked
    /// preference refuses the removal, which is answered with status 400 and
    /// the error `Locked`; otherwise the key is removed and the status of
    /// the response is 204, whether or not the key was there.
    pub fn delete(request: &LYServerHTTPRequest, existing: &Option<LYServerPreference>) -> (r: Result<
        u16,
        LYServerHTTPResponse,
    >)
        ensures
            match r {
                Ok(status) => status == DELETE_STATUS && !(*existing matches Some(stored)
                    && stored.is_locked),
                Err(response) => *existing matches Some(stored) && stored.is_locked && response@
                    == ResponseModel::error(request@, 400, "Locked"@).finished()
                    && response@.status_code == 400,
            },
    {
        match existing {
            Some(stored) => {
                if stored.is_locked {
                    return Err(Self::refuse(request, LYServerPreferenceError::Locked));
                }
            },
            None => {},
        }
        Ok(DELETE_STATUS)
    }

    /// The status of the response to a write.
    pub fn status_of_write(write: LYServerPreferenceWrite) -> (r: u16)
        ensures
            r == write_status(write),
    {
        match write {
            LYServerPreferenceWrite::Created => 201,
            LYServerPreferenceWrite::Updated => 200,
        }
    }

    /// The router of the plugin: its four routes, in the order in which they
    /// are tried.
    pub fn router() -> (r: LYServerHTTPRouter<LYServerPreferencesRoute>)
        ensures
            r.patterns() == route_patterns(),
            r.handlers() == route_handlers(),
    {
        let mut router: LYServerHTTPRouter<LYServerPreferencesRoute> = LYServerHTTPRouter::new();
        router.add_matcher("GET", "/preferences", LYServerPreferencesRoute::List);
        router.add_matcher("GET", "/preferences/:key", LYServerPreferencesRoute::Get);
        router.add_matcher("PUT", "/preferences", LYServerPreferencesRoute::Put);
        router.add_matcher("DELETE", "/preferences", LYServerPreferencesRoute::Delete);
        assert(router.patterns() =~= route_patterns());
        assert(router.handlers() =~= route_handlers());
        router
    }

    /// Which of the plugin's routes an event takes. Only an event of type
    /// `http_request` takes one: the first route, in the order of the
    /// router, whose method and pattern match the request that the event
    /// carries.
    pub fn handle_message_event(event: &LYServerMessageEvent, request: &LYServerHTTPRequest) -> (r:
        Option<(LYServerPreferencesRoute, LYServerHTTPRoute)>)
        ensures
            match r {
                Some((taken, route)) => event@.event_type == HTTP_REQUEST_EVENT@ && exists|i: int|
                    #[trigger] is_first_route(request@, i) && taken == route_handlers()[i]
                        && matched_route(request@, route_patterns()[i].0, route_patterns()[i].1)
                        == Some(route@),
                None => event@.event_type != HTTP_REQUEST_EVENT@ || forall|i: int|
                    0 <= i < 4 ==> !routes_at(request@, i),
            },
    {
        if !event.has_type(HTTP_REQUEST_EVENT) {
            return None;
        }
        let router = Self::router();
        match router.select(request) {
            Some((i, route)) => {
                let taken = *router.handler(i);
                proof {
                    assert(router.is_first_match(i as int, request@));
                    assert forall|j: int| 0 <= j < i implies !routes_at(request@, j) by {
                        assert(!router.matches_at(j, request@));
                    }
                    assert(is_first_route(request@, i as int));
                }
                Some((taken, route))
            },
            None => {
                proof {
                    assert(router.no_match(request@));
                    assert forall|j: int| 0 <= j < 4 implies !routes_at(request@, j) by {
                        assert(!router.matches_at(j, request@));
                    }
                }
                None
            },
        }
    }

    /// Reads an invocation: `get` with exactly one argument, the key, or
    /// `get_all`.
    pub fn invoke(method: &str, args: &Vec<String>) -> (r: Result<
        LYServerPreferencesInvocation,
        LYServerPreferenceError,
    >)
        ensures
            match r {
                Ok(LYServerPreferencesInvocation::Get(key)) => method@ == "get"@ && args@.len() == 1
                    && key@ == args@[0]@,
                Ok(LYServerPreferencesInvocation::GetAll) => method@ != "get"@ && method@
                    == "get_all"@,
                Err(e) => if method@ == "get"@ {
                    args@.len() != 1 && e == LYServerPreferenceError::InvalidArguments
                } else {
                    method@ != "get_all"@ && e == LYServerPreferenceError::UnknownMethod
                },
            },
    {
        if text_eq(method, "get") {
            if args.len() != 1 {
                return Err(LYServerPreferenceError::InvalidArguments);
            }
            Ok(LYServerPreferencesInvocation::Get(args[0].clone()))
        } else if text_eq(method, "get_all") {
            Ok(LYServerPreferencesInvocation::GetAll)
        } else {
            Err(LYServerPreferenceError::UnknownMethod)
        }
    }
}

/// The value of a preference. A floating-point number is held as its
/// decimal text, and a JSON value as its JSON text.
#[derive(Debug, PartialEq, Eq)]
pub enum LYServerPreferenceValue {
    Null,
    I32(i32),
    F32(String),
    U32(u32),
    Boolean(bool),
    String(String),
    JSON(String),
}

/// The mathematical value of a preference's value.
pub enum PreferenceValueModel {
    Null,
    I32(i32),
    F32(Seq<char>),
    U32(u32),
    Boolean(bool),
    String(Seq<char>),
    JSON(Seq<char>),
}

impl View for LYServerPreferenceValue {
    type V = PreferenceValueModel;

    open spec fn view(&self) -> PreferenceValueModel {
        match self {
            LYServerPreferenceValue::Null => PreferenceValueModel::Null,
            LYServerPreferenceValue::I32(n) => PreferenceValueModel::I32(*n),
            LYServerPreferenceValue::F32(t) => PreferenceValueModel::F32(t@),
            LYServerPreferenceValue::U32(n) => PreferenceValueModel::U32(*n),
            LYServerPreferenceValue::Boolean(b) => PreferenceValueModel::Boolean(*b),
            LYServerPreferenceValue::String(t) => PreferenceValueModel::String(t@),
            LYServerPreferenceValue::JSON(t) => PreferenceValueModel::JSON(t@),
        }
    }
}

/// How a value is stored: its native type, and its text. The null value has
/// no text; integers are stored in decimal, truth values as `true` and
/// `false`, and everything else as it is.
pub open spec fn stored_form(value: PreferenceValueModel) -> (LYServerPreferenceType, Option<Seq<char>>) {
    match value {
        PreferenceValueModel::Null => (LYServerPreferenceType::Null, None),
        PreferenceValueModel::I32(n) => (LYServerPreferenceType::I32, Some(signed_decimal(n as int))),
        PreferenceValueModel::F32(t) => (LYServerPreferenceType::F32, Some(t)),
        PreferenceValueModel::U32(n) => (LYServerPreferenceType::U32, Some(decimal(n as nat))),
        PreferenceValueModel::Boolean(b) => (LYServerPreferenceType::Boolean, Some(boolean_text(b))),
        PreferenceValueModel::String(t) => (LYServerPreferenceType::String, Some(t)),
        PreferenceValueModel::JSON(t) => (LYServerPreferenceType::JSON, Some(t)),
    }
}

/// The value that is stored as a native type and a text; nothing where the
/// text does not belong to the type.
pub open spec fn value_of(native_type: LYServerPreferenceType, text: Option<Seq<char>>) -> Option<
    PreferenceValueModel,
> {
    match (native_type, text) {
        (LYServerPreferenceType::Null, None) => Some(PreferenceValueModel::Null),
        (LYServerPreferenceType::I32, Some(t)) => match signed_numeral_value(t) {
            Some(n) => if i32::MIN <= n <= i32::MAX {
                Some(PreferenceValueModel::I32(n as i32))
            } else {
                None
            },
            None => None,
        },
        (LYServerPreferenceType::F32, Some(t)) => Some(PreferenceValueModel::F32(t)),
        (LYServerPreferenceType::U32, Some(t)) => match numeral_value(t) {
            Some(n) => if n <= u32::MAX {
                Some(PreferenceValueModel::U32(n as u32))
            } else {
                None
            },
            None => None,
        },
        (LYServerPreferenceType::Boolean, Some(t)) => if t == "true"@ {
            Some(PreferenceValueModel::Boolean(true))
        } else if t == "false"@ {
            Some(PreferenceValueModel::Boolean(false))
        } else {
            None
        },
        (LYServerPreferenceType::String, Some(t)) => Some(PreferenceValueModel::String(t)),
        (LYServerPreferenceType::JSON, Some(t)) => Some(PreferenceValueModel::JSON(t)),
        _ => None,
    }
}

/// A value of any native type that is stored and read back is the value
/// that was stored.
pub proof fn lemma_stored_value_round_trip(value: PreferenceValueModel)
    ensures
        value_of(stored_form(value).0, stored_form(value).1) == Some(value),
{
    match value {
        PreferenceValueModel::I32(n) => {
            lemma_signed_numeral_round_trip(n as int);
        },
        PreferenceValueModel::U32(n) => {
            lemma_numeral_round_trip(n as nat);
        },
        PreferenceValueModel::Boolean(b) => {
            reveal_strlit("true");
            reveal_strlit("false");
            assert("true"@.len() != "false"@.len());
        },
        _ => {},
    }
}

impl LYServerPreferenceValue {
    /// How the value is stored.
    pub fn encode(&self) -> (r: (LYServerPreferenceType, Option<String>))
        ensures
            r.0 == stored_form(self@).0,
            match r.1 {
                Some(text) => stored_form(self@).1 == Some(text@),
                None => stored_form(self@).1.is_none(),
            },
    {
        match self {
            LYServerPreferenceValue::Null => (LYServerPreferenceType::Null, None),
            LYServerPreferenceValue::I32(n) => (
                LYServerPreferenceType::I32,
                Some(signed_decimal_text(*n as i64)),
            ),
            LYServerPreferenceValue::F32(t) => (LYServerPreferenceType::F32, Some(t.clone())),
            LYServerPreferenceValue::U32(n) => (LYServerPreferenceType::U32, Some(decimal_text(*n as u64))),
            LYServerPreferenceValue::Boolean(b) => (
                LYServerPreferenceType::Boolean,
                Some(boolean_to_text(*b).to_owned()),
            ),
            LYServerPreferenceValue::String(t) => (LYServerPreferenceType::String, Some(t.clone())),
            LYServerPreferenceValue::JSON(t) => (LYServerPreferenceType::JSON, Some(t.clone())),
        }
    }

    /// The value that is stored as a native type and a text.
    pub fn decode(native_type: LYServerPreferenceType, text: Option<&str>) -> (r: Option<Self>)
        ensures
            match r {
                Some(value) => value_of(
                    native_type,
                    match text {
                        Some(t) => Some(t@),
                        None => None,
                    },
                ) == Some(value@),
                None => value_of(
                    native_type,
                    match text {
                        Some(t) => Some(t@),
                        None => None,
                    },
                ).is_none(),
            },
    {
        match (native_type, text) {
            (LYServerPreferenceType::Null, None) => Some(LYServerPreferenceValue::Null),
            (LYServerPreferenceType::I32, Some(t)) => match parse_signed_numeral(
                t,
                0x8000_0000,
                0x7fff_ffff,
            ) {
                Some(n) => Some(LYServerPreferenceValue::I32(n as i32)),
                None => None,
            },
            (LYServerPreferenceType::F32, Some(t)) => Some(LYServerPreferenceValue::F32(t.to_owned())),
            (LYServerPreferenceType::U32, Some(t)) => match parse_numeral(t, 0xffff_ffff) {
                Some(n) => Some(LYServerPreferenceValue::U32(n as u32)),
                None => None,
            },
            (LYServerPreferenceType::Boolean, Some(t)) => {
                if text_eq(t, "true") {
                    Some(LYServerPreferenceValue::Boolean(true))
                } else if text_eq(t, "false") {
                    Some(LYServerPreferenceValue::Boolean(false))
                } else {
                    None
                }
            },
            (LYServerPreferenceType::String, Some(t)) => Some(
                LYServerPreferenceValue::String(t.to_owned()),
            ),
            (LYServerPreferenceType::JSON, Some(t)) => Some(LYServerPreferenceValue::JSON(t.to_owned())),
            _ => None,
        }
    }
}

} // verus!
