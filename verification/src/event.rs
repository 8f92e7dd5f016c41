//! The event model: the record exchanged on the bus, its addressing, and the
//! correlation rule that ties a reply to the event it answers.

use vstd::prelude::*;
use crate::cbor::LYServerCborValue;
use crate::text::text_eq;

verus! {

/// Where an event goes to, or where it came from.
#[derive(Debug, Eq)]
pub enum LYServerMessageEventTarget {
    /// Every subscriber.
    All,
    /// The plugin with this id.
    Plugin(String),
}

/// The mathematical value of a target.
pub enum TargetModel {
    All,
    Plugin(Seq<char>),
}

impl TargetModel {
    /// The text form of a target: the word `all`, or the plugin's id.
    pub open spec fn text(self) -> Seq<char> {
        match self {
            TargetModel::All => "all"@,
            TargetModel::Plugin(id) => id,
        }
    }

    /// The bus matching rule: a subscriber with id `plugin_id` receives what
    /// is addressed to everyone and what is addressed to it by name.
    pub open spec fn delivers_to(self, plugin_id: Seq<char>) -> bool {
        self == TargetModel::All || self == TargetModel::Plugin(plugin_id)
    }
}

impl View for LYServerMessageEventTarget {
    type V = TargetModel;

    open spec fn view(&self) -> TargetModel {
        match self {
            LYServerMessageEventTarget::All => TargetModel::All,
            LYServerMessageEventTarget::Plugin(id) => TargetModel::Plugin(id@),
        }
    }
}

impl Clone for LYServerMessageEventTarget {
    fn clone(&self) -> (r: Self)
        ensures
            r@ == self@,
    {
        match self {
            LYServerMessageEventTarget::All => LYServerMessageEventTarget::All,
            LYServerMessageEventTarget::Plugin(id) => LYServerMessageEventTarget::Plugin(
                id.clone(),
            ),
        }
    }
}

impl LYServerMessageEventTarget {
    /// The target that names one plugin.
    pub fn plugin(id: &str) -> (r: Self)
        ensures
            r@ == TargetModel::Plugin(id@),
    {
        LYServerMessageEventTarget::Plugin(id.to_owned())
    }

    /// The text form: `all`, or the plugin's id.
    pub fn to_string(&self) -> (r: String)
        ensures
            r@ == self@.text(),
    {
        match self {
            LYServerMessageEventTarget::All => "all".to_owned(),
            LYServerMessageEventTarget::Plugin(id) => id.clone(),
        }
    }

    /// Whether the target is the broadcast target.
    pub fn is_all(&self) -> (r: bool)
        ensures
            r == (self@ == TargetModel::All),
    {
        match self {
            LYServerMessageEventTarget::All => true,
            LYServerMessageEventTarget::Plugin(_) => false,
        }
    }

    /// The id of the plugin that the target names, if it names one.
    pub fn plugin_id(&self) -> (r: Option<String>)
        ensures
            match r {
                Some(id) => self@ == TargetModel::Plugin(id@),
                None => self@ == TargetModel::All,
            },
    {
        match self {
            LYServerMessageEventTarget::All => None,
            LYServerMessageEventTarget::Plugin(id) => Some(id.clone()),
        }
    }

    /// Whether a subscriber with id `plugin_id` receives what is sent to this
    /// target.
    pub fn delivers_to(&self, plugin_id: &str) -> (r: bool)
        ensures
            r == self@.delivers_to(plugin_id@),
    {
        match self {
            LYServerMessageEventTarget::All => true,
            LYServerMessageEventTarget::Plugin(id) => text_eq(id.as_str(), plugin_id),
        }
    }
}

impl PartialEq for LYServerMessageEventTarget {
    /// Two targets are equal when both are the broadcast target or both name
    /// the same plugin.
    fn eq(&self, other: &Self) -> (r: bool) {
        match (self, other) {
            (LYServerMessageEventTarget::All, LYServerMessageEventTarget::All) => true,
            (LYServerMessageEventTarget::Plugin(a), LYServerMessageEventTarget::Plugin(b)) => {
                text_eq(a.as_str(), b.as_str())
            },
            _ => false,
        }
    }
}

impl vstd::std_specs::cmp::PartialEqSpecImpl for LYServerMessageEventTarget {
    open spec fn obeys_eq_spec() -> bool {
        true
    }

    open spec fn eq_spec(&self, other: &Self) -> bool {
        self@ == other@
    }
}

impl From<String> for LYServerMessageEventTarget {
    /// The target that names the plugin with the given id.
    fn from(s: String) -> (r: Self) {
        LYServerMessageEventTarget::Plugin(s)
    }
}

impl vstd::std_specs::convert::FromSpecImpl<String> for LYServerMessageEventTarget {
    open spec fn obeys_from_spec() -> bool {
        true
    }

    open spec fn from_spec(s: String) -> Self {
        LYServerMessageEventTarget::Plugin(s)
    }
}

impl<'a> From<&'a str> for LYServerMessageEventTarget {
    /// The target that names the plugin with the given id.
    fn from(s: &'a str) -> (r: Self)
        ensures
            r@ == TargetModel::Plugin(s@),
    {
        LYServerMessageEventTarget::plugin(s)
    }
}

impl<'a> vstd::std_specs::convert::FromSpecImpl<&'a str> for LYServerMessageEventTarget {
    open spec fn obeys_from_spec() -> bool {
        false
    }

    open spec fn from_spec(s: &'a str) -> Self {
        arbitrary()
    }
}

impl From<LYServerMessageEventTarget> for String {
    /// The text form of a target: `all`, or the plugin's id.
    fn from(target: LYServerMessageEventTarget) -> (r: String)
        ensures
            r@ == target@.text(),
    {
        target.to_string()
    }
}

impl vstd::std_specs::convert::FromSpecImpl<LYServerMessageEventTarget> for String {
    open spec fn obeys_from_spec() -> bool {
        false
    }

    open spec fn from_spec(target: LYServerMessageEventTarget) -> String {
        arbitrary()
    }
}

/// The event: the sole unit exchanged on the bus.
#[derive(Debug, PartialEq, Eq)]
pub struct LYServerMessageEvent {
    /// The correlation key, kept by every reply.
    pub event_id: String,
    /// The routing discriminator.
    pub event_type: String,
    /// The addressee.
    pub event_target: LYServerMessageEventTarget,
    /// The origin.
    pub event_sender: LYServerMessageEventTarget,
    /// The encoded payload.
    pub data: Vec<u8>,
}

/// The mathematical value of an event.
pub struct EventModel {
    pub event_id: Seq<char>,
    pub event_type: Seq<char>,
    pub event_target: TargetModel,
    pub event_sender: TargetModel,
    pub data: Seq<u8>,
}

impl EventModel {
    /// The reply to an event: the id is kept, the addressee is the sender of
    /// the event that is answered, and type, sender and payload are new.
    pub open spec fn reply(self, event_type: Seq<char>, sender: TargetModel, data: Seq<u8>) -> EventModel {
        EventModel {
            event_id: self.event_id,
            event_type,
            event_target: self.event_sender,
            event_sender: sender,
            data,
        }
    }

    /// Whether the event has the given type and correlation id.
    pub open spec fn answers(self, event_type: Seq<char>, event_id: Seq<char>) -> bool {
        self.event_type == event_type && self.event_id == event_id
    }
}

impl View for LYServerMessageEvent {
    type V = EventModel;

    open spec fn view(&self) -> EventModel {
        EventModel {
            event_id: self.event_id@,
            event_type: self.event_type@,
            event_target: self.event_target@,
            event_sender: self.event_sender@,
            data: self.data@,
        }
    }
}

impl Clone for LYServerMessageEvent {
    fn clone(&self) -> (r: Self)
        ensures
            r@ == self@,
    {
        LYServerMessageEvent {
            event_id: self.event_id.clone(),
            event_type: self.event_type.clone(),
            event_target: self.event_target.clone(),
            event_sender: self.event_sender.clone(),
            data: self.data.clone(),
        }
    }
}

impl LYServerMessageEvent {
    /// A new event with the given correlation id. The id is the caller's to
    /// choose; it has to be fresh for every originating send.
    pub fn new(
        event_id: String,
        event_type: &str,
        target: LYServerMessageEventTarget,
        sender: LYServerMessageEventTarget,
        data: Vec<u8>,
    ) -> (r: Self)
        ensures
            r@ == (EventModel {
                event_id: event_id@,
                event_type: event_type@,
                event_target: target@,
                event_sender: sender@,
                data: data@,
            }),
    {
        LYServerMessageEvent {
            event_id,
            event_type: event_type.to_owned(),
            event_target: target,
            event_sender: sender,
            data,
        }
    }

    /// A copy of the encoded payload.
    pub fn data(&self) -> (r: Vec<u8>)
        ensures
            r@ == self@.data,
    {
        self.data.clone()
    }

    /// The reply to this event, of the given type, from the given sender and
    /// with the given encoded payload.
    pub fn reply(&self, event_type: &str, sender: LYServerMessageEventTarget, data: Vec<u8>) -> (r: Self)
        ensures
            r@ == self@.reply(event_type@, sender@, data@),
            r@.event_id == self@.event_id,
            r@.event_target == self@.event_sender,
    {
        LYServerMessageEvent {
            event_id: self.event_id.clone(),
            event_type: event_type.to_owned(),
            event_target: self.event_sender.clone(),
            event_sender: sender,
            data,
        }
    }

    /// Whether the event has the given type.
    pub fn has_type(&self, event_type: &str) -> (r: bool)
        ensures
            r == (self@.event_type == event_type@),
    {
        text_eq(self.event_type.as_str(), event_type)
    }

    /// Whether the event has the given type and the given correlation id.
    pub fn answers(&self, event_type: &str, event_id: &str) -> (r: bool)
        ensures
            r == self@.answers(event_type@, event_id@),
    {
        text_eq(self.event_type.as_str(), event_type) && text_eq(self.event_id.as_str(), event_id)
    }
}

/// Why a CBOR value is not an event in array form.
#[derive(Clone, Copy, Debug, PartialEq, Eq, Structural)]
pub enum LYServerEventDecodeError {
    /// The value is not an array.
    NotAnArray,
    /// The first element is missing or is not a byte string.
    DataNotBytes,
    /// The second element is missing or is not a text.
    EventIdNotText,
    /// The third element is missing or is not a text.
    EventTypeNotText,
    /// The fourth element is missing or is not a text.
    EventSenderNotText,
    /// The fifth element is missing or is not a text.
    EventTargetNotText,
}

impl LYServerEventDecodeError {
    /// The message of the error.
    pub fn message(&self) -> (r: &'static str)
        ensures
            r@ == self.message_text(),
    {
        match self {
            LYServerEventDecodeError::NotAnArray => "Expected CBOR array with 4 elements",
            LYServerEventDecodeError::DataNotBytes => "Expected event_data as bytes",
            LYServerEventDecodeError::EventIdNotText => "Expected event_id as text",
            LYServerEventDecodeError::EventTypeNotText => "Expected event_type as text",
            LYServerEventDecodeError::EventSenderNotText => "Expected event_sender as text",
            LYServerEventDecodeError::EventTargetNotText => "Expected event_target as text",
        }
    }

    /// The message that goes with each error.
    pub open spec fn message_text(&self) -> Seq<char> {
        match self {
            LYServerEventDecodeError::NotAnArray => "Expected CBOR array with 4 elements"@,
            LYServerEventDecodeError::DataNotBytes => "Expected event_data as bytes"@,
            LYServerEventDecodeError::EventIdNotText => "Expected event_id as text"@,
            LYServerEventDecodeError::EventTypeNotText => "Expected event_type as text"@,
            LYServerEventDecodeError::EventSenderNotText => "Expected event_sender as text"@,
            LYServerEventDecodeError::EventTargetNotText => "Expected event_target as text"@,
        }
    }
}

/// Whether an element exists and is a text.
pub open spec fn is_text_at(items: Seq<LYServerCborValue>, i: int) -> bool {
    0 <= i < items.len() && items[i] is Text
}

/// Whether an element exists and is a byte string.
pub open spec fn is_bytes_at(items: Seq<LYServerCborValue>, i: int) -> bool {
    0 <= i < items.len() && items[i] is Bytes
}

/// What an array-form event decodes to: payload, id, type, sender and target,
/// in this order; sender and target always name a plugin. Elements are
/// looked at in order, and the first that is missing or of the wrong kind
/// decides the error; what follows the fifth element is not looked at.
pub open spec fn array_form_event(items: Seq<LYServerCborValue>) -> Result<
    EventModel,
    LYServerEventDecodeError,
> {
    if !is_bytes_at(items, 0) {
        Err(LYServerEventDecodeError::DataNotBytes)
    } else if !is_text_at(items, 1) {
        Err(LYServerEventDecodeError::EventIdNotText)
    } else if !is_text_at(items, 2) {
        Err(LYServerEventDecodeError::EventTypeNotText)
    } else if !is_text_at(items, 3) {
        Err(LYServerEventDecodeError::EventSenderNotText)
    } else if !is_text_at(items, 4) {
        Err(LYServerEventDecodeError::EventTargetNotText)
    } else {
        Ok(
            EventModel {
                event_id: items[1]->Text_0@,
                event_type: items[2]->Text_0@,
                event_target: TargetModel::Plugin(items[4]->Text_0@),
                event_sender: TargetModel::Plugin(items[3]->Text_0@),
                data: items[0]->Bytes_0@,
            },
        )
    }
}

/// The text of the element at a place, if there is an element and it is a
/// text.
fn text_at(items: &Vec<LYServerCborValue>, i: usize) -> (r: Option<String>)
    ensures
        match r {
            Some(s) => is_text_at(items@, i as int) && s@ == items@[i as int]->Text_0@,
            None => !is_text_at(items@, i as int),
        },
{
    if i >= items.len() {
        return None;
    }
    match &items[i] {
        LYServerCborValue::Text(s) => Some(s.clone()),
        _ => None,
    }
}

impl LYServerMessageEvent {
    /// Reads an event from its array form: a CBOR array of payload bytes, id,
    /// type, sender id and target id. A value that is no array, and an array
    /// in which one of the five is missing or of the wrong kind, is an error.
    pub fn try_from(value: LYServerCborValue) -> (r: Result<Self, LYServerEventDecodeError>)
        ensures
            !(value is Array) ==> r == Err::<Self, _>(LYServerEventDecodeError::NotAnArray),
            value is Array ==> match array_form_event(value->Array_0@) {
                Ok(model) => r is Ok && r->Ok_0@ == model,
                Err(e) => r == Err::<Self, _>(e),
            },
    {
        let arr = match value {
            LYServerCborValue::Array(arr) => arr,
            _ => {
                return Err(LYServerEventDecodeError::NotAnArray);
            },
        };
        if arr.len() < 1 {
            return Err(LYServerEventDecodeError::DataNotBytes);
        }
        let data = match &arr[0] {
            LYServerCborValue::Bytes(b) => b.clone(),
            _ => {
                return Err(LYServerEventDecodeError::DataNotBytes);
            },
        };
        let event_id = match text_at(&arr, 1) {
            Some(s) => s,
            None => {
                return Err(LYServerEventDecodeError::EventIdNotText);
            },
        };
        let event_type = match text_at(&arr, 2) {
            Some(s) => s,
            None => {
                return Err(LYServerEventDecodeError::EventTypeNotText);
            },
        };
        let event_sender = match text_at(&arr, 3) {
            Some(s) => s,
            None => {
                return Err(LYServerEventDecodeError::EventSenderNotText);
            },
        };
        let event_target = match text_at(&arr, 4) {
            Some(s) => s,
            None => {
                return Err(LYServerEventDecodeError::EventTargetNotText);
            },
        };
        Ok(
            LYServerMessageEvent {
                event_id,
                event_type,
                event_sender: LYServerMessageEventTarget::Plugin(event_sender),
                event_target: LYServerMessageEventTarget::Plugin(event_target),
                data,
            },
        )
    }
}

} // verus!
