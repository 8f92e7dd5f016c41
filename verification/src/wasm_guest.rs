//! The guest side of the WebAssembly ABI: what a guest makes of the words
//! that the host's messaging imports hand back.

use vstd::prelude::*;
use crate::event::LYServerMessageEvent;

verus! {

/// Why a guest could not take or send a message.
#[derive(Clone, Copy, Debug, PartialEq, Eq, Structural)]
pub enum LYServerGuestError {
    /// The host handed over no window.
    InvalidWindow,
    /// The bytes in the window are no event.
    NotAnEvent,
    /// The host could not send the message.
    SendFailed,
}

impl LYServerGuestError {
    /// The message of the failure.
    pub open spec fn message_text(self) -> Seq<char> {
        match self {
            LYServerGuestError::InvalidWindow => "Invalid pointer or length"@,
            LYServerGuestError::NotAnEvent => "Failed to deserialize event"@,
            LYServerGuestError::SendFailed => "Failed to send message"@,
        }
    }

    /// The message of the failure.
    pub fn message(self) -> (r: &'static str)
        ensures
            r@ == self.message_text(),
    {
        match self {
            LYServerGuestError::InvalidWindow => "Invalid pointer or length",
            LYServerGuestError::NotAnEvent => "Failed to deserialize event",
            LYServerGuestError::SendFailed => "Failed to send message",
        }
    }
}

/// The window that holds a received message, from the two words that the
/// receive import wrote: there is none where either word is zero, and none
/// where a word is negative, since no window begins or ends there.
pub fn recv_raw(ptr: i32, len: i32) -> (r: Option<(usize, usize)>)
    ensures
        r == if ptr <= 0 || len <= 0 {
            None::<(usize, usize)>
        } else {
            Some((ptr as usize, len as usize))
        },
{
    if ptr <= 0 || len <= 0 {
        None
    } else {
        Some((ptr as usize, len as usize))
    }
}

/// The event that a receive gives: the event that the received bytes decode
/// to; nothing where there were no bytes or where they are no event.
pub fn recv(decoded: Option<Option<LYServerMessageEvent>>) -> (r: Option<LYServerMessageEvent>)
    ensures
        r == match decoded {
            Some(Some(event)) => Some(event),
            _ => None::<LYServerMessageEvent>,
        },
{
    match decoded {
        Some(Some(event)) => Some(event),
        _ => None,
    }
}

/// What a send came to, from the code that the send import wrote: the code
/// 0 says that the message was sent, every other code that it was not.
pub fn tx(code: usize) -> (r: Result<(), LYServerGuestError>)
    ensures
        r == if code == 0 {
            Ok::<(), LYServerGuestError>(())
        } else {
            Err::<(), LYServerGuestError>(LYServerGuestError::SendFailed)
        },
{
    if code == 0 {
        Ok(())
    } else {
        Err(LYServerGuestError::SendFailed)
    }
}

/// The event that the host handed to the guest's handler: the window has to
/// be there, which it is where both words are positive, and its bytes have
/// to decode to an event.
pub fn deserialize_event(ptr: i32, len: i32, decoded: Option<LYServerMessageEvent>) -> (r: Result<
    LYServerMessageEvent,
    LYServerGuestError,
>)
    ensures
        r == if ptr <= 0 || len <= 0 {
            Err::<LYServerMessageEvent, LYServerGuestError>(LYServerGuestError::InvalidWindow)
        } else {
            match decoded {
                Some(event) => Ok::<LYServerMessageEvent, LYServerGuestError>(event),
                None => Err::<LYServerMessageEvent, LYServerGuestError>(LYServerGuestError::NotAnEvent),
            }
        },
{
    if ptr <= 0 || len <= 0 {
        return Err(LYServerGuestError::InvalidWindow);
    }
    match decoded {
        Some(event) => Ok(event),
        None => Err(LYServerGuestError::NotAnEvent),
    }
}

} // verus!
