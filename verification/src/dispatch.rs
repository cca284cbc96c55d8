//! Routing of the messages that reach the message window.
//!
//! The window procedure keeps no state. All it knows beyond the message is the
//! handle of the main window, which was stored with the message window when it
//! was created and is read back on every call. From the two it decides what
//! the platform is to do with the message; the caller carries that out.

use vstd::prelude::*;
use crate::key::{translate, virtual_key, virtual_key_to_char};

verus! {

/// A key was pressed.
pub const WM_KEYDOWN: u32 = 0x0100;

/// A key was released.
pub const WM_KEYUP: u32 = 0x0101;

/// A key press was translated into a character.
pub const WM_CHAR: u32 = 0x0102;

/// The reply to the platform for a message that was not handled.
pub const NOT_HANDLED: isize = 0;

/// What is to be done with one message.
#[derive(Clone, Copy, Debug, PartialEq, Eq, Structural)]
pub enum Routing {
    /// Post one message to the queue of window `hwnd` without waiting for it
    /// to be processed, and reply with what posting returned.
    Post { hwnd: usize, msg: u32, wparam: usize, lparam: isize },
    /// Post nothing and reply `NOT_HANDLED`.
    Unhandled,
    /// Hand the message as it is to the default window procedure, and reply
    /// with its result.
    Default,
}

/// The routing of the message `(msg, wparam, lparam)` when `main_window_hwnd`
/// is the main window.
///
/// A character goes on as a key press with both payloads unchanged. A key
/// press or release goes on under its own kind with the translated key as its
/// only payload, or is dropped where the key has no translation. Everything
/// else is left to the default window procedure.
pub open spec fn route(main_window_hwnd: usize, msg: u32, wparam: usize, lparam: isize) -> Routing {
    if msg == WM_CHAR {
        Routing::Post { hwnd: main_window_hwnd, msg: WM_KEYDOWN, wparam, lparam }
    } else if msg == WM_KEYDOWN || msg == WM_KEYUP {
        match translate(virtual_key(wparam)) {
            Some(character) => Routing::Post {
                hwnd: main_window_hwnd,
                msg,
                wparam: character,
                lparam: 0,
            },
            None => Routing::Unhandled,
        }
    } else {
        Routing::Default
    }
}

impl Routing {
    /// The reply that the platform gets for the message, where `returned` is
    /// what the platform returned for the request that the routing made of
    /// it. A routing that asks for nothing reads no `returned`.
    pub open spec fn reply_of(self, returned: isize) -> isize {
        match self {
            Routing::Unhandled => NOT_HANDLED,
            _ => returned,
        }
    }

    /// Gives the reply to the platform once the routing was carried out and
    /// the platform returned `returned` for it.
    pub fn reply(&self, returned: isize) -> (reply: isize)
        ensures
            reply == self.reply_of(returned),
            *self == Routing::Unhandled ==> reply == 0,
    {
        match self {
            Routing::Unhandled => NOT_HANDLED,
            _ => returned,
        }
    }
}

/// Decides the routing of the message `(msg, wparam, lparam)` that reached a
/// message window whose stored main window is `main_window_hwnd`.
pub fn wnd_proc(main_window_hwnd: usize, msg: u32, wparam: usize, lparam: isize) -> (routing:
    Routing)
    ensures
        routing == route(main_window_hwnd, msg, wparam, lparam),
        msg == WM_CHAR ==> routing == (Routing::Post {
            hwnd: main_window_hwnd,
            msg: WM_KEYDOWN,
            wparam,
            lparam,
        }),
        (msg == WM_KEYDOWN || msg == WM_KEYUP) && translate(virtual_key(wparam)) is None ==> {
            &&& routing == Routing::Unhandled
            &&& forall|returned: isize| #[trigger] routing.reply_of(returned) == NOT_HANDLED
        },
{
    if msg == WM_CHAR {
        Routing::Post { hwnd: main_window_hwnd, msg: WM_KEYDOWN, wparam, lparam }
    } else if msg == WM_KEYDOWN || msg == WM_KEYUP {
        match virtual_key_to_char(wparam) {
            Some(character) => Routing::Post {
                hwnd: main_window_hwnd,
                msg,
                wparam: character,
                lparam: 0,
            },
            None => Routing::Unhandled,
        }
    } else {
        Routing::Default
    }
}

} // verus!
