//! The message window: an invisible child of the main window that takes the
//! keyboard focus in its place.
//!
//! The platform registers classes, creates windows and runs the queue. This
//! module holds what is decided around those calls: what is registered and
//! created, when the message loop ends, which window a focus request names,
//! and in what order the window is taken down.

use vstd::prelude::*;
use vstd::string::*;

verus! {

/// Class style: every window of the class has a device context of its own.
pub const CS_OWNDC: u32 = 0x0020;

/// Window style: the window is a child of its parent.
pub const WS_CHILD: u32 = 0x4000_0000;

/// Extended window style: the window does not become the active window.
pub const WS_EX_NOACTIVATE: u32 = 0x0800_0000;

/// What the names of all message window classes begin with.
pub const CLASS_NAME_PREFIX: &'static str = "plugin-canvas-message-window-";

/// The name of every message window.
pub const WINDOW_NAME: &'static str = "Message window";

/// The window class to register for one message window. The window procedure
/// is the caller's to fill in, and everything not named here stays empty.
pub struct WindowClassAttributes {
    pub style: u32,
    pub menu_name: String,
    pub class_name: String,
}

/// The window to create once its class is registered.
pub struct WindowAttributes {
    pub ex_style: u32,
    pub window_class: u16,
    pub window_name: String,
    pub style: u32,
    pub x: i32,
    pub y: i32,
    pub width: i32,
    pub height: i32,
    pub parent: usize,
}

/// What a message window consists of.
pub ghost struct MessageWindowState {
    /// The message window itself, which this component owns.
    pub message_window_handle: usize,
    /// The window that the messages are forwarded to. It belongs to somebody
    /// else and is never destroyed here.
    pub main_window_handle: usize,
    /// The registered class of the message window, which this component owns.
    pub window_class_token: u16,
}

/// A message window between its creation and its destruction.
pub struct MessageWindow {
    hwnd: usize,
    main_window_hwnd: usize,
    window_class: u16,
}

/// How to ask the platform for the next message.
#[derive(Clone, Copy, Debug, PartialEq, Eq, Structural)]
pub struct Retrieval {
    /// The only window whose messages are wanted.
    pub hwnd: usize,
    /// The lowest message kind wanted.
    pub filter_min: u32,
    /// The highest message kind wanted; zero for both bounds means all kinds.
    pub filter_max: u32,
}

/// What the message loop does after one retrieval.
#[derive(Clone, Copy, Debug, PartialEq, Eq, Structural)]
pub enum Step {
    /// Translate and dispatch the retrieved message, then retrieve again.
    Dispatch,
    /// Leave the loop.
    Quit,
}

/// One step in taking a message window down.
#[derive(Clone, Copy, Debug, PartialEq, Eq, Structural)]
pub enum Teardown {
    DestroyWindow { hwnd: usize },
    UnregisterClass { window_class: u16 },
}

/// The name of the window class for the unique string `guid`: the common
/// prefix, then the string.
pub open spec fn class_name_of(guid: Seq<char>) -> Seq<char> {
    CLASS_NAME_PREFIX@ + guid
}

impl MessageWindowState {
    /// The window that a focus request names: the message window where
    /// `focus` is set, the main window where it is not.
    pub open spec fn focus_target(self, focus: bool) -> usize {
        if focus {
            self.message_window_handle
        } else {
            self.main_window_handle
        }
    }

    /// The window that holds the focus once the platform has served the focus
    /// requests `requests` in their order, or `None` where there was none:
    /// until the first request the focus is wherever the platform left it.
    pub open spec fn focus_after(self, requests: Seq<bool>) -> Option<usize> {
        if requests.len() == 0 {
            None
        } else {
            Some(self.focus_target(requests.last()))
        }
    }

    /// The steps that take the window down, in their order.
    pub open spec fn teardown(self) -> Seq<Teardown> {
        seq![
            Teardown::DestroyWindow { hwnd: self.message_window_handle },
            Teardown::UnregisterClass { window_class: self.window_class_token },
        ]
    }
}

impl View for MessageWindow {
    type V = MessageWindowState;

    closed spec fn view(&self) -> MessageWindowState {
        MessageWindowState {
            message_window_handle: self.hwnd,
            main_window_handle: self.main_window_hwnd,
            window_class_token: self.window_class,
        }
    }
}

impl MessageWindow {
    /// A window holds the token of a class that was registered, and zero is
    /// the token of none.
    #[verifier::type_invariant]
    spec fn registered(self) -> bool {
        self.window_class != 0
    }

    /// The name of the window class for the unique string `guid`.
    pub fn class_name(guid: &str) -> (name: String)
        ensures
            name@ == class_name_of(guid@),
    {
        let mut name = String::from_str(CLASS_NAME_PREFIX);
        name.append(guid);
        name
    }

    /// The window class to register for a new message window, named after the
    /// unique string `guid`.
    pub fn window_class_attributes(guid: &str) -> (attributes: WindowClassAttributes)
        ensures
            attributes.style == CS_OWNDC,
            attributes.menu_name@ == WINDOW_NAME@,
            attributes.class_name@ == class_name_of(guid@),
    {
        WindowClassAttributes {
            style: CS_OWNDC,
            menu_name: String::from_str(WINDOW_NAME),
            class_name: Self::class_name(guid),
        }
    }

    /// The window to create for the main window `main_window_hwnd` once the
    /// platform has registered the class as `window_class`: a child of the
    /// main window that is not activated and has no extent.
    pub fn window_attributes(main_window_hwnd: usize, window_class: u16) -> (attributes:
        WindowAttributes)
        requires
            window_class != 0,
        ensures
            attributes.ex_style == WS_EX_NOACTIVATE,
            attributes.window_class == window_class,
            attributes.window_name@ == WINDOW_NAME@,
            attributes.style == WS_CHILD,
            attributes.x == 0,
            attributes.y == 0,
            attributes.width == 0,
            attributes.height == 0,
            attributes.parent == main_window_hwnd,
    {
        WindowAttributes {
            ex_style: WS_EX_NOACTIVATE,
            window_class,
            window_name: String::from_str(WINDOW_NAME),
            style: WS_CHILD,
            x: 0,
            y: 0,
            width: 0,
            height: 0,
            parent: main_window_hwnd,
        }
    }

    /// The message window `hwnd` of class `window_class` that the platform
    /// created for the main window `main_window_hwnd`.
    pub fn new(main_window_hwnd: usize, window_class: u16, hwnd: usize) -> (window: Self)
        requires
            window_class != 0,
        ensures
            window@ == (MessageWindowState {
                message_window_handle: hwnd,
                main_window_handle: main_window_hwnd,
                window_class_token: window_class,
            }),
    {
        MessageWindow { hwnd, main_window_hwnd, window_class }
    }

    /// The handle of the message window.
    pub fn hwnd(&self) -> (hwnd: usize)
        ensures
            hwnd == self@.message_window_handle,
    {
        self.hwnd
    }

    /// The handle of the main window. This is the value to store with the
    /// message window, where the window procedure finds it again.
    pub fn main_window_hwnd(&self) -> (hwnd: usize)
        ensures
            hwnd == self@.main_window_handle,
    {
        self.main_window_hwnd
    }

    /// The token of the window's class, which is that of a registered class.
    pub fn window_class(&self) -> (window_class: u16)
        ensures
            window_class == self@.window_class_token,
            window_class != 0,
    {
        proof {
            use_type_invariant(self);
        }
        self.window_class
    }

    /// How the message loop asks for the next message: for those of the
    /// message window alone, of every kind.
    pub fn retrieval(&self) -> (retrieval: Retrieval)
        ensures
            retrieval == (Retrieval {
                hwnd: self@.message_window_handle,
                filter_min: 0,
                filter_max: 0,
            }),
    {
        Retrieval { hwnd: self.hwnd, filter_min: 0, filter_max: 0 }
    }

    /// One turn of the message loop: what to do when the retrieval returned
    /// `retrieved`. Zero says that the queue was told to quit and ends the
    /// loop; every message is dispatched, whatever its kind. A retrieval that
    /// failed returns -1, and there is no going on from that.
    pub fn run(&self, retrieved: i32) -> (step: Step)
        requires
            retrieved != -1,
        ensures
            step == (if retrieved == 0 {
                Step::Quit
            } else {
                Step::Dispatch
            }),
    {
        if retrieved == 0 {
            Step::Quit
        } else {
            Step::Dispatch
        }
    }

    /// The window to give the focus to: the message window where `focus` is
    /// set, the main window where it is not.
    pub fn set_focus(&self, focus: bool) -> (hwnd: usize)
        ensures
            hwnd == self@.focus_target(focus),
            hwnd == self@.message_window_handle || hwnd == self@.main_window_handle,
    {
        if focus {
            self.hwnd
        } else {
            self.main_window_hwnd
        }
    }

    /// Ends the window's life and gives the steps that take it down: the
    /// window is destroyed first, then its class is unregistered. Both are to
    /// be carried out whether or not the first succeeds.
    pub fn destroy(self) -> (steps: Vec<Teardown>)
        ensures
            steps@ == self@.teardown(),
            steps@.len() == 2,
            steps@[0] == (Teardown::DestroyWindow { hwnd: self@.message_window_handle }),
            steps@[1] == (Teardown::UnregisterClass { window_class: self@.window_class_token }),
            self@.window_class_token != 0,
    {
        proof {
            use_type_invariant(&self);
        }
        let mut steps: Vec<Teardown> = Vec::new();
        steps.push(Teardown::DestroyWindow { hwnd: self.hwnd });
        steps.push(Teardown::UnregisterClass { window_class: self.window_class });
        steps
    }
}

/// Two windows share a class name only if they were given the same unique
/// string: the names are as distinct as the strings are.
pub proof fn lemma_class_names_differ(guid: Seq<char>, other: Seq<char>)
    requires
        guid != other,
    ensures
        class_name_of(guid) != class_name_of(other),
{
    let prefix = CLASS_NAME_PREFIX@;
    assert(class_name_of(guid).subrange(prefix.len() as int, (prefix.len() + guid.len()) as int)
        =~= guid);
    assert(class_name_of(other).subrange(
        prefix.len() as int,
        (prefix.len() + other.len()) as int,
    ) =~= other);
}

/// After a request for the focus and one against it, the main window holds the
/// focus; and so it does after any requests of which the last is against it.
pub proof fn lemma_focus_returns_to_main_window(window: MessageWindowState, earlier: Seq<bool>)
    ensures
        window.focus_after(seq![true, false]) == Some(window.main_window_handle),
        window.focus_after(earlier.push(false)) == Some(window.main_window_handle),
        window.focus_after(earlier.push(true)) == Some(window.message_window_handle),
{
}

/// Once a focus request was served, exactly one of the two windows holds the
/// focus: the message window if the last request was for it, the main window
/// if not.
pub proof fn lemma_focus_on_one_window(window: MessageWindowState, requests: Seq<bool>)
    requires
        requests.len() > 0,
        window.message_window_handle != window.main_window_handle,
    ensures
        window.focus_after(requests) matches Some(hwnd) && {
            &&& (hwnd == window.message_window_handle) != (hwnd == window.main_window_handle)
            &&& hwnd == window.message_window_handle <==> requests.last()
        },
{
}

} // verus!
