//! The portable event vocabulary delivered to the application callback.
use vstd::prelude::*;

verus! {

/// Layout-independent hardware key identity.
#[derive(Debug, Clone, Copy, PartialEq, Eq, Structural)]
pub enum KeyCode {
    Tab,
    LeftArrow,
    RightArrow,
    UpArrow,
    DownArrow,
    PageUp,
    PageDown,
    Home,
    End,
    Insert,
    Delete,
    Backspace,
    Space,
    Enter,
    Escape,
    LCtrl,
    LShift,
    LAlt,
    LSuper,
    RCtrl,
    RShift,
    RAlt,
    RSuper,
    Menu,
    Key1,
    Key2,
    Key3,
    Key4,
    Key5,
    Key6,
    Key7,
    Key8,
    Key9,
    Key0,
    Numpad1,
    Numpad2,
    Numpad3,
    Numpad4,
    Numpad5,
    Numpad6,
    Numpad7,
    Numpad8,
    Numpad9,
    Numpad0,
    NumpadDecimal,
    NumpadDivide,
    NumpadMultiply,
    NumpadSubtract,
    NumpadAdd,
    NumpadEnter,
    A,
    B,
    C,
    D,
    E,
    F,
    G,
    H,
    I,
    J,
    K,
    L,
    M,
    N,
    O,
    P,
    Q,
    R,
    S,
    T,
    U,
    V,
    W,
    X,
    Y,
    Z,
    F1,
    F2,
    F3,
    F4,
    F5,
    F6,
    F7,
    F8,
    F9,
    F10,
    F11,
    F12,
    Quote,
    Comma,
    Minus,
    Period,
    Slash,
    Backslash,
    Semicolon,
    Equal,
    LBracket,
    RBracket,
    Grave,
    CapsLock,
    ScrollLock,
    NumLock,
    PrintScreen,
    Pause,
}

/// A hardware key: either a known key code or the raw OS scancode.
#[derive(Debug, Clone, Copy, PartialEq, Eq, Structural)]
pub enum PhysicalKey {
    KeyCode(KeyCode),
    /// OS scancode
    Unknown(u32),
}

/// Layout/modifier-resolved symbolic key meaning.
#[derive(Debug, Clone, Copy, PartialEq, Eq, Structural)]
pub enum Key {
    Tab,
    Enter,
    Space,
    Period,
    Shift,
    LShift,
    RShift,
    Ctrl,
    LCtrl,
    RCtrl,
    Super,
    LSuper,
    RSuper,
    Alt,
    LAlt,
    RAlt,
    CapsLock,
    NumLock,
    ScrollLock,
    PrintScreen,
    Backspace,
    Escape,
    Pause,
    Menu,
    PageUp,
    PageDown,
    End,
    Home,
    Delete,
    Insert,
    LeftArrow,
    RightArrow,
    UpArrow,
    DownArrow,
    Plus,
    Minus,
    Asterisk,
    Slash,
    NumpadAdd,
    NumpadSubtract,
    NumpadMultiply,
    NumpadDivide,
    NumpadDecimal,
    NumpadLeftArrow,
    NumpadRightArrow,
    NumpadUpArrow,
    NumpadDownArrow,
    NumpadPageUp,
    NumpadPageDown,
    NumpadEnd,
    NumpadHome,
    NumpadDelete,
    NumpadInsert,
    NumpadBegin,
    NumpadEnter,
    Key1,
    Key2,
    Key3,
    Key4,
    Key5,
    Key6,
    Key7,
    Key8,
    Key9,
    Key0,
    Numpad1,
    Numpad2,
    Numpad3,
    Numpad4,
    Numpad5,
    Numpad6,
    Numpad7,
    Numpad8,
    Numpad9,
    Numpad0,
    F1,
    F2,
    F3,
    F4,
    F5,
    F6,
    F7,
    F8,
    F9,
    F10,
    F11,
    F12,
}

/// What a key press means under the active layout: a named key, the text it
/// produces, or the raw OS symbol when neither is known.
#[derive(Debug, Clone)]
pub enum LogicalKey {
    Key(Key),
    Character(String),
    /// OS symbol
    Unknown(u32),
}

/// Portable pointer button identity.
#[derive(Debug, Clone, Copy, PartialEq, Eq, Structural)]
pub enum PointerButton {
    Left,
    Right,
    Middle,
    Forward,
    Back,
    Unknown(u32),
}

/// Scroll axis of a pointer scroll event.
#[derive(Debug, Clone, Copy, PartialEq, Eq, Structural)]
pub enum ScrollDirection {
    Vertical,
    Horizontal,
}

impl ScrollDirection {
    pub fn is_vertical(&self) -> (r: bool)
        ensures
            r == (*self is Vertical),
    {
        matches!(self, ScrollDirection::Vertical)
    }

    pub fn is_horizontal(&self) -> (r: bool)
        ensures
            r == (*self is Horizontal),
    {
        matches!(self, ScrollDirection::Horizontal)
    }
}

/// One normalized window-addressed event.
///
/// Pointer coordinates and scroll values are carried as fixed-point numbers
/// in 1/256ths of a logical pixel, the precision of the wire protocol.
/// Positive scroll values mean the content moves down or right.
#[derive(Debug, Clone)]
pub enum Event {
    Paint,
    Close,
    Resized,
    NewScaleFactor,
    Focus(bool),
    Key {
        down: bool,
        physical_key: PhysicalKey,
        logical_key: LogicalKey,
        text: String,
        text_raw: String,
        logical_key_unmodified: LogicalKey,
    },
    PointerEntered,
    PointerLeft,
    /// In 1/256ths of a logical pixel.
    PointerMoved(i64, i64),
    PointerButton {
        down: bool,
        button: PointerButton,
    },
    Scroll {
        direction: ScrollDirection,
        value: i64,
    },
}

impl Event {
    /// An equal copy. Unlike `clone`, its contract says the copy equals
    /// the original, which proofs about re-emitted events rely on.
    pub fn duplicate(&self) -> (r: Event)
        ensures
            r == *self,
    {
        match self {
            Event::Paint => Event::Paint,
            Event::Close => Event::Close,
            Event::Resized => Event::Resized,
            Event::NewScaleFactor => Event::NewScaleFactor,
            Event::Focus(b) => Event::Focus(*b),
            Event::Key { down, physical_key, logical_key, text, text_raw, logical_key_unmodified } => Event::Key {
                down: *down,
                physical_key: *physical_key,
                logical_key: logical_key.duplicate(),
                text: text.clone(),
                text_raw: text_raw.clone(),
                logical_key_unmodified: logical_key_unmodified.duplicate(),
            },
            Event::PointerEntered => Event::PointerEntered,
            Event::PointerLeft => Event::PointerLeft,
            Event::PointerMoved(x, y) => Event::PointerMoved(*x, *y),
            Event::PointerButton { down, button } => Event::PointerButton {
                down: *down,
                button: *button,
            },
            Event::Scroll { direction, value } => Event::Scroll {
                direction: *direction,
                value: *value,
            },
        }
    }
}

/// An event together with the window it is addressed to.
#[derive(Debug, Clone)]
pub struct WindowEvent {
    pub kind: Event,
    pub window_id: usize,
}

/// A queue entry addressing `event` to the window `window_id`.
pub open spec fn wevent(event: Event, window_id: usize) -> WaywinEvent {
    WaywinEvent::WindowEvent { event, window_id }
}

/// Whether the event announces a configuration change or an owed
/// repaint — the events only the per-iteration sweep may produce.
pub open spec fn announces_configuration(e: WaywinEvent) -> bool {
    e matches WaywinEvent::WindowEvent { event, .. } && (event is Paint || event is Resized
        || event is NewScaleFactor)
}

/// A device-level event, not addressed to any window.
///
/// Deltas are fixed-point numbers in 1/256ths of a logical pixel.
#[derive(Debug, Clone)]
pub enum DeviceEvent {
    PointerMoved {
        delta_x: i64,
        delta_y: i64,
        delta_x_unaccel: i64,
        delta_y_unaccel: i64,
    },
}

/// Everything the event loop can deliver in one iteration.
#[derive(Debug, Clone)]
pub enum WaywinEvent {
    WindowEvent { event: Event, window_id: usize },
    DeviceEvent(DeviceEvent),
}

impl WaywinEvent {
    /// An equal copy. Unlike `clone`, its contract says the copy equals
    /// the original.
    pub fn duplicate(&self) -> (r: WaywinEvent)
        ensures
            r == *self,
    {
        match self {
            WaywinEvent::WindowEvent { event, window_id } => WaywinEvent::WindowEvent {
                event: event.duplicate(),
                window_id: *window_id,
            },
            WaywinEvent::DeviceEvent(DeviceEvent::PointerMoved {
                delta_x,
                delta_y,
                delta_x_unaccel,
                delta_y_unaccel,
            }) => WaywinEvent::DeviceEvent(DeviceEvent::PointerMoved {
                delta_x: *delta_x,
                delta_y: *delta_y,
                delta_x_unaccel: *delta_x_unaccel,
                delta_y_unaccel: *delta_y_unaccel,
            }),
        }
    }
}

impl LogicalKey {
    /// An equal copy. Unlike `clone`, its contract says the copy equals
    /// the original, which proofs about re-emitted events rely on.
    pub fn duplicate(&self) -> (r: LogicalKey)
        ensures
            r == *self,
    {
        match self {
            LogicalKey::Key(k) => LogicalKey::Key(*k),
            LogicalKey::Character(s) => LogicalKey::Character(s.clone()),
            LogicalKey::Unknown(u) => LogicalKey::Unknown(*u),
        }
    }

    /// Borrowing view of the logical key, with the character text as `&str`.
    pub fn as_ref<'a>(&'a self) -> (r: LogicalKeyRef<'a>)
        ensures
            match *self {
                LogicalKey::Key(k) => r == LogicalKeyRef::Key(k),
                LogicalKey::Character(ref s) => r is Character && r->Character_0@ == s@,
                LogicalKey::Unknown(u) => r == LogicalKeyRef::Unknown(u),
            },
    {
        match self {
            LogicalKey::Key(key) => LogicalKeyRef::Key(*key),
            LogicalKey::Character(s) => LogicalKeyRef::Character(s.as_str()),
            LogicalKey::Unknown(unk) => LogicalKeyRef::Unknown(*unk),
        }
    }
}

/// A `LogicalKey` that borrows its character text.
#[derive(Debug, Clone, Copy)]
pub enum LogicalKeyRef<'a> {
    Key(Key),
    Character(&'a str),
    Unknown(u32),
}

} // verus!
