use vstd::prelude::*;

verus! {

/// Number of distinct key codes, and so the length of a key table.
pub const NUM_KEYS: usize = 163;

/// Symbolic name of a keyboard key.
///
/// The enumeration is closed: every value has a slot of its own in a key table, found by
/// [`VirtualKeyCode::index`].
#[derive(Clone, Copy, Debug, PartialEq, Eq, Hash, Structural)]
pub enum VirtualKeyCode {
    /// Digit 1 of the row above the letters.
    Key1,
    /// Digit 2 of the row above the letters.
    Key2,
    /// Digit 3 of the row above the letters.
    Key3,
    /// Digit 4 of the row above the letters.
    Key4,
    /// Digit 5 of the row above the letters.
    Key5,
    /// Digit 6 of the row above the letters.
    Key6,
    /// Digit 7 of the row above the letters.
    Key7,
    /// Digit 8 of the row above the letters.
    Key8,
    /// Digit 9 of the row above the letters.
    Key9,
    /// Digit 0 of the row above the letters.
    Key0,
    A,
    B,
    C,
    D,
    E,
    F,
    G,
    H,
    I,
    J,
    K,
    L,
    M,
    N,
    O,
    P,
    Q,
    R,
    S,
    T,
    U,
    V,
    W,
    X,
    Y,
    Z,
    /// Escape.
    Escape,
    F1,
    F2,
    F3,
    F4,
    F5,
    F6,
    F7,
    F8,
    F9,
    F10,
    F11,
    F12,
    F13,
    F14,
    F15,
    F16,
    F17,
    F18,
    F19,
    F20,
    F21,
    F22,
    F23,
    F24,
    /// Print screen.
    Snapshot,
    /// Scroll lock.
    Scroll,
    /// Pause or break.
    Pause,
    Insert,
    Home,
    Delete,
    End,
    PageDown,
    PageUp,
    Left,
    Up,
    Right,
    Down,
    /// Backspace.
    Back,
    /// Enter.
    Return,
    Space,
    Compose,
    Caret,
    Numlock,
    Numpad0,
    Numpad1,
    Numpad2,
    Numpad3,
    Numpad4,
    Numpad5,
    Numpad6,
    Numpad7,
    Numpad8,
    Numpad9,
    NumpadAdd,
    NumpadDivide,
    NumpadDecimal,
    NumpadComma,
    NumpadEnter,
    NumpadEquals,
    NumpadMultiply,
    NumpadSubtract,
    AbntC1,
    AbntC2,
    Apostrophe,
    Apps,
    Asterisk,
    At,
    Ax,
    Backslash,
    Calculator,
    Capital,
    Colon,
    Comma,
    Convert,
    Equals,
    Grave,
    Kana,
    Kanji,
    LAlt,
    LBracket,
    LControl,
    LShift,
    LWin,
    Mail,
    MediaSelect,
    MediaStop,
    Minus,
    Mute,
    MyComputer,
    NavigateForward,
    NavigateBackward,
    NextTrack,
    NoConvert,
    OEM102,
    Period,
    PlayPause,
    Plus,
    Power,
    PrevTrack,
    RAlt,
    RBracket,
    RControl,
    RShift,
    RWin,
    Semicolon,
    Slash,
    Sleep,
    Stop,
    Sysrq,
    Tab,
    Underline,
    Unlabeled,
    VolumeDown,
    VolumeUp,
    Wake,
    WebBack,
    WebFavorites,
    WebForward,
    WebHome,
    WebRefresh,
    WebSearch,
    WebStop,
    Yen,
    Copy,
    Paste,
    Cut,
}

impl VirtualKeyCode {
    /// Position of the key code in the enumeration, counted from zero.
    pub open spec fn ordinal(self) -> int {
        self as int
    }

    /// Slot of this key code in a key table.
    pub fn index(self) -> (i: usize)
        ensures
            i == self.ordinal(),
            i < NUM_KEYS,
    {
        self as usize
    }

    /// Two key codes that share a slot are the same key code.
    pub proof fn lemma_ordinal_injective(a: VirtualKeyCode, b: VirtualKeyCode)
        requires
            a.ordinal() == b.ordinal(),
        ensures
            a == b,
    {
    }

    /// Every key code has a slot below [`NUM_KEYS`].
    pub proof fn lemma_ordinal_bounds(self)
        ensures
            0 <= self.ordinal() < NUM_KEYS,
    {
    }
}

} // verus!
