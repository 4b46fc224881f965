//! Input vocabulary delivered to window handlers, and the table that maps
//! the platform's raw key codes onto it.
use vstd::prelude::*;

verus! {

/// Mouse buttons (e.g. left, right, middle, etc.)
#[derive(Clone, Copy, Debug, PartialEq, Eq, Hash, Structural)]
pub enum MouseButton {
    Left,
    Middle,
    Right,
    Other(u16),
}

/// The state of a button or key (e.g. pressed, released, repeated)
#[derive(Clone, Copy, Debug, PartialEq, Eq, Hash, Structural)]
pub enum ButtonState {
    Pressed,
    Released,
    /// The number of 'repeat' cycles a button has been pressed for. The
    /// frequency of these cycles is operating system dependent and may be
    /// changed by the user.
    Repeated(u16),
}

/// The symbolic (read: English) name for a key on the keyboard.
#[derive(Clone, Copy, Debug, PartialEq, Eq, Hash, Structural)]
pub enum VirtualKeyCode {
    Invalid,

    Key0,
    Key1,
    Key2,
    Key3,
    Key4,
    Key5,
    Key6,
    Key7,
    Key8,
    Key9,

    A,
    B,
    C,
    D,
    E,
    F,
    G,
    H,
    I,
    J,
    K,
    L,
    M,
    N,
    O,
    P,
    Q,
    R,
    S,
    T,
    U,
    V,
    W,
    X,
    Y,
    Z,

    Keypad0,
    Keypad1,
    Keypad2,
    Keypad3,
    Keypad4,
    Keypad5,
    Keypad6,
    Keypad7,
    Keypad8,
    Keypad9,

    KeypadAdd,
    KeypadSubtract,
    KeypadMultiply,
    KeypadDivide,
    KeypadDecimal,

    /// For any country/region, the '=+' key.
    Equals,
    /// For any country/region, the ',<' key.
    Comma,
    /// For any country/region, the '-_' key.
    Minus,
    /// For any country/region, the '.>' key.
    Period,

    /// For the US standard keyboard, the ';:' key.
    Semicolon,
    /// For the US standard keyboard, the '/?' key.
    Slash,
    /// For the US standard keyboard, the '`~' key.
    Grave,
    /// For the US standard keyboard, the '[{' key.
    LBracket,
    /// For the US standard keyboard, the '\\|' key.
    Backslash,
    /// For the US standard keyboard, the ']}' key.
    Rbracket,
    /// For the US standard keyboard, the 'single-quote/double-quote' key.
    Apostrophe,

    Tab,
    Space,

    ImeKana,
    ImeKanji,

    ImeConvert,
    ImeNonConvert,
    Insert,
    Delete,

    Backspace,
    Enter,
    LShift,
    RShift,
    LControl,
    RControl,
    LMenu,
    RMenu,
    Pause,
    CapsLock,
    Escape,

    PageUp,
    PageDown,
    End,
    Home,

    Left,
    Right,
    Up,
    Down,

    NumLock,
    ScrollLock,

    F1,
    F2,
    F3,
    F4,
    F5,
    F6,
    F7,
    F8,
    F9,
    F10,
    F11,
    F12,
    F13,
    F14,
    F15,
    F16,
    F17,
    F18,
    F19,
    F20,
    F21,
    F22,
    F23,
    F24,

    LSuper,
    RSuper,

    Select,
    Snapshot,

    MediaNextTrack,
    MediaPrevTrack,
    MediaStop,
    MediaPlayPause,
}

/// One past the largest raw key code that the platform assigns.
pub const RAW_KEY_CODE_COUNT: u32 = 163;

/// The symbolic key for a raw platform key code. Codes without a symbolic
/// name, and codes outside the platform's range, map to `Invalid`.
pub open spec fn key_for(raw: u32) -> VirtualKeyCode {
    match raw {
        0u32 => VirtualKeyCode::Key1,
        1u32 => VirtualKeyCode::Key2,
        2u32 => VirtualKeyCode::Key3,
        3u32 => VirtualKeyCode::Key4,
        4u32 => VirtualKeyCode::Key5,
        5u32 => VirtualKeyCode::Key6,
        6u32 => VirtualKeyCode::Key7,
        7u32 => VirtualKeyCode::Key8,
        8u32 => VirtualKeyCode::Key9,
        9u32 => VirtualKeyCode::Key0,
        10u32 => VirtualKeyCode::A,
        11u32 => VirtualKeyCode::B,
        12u32 => VirtualKeyCode::C,
        13u32 => VirtualKeyCode::D,
        14u32 => VirtualKeyCode::E,
        15u32 => VirtualKeyCode::F,
        16u32 => VirtualKeyCode::G,
        17u32 => VirtualKeyCode::H,
        18u32 => VirtualKeyCode::I,
        19u32 => VirtualKeyCode::J,
        20u32 => VirtualKeyCode::K,
        21u32 => VirtualKeyCode::L,
        22u32 => VirtualKeyCode::M,
        23u32 => VirtualKeyCode::N,
        24u32 => VirtualKeyCode::O,
        25u32 => VirtualKeyCode::P,
        26u32 => VirtualKeyCode::Q,
        27u32 => VirtualKeyCode::R,
        28u32 => VirtualKeyCode::S,
        29u32 => VirtualKeyCode::T,
        30u32 => VirtualKeyCode::U,
        31u32 => VirtualKeyCode::V,
        32u32 => VirtualKeyCode::W,
        33u32 => VirtualKeyCode::X,
        34u32 => VirtualKeyCode::Y,
        35u32 => VirtualKeyCode::Z,
        36u32 => VirtualKeyCode::Escape,
        37u32 => VirtualKeyCode::F1,
        38u32 => VirtualKeyCode::F2,
        39u32 => VirtualKeyCode::F3,
        40u32 => VirtualKeyCode::F4,
        41u32 => VirtualKeyCode::F5,
        42u32 => VirtualKeyCode::F6,
        43u32 => VirtualKeyCode::F7,
        44u32 => VirtualKeyCode::F8,
        45u32 => VirtualKeyCode::F9,
        46u32 => VirtualKeyCode::F10,
        47u32 => VirtualKeyCode::F11,
        48u32 => VirtualKeyCode::F12,
        49u32 => VirtualKeyCode::F13,
        50u32 => VirtualKeyCode::F14,
        51u32 => VirtualKeyCode::F15,
        52u32 => VirtualKeyCode::F16,
        53u32 => VirtualKeyCode::F17,
        54u32 => VirtualKeyCode::F18,
        55u32 => VirtualKeyCode::F19,
        56u32 => VirtualKeyCode::F20,
        57u32 => VirtualKeyCode::F21,
        58u32 => VirtualKeyCode::F22,
        59u32 => VirtualKeyCode::F23,
        60u32 => VirtualKeyCode::F24,
        61u32 => VirtualKeyCode::Snapshot,
        62u32 => VirtualKeyCode::ScrollLock,
        63u32 => VirtualKeyCode::Pause,
        64u32 => VirtualKeyCode::Insert,
        65u32 => VirtualKeyCode::Home,
        66u32 => VirtualKeyCode::Delete,
        67u32 => VirtualKeyCode::End,
        68u32 => VirtualKeyCode::PageDown,
        69u32 => VirtualKeyCode::PageUp,
        70u32 => VirtualKeyCode::Left,
        71u32 => VirtualKeyCode::Up,
        72u32 => VirtualKeyCode::Right,
        73u32 => VirtualKeyCode::Down,
        74u32 => VirtualKeyCode::Backspace,
        75u32 => VirtualKeyCode::Enter,
        76u32 => VirtualKeyCode::Space,
        79u32 => VirtualKeyCode::NumLock,
        80u32 => VirtualKeyCode::Keypad0,
        81u32 => VirtualKeyCode::Keypad1,
        82u32 => VirtualKeyCode::Keypad2,
        83u32 => VirtualKeyCode::Keypad3,
        84u32 => VirtualKeyCode::Keypad4,
        85u32 => VirtualKeyCode::Keypad5,
        86u32 => VirtualKeyCode::Keypad6,
        87u32 => VirtualKeyCode::Keypad7,
        88u32 => VirtualKeyCode::Keypad8,
        89u32 => VirtualKeyCode::Keypad9,
        90u32 => VirtualKeyCode::KeypadAdd,
        91u32 => VirtualKeyCode::KeypadDivide,
        92u32 => VirtualKeyCode::KeypadDecimal,
        96u32 => VirtualKeyCode::KeypadMultiply,
        97u32 => VirtualKeyCode::KeypadSubtract,
        100u32 => VirtualKeyCode::Apostrophe,
        105u32 => VirtualKeyCode::Backslash,
        107u32 => VirtualKeyCode::CapsLock,
        109u32 => VirtualKeyCode::Comma,
        110u32 => VirtualKeyCode::ImeConvert,
        111u32 => VirtualKeyCode::Equals,
        112u32 => VirtualKeyCode::Grave,
        113u32 => VirtualKeyCode::ImeKana,
        114u32 => VirtualKeyCode::ImeKanji,
        115u32 => VirtualKeyCode::LMenu,
        116u32 => VirtualKeyCode::LBracket,
        117u32 => VirtualKeyCode::LControl,
        118u32 => VirtualKeyCode::LShift,
        119u32 => VirtualKeyCode::LSuper,
        121u32 => VirtualKeyCode::Select,
        122u32 => VirtualKeyCode::MediaStop,
        123u32 => VirtualKeyCode::Minus,
        128u32 => VirtualKeyCode::MediaNextTrack,
        129u32 => VirtualKeyCode::ImeNonConvert,
        131u32 => VirtualKeyCode::Period,
        132u32 => VirtualKeyCode::MediaPlayPause,
        135u32 => VirtualKeyCode::MediaPrevTrack,
        136u32 => VirtualKeyCode::RMenu,
        137u32 => VirtualKeyCode::Rbracket,
        138u32 => VirtualKeyCode::RControl,
        139u32 => VirtualKeyCode::RShift,
        140u32 => VirtualKeyCode::RSuper,
        141u32 => VirtualKeyCode::Semicolon,
        142u32 => VirtualKeyCode::Slash,
        146u32 => VirtualKeyCode::Tab,
        _ => VirtualKeyCode::Invalid,
    }
}

/// Translates a raw platform key code (the position of the key in the
/// platform's own key enumeration) into a symbolic key.
pub fn translate_key(raw: u32) -> (k: VirtualKeyCode)
    ensures
        k == key_for(raw),
        raw >= RAW_KEY_CODE_COUNT ==> k == VirtualKeyCode::Invalid,
{
    match raw {
        0u32 => VirtualKeyCode::Key1,
        1u32 => VirtualKeyCode::Key2,
        2u32 => VirtualKeyCode::Key3,
        3u32 => VirtualKeyCode::Key4,
        4u32 => VirtualKeyCode::Key5,
        5u32 => VirtualKeyCode::Key6,
        6u32 => VirtualKeyCode::Key7,
        7u32 => VirtualKeyCode::Key8,
        8u32 => VirtualKeyCode::Key9,
        9u32 => VirtualKeyCode::Key0,
        10u32 => VirtualKeyCode::A,
        11u32 => VirtualKeyCode::B,
        12u32 => VirtualKeyCode::C,
        13u32 => VirtualKeyCode::D,
        14u32 => VirtualKeyCode::E,
        15u32 => VirtualKeyCode::F,
        16u32 => VirtualKeyCode::G,
        17u32 => VirtualKeyCode::H,
        18u32 => VirtualKeyCode::I,
        19u32 => VirtualKeyCode::J,
        20u32 => VirtualKeyCode::K,
        21u32 => VirtualKeyCode::L,
        22u32 => VirtualKeyCode::M,
        23u32 => VirtualKeyCode::N,
        24u32 => VirtualKeyCode::O,
        25u32 => VirtualKeyCode::P,
        26u32 => VirtualKeyCode::Q,
        27u32 => VirtualKeyCode::R,
        28u32 => VirtualKeyCode::S,
        29u32 => VirtualKeyCode::T,
        30u32 => VirtualKeyCode::U,
        31u32 => VirtualKeyCode::V,
        32u32 => VirtualKeyCode::W,
        33u32 => VirtualKeyCode::X,
        34u32 => VirtualKeyCode::Y,
        35u32 => VirtualKeyCode::Z,
        36u32 => VirtualKeyCode::Escape,
        37u32 => VirtualKeyCode::F1,
        38u32 => VirtualKeyCode::F2,
        39u32 => VirtualKeyCode::F3,
        40u32 => VirtualKeyCode::F4,
        41u32 => VirtualKeyCode::F5,
        42u32 => VirtualKeyCode::F6,
        43u32 => VirtualKeyCode::F7,
        44u32 => VirtualKeyCode::F8,
        45u32 => VirtualKeyCode::F9,
        46u32 => VirtualKeyCode::F10,
        47u32 => VirtualKeyCode::F11,
        48u32 => VirtualKeyCode::F12,
        49u32 => VirtualKeyCode::F13,
        50u32 => VirtualKeyCode::F14,
        51u32 => VirtualKeyCode::F15,
        52u32 => VirtualKeyCode::F16,
        53u32 => VirtualKeyCode::F17,
        54u32 => VirtualKeyCode::F18,
        55u32 => VirtualKeyCode::F19,
        56u32 => VirtualKeyCode::F20,
        57u32 => VirtualKeyCode::F21,
        58u32 => VirtualKeyCode::F22,
        59u32 => VirtualKeyCode::F23,
        60u32 => VirtualKeyCode::F24,
        61u32 => VirtualKeyCode::Snapshot,
        62u32 => VirtualKeyCode::ScrollLock,
        63u32 => VirtualKeyCode::Pause,
        64u32 => VirtualKeyCode::Insert,
        65u32 => VirtualKeyCode::Home,
        66u32 => VirtualKeyCode::Delete,
        67u32 => VirtualKeyCode::End,
        68u32 => VirtualKeyCode::PageDown,
        69u32 => VirtualKeyCode::PageUp,
        70u32 => VirtualKeyCode::Left,
        71u32 => VirtualKeyCode::Up,
        72u32 => VirtualKeyCode::Right,
        73u32 => VirtualKeyCode::Down,
        74u32 => VirtualKeyCode::Backspace,
        75u32 => VirtualKeyCode::Enter,
        76u32 => VirtualKeyCode::Space,
        79u32 => VirtualKeyCode::NumLock,
        80u32 => VirtualKeyCode::Keypad0,
        81u32 => VirtualKeyCode::Keypad1,
        82u32 => VirtualKeyCode::Keypad2,
        83u32 => VirtualKeyCode::Keypad3,
        84u32 => VirtualKeyCode::Keypad4,
        85u32 => VirtualKeyCode::Keypad5,
        86u32 => VirtualKeyCode::Keypad6,
        87u32 => VirtualKeyCode::Keypad7,
        88u32 => VirtualKeyCode::Keypad8,
        89u32 => VirtualKeyCode::Keypad9,
        90u32 => VirtualKeyCode::KeypadAdd,
        91u32 => VirtualKeyCode::KeypadDivide,
        92u32 => VirtualKeyCode::KeypadDecimal,
        96u32 => VirtualKeyCode::KeypadMultiply,
        97u32 => VirtualKeyCode::KeypadSubtract,
        100u32 => VirtualKeyCode::Apostrophe,
        105u32 => VirtualKeyCode::Backslash,
        107u32 => VirtualKeyCode::CapsLock,
        109u32 => VirtualKeyCode::Comma,
        110u32 => VirtualKeyCode::ImeConvert,
        111u32 => VirtualKeyCode::Equals,
        112u32 => VirtualKeyCode::Grave,
        113u32 => VirtualKeyCode::ImeKana,
        114u32 => VirtualKeyCode::ImeKanji,
        115u32 => VirtualKeyCode::LMenu,
        116u32 => VirtualKeyCode::LBracket,
        117u32 => VirtualKeyCode::LControl,
        118u32 => VirtualKeyCode::LShift,
        119u32 => VirtualKeyCode::LSuper,
        121u32 => VirtualKeyCode::Select,
        122u32 => VirtualKeyCode::MediaStop,
        123u32 => VirtualKeyCode::Minus,
        128u32 => VirtualKeyCode::MediaNextTrack,
        129u32 => VirtualKeyCode::ImeNonConvert,
        131u32 => VirtualKeyCode::Period,
        132u32 => VirtualKeyCode::MediaPlayPause,
        135u32 => VirtualKeyCode::MediaPrevTrack,
        136u32 => VirtualKeyCode::RMenu,
        137u32 => VirtualKeyCode::Rbracket,
        138u32 => VirtualKeyCode::RControl,
        139u32 => VirtualKeyCode::RShift,
        140u32 => VirtualKeyCode::RSuper,
        141u32 => VirtualKeyCode::Semicolon,
        142u32 => VirtualKeyCode::Slash,
        146u32 => VirtualKeyCode::Tab,
        _ => VirtualKeyCode::Invalid,
    }
}

} // verus!
