//! Keyboard and mouse input mapping.
//!
//! Key state is a fixed table of booleans indexed by the closed
//! [`Key`] enumeration (letters, digits, arrows, modifiers, function
//! keys, mouse buttons). Scancodes and the windowing system's named
//! virtual key codes are translated into [`Key`]s by pure table
//! functions; a named code that produces a shifted character maps to
//! the two-key chord that types it.

use vstd::prelude::*;

verus! {

/// How many slots the key state table holds.
pub const KEYS_NUM: usize = 87;

/// A key or mouse button. Corresponds to a table index (0 to 83).
#[derive(Clone, Copy, Debug, PartialEq, Eq, Structural, PartialOrd, Ord, Hash)]
pub enum Key {
    /// The A key.
    A,
    /// The B key.
    B,
    /// The C key.
    C,
    /// The D key.
    D,
    /// The E key.
    E,
    /// The F key.
    F,
    /// The G key.
    G,
    /// The H key.
    H,
    /// The I key.
    I,
    /// The J key.
    J,
    /// The K key.
    K,
    /// The L key.
    L,
    /// The M key.
    M,
    /// The N key.
    N,
    /// The O key.
    O,
    /// The P key.
    P,
    /// The Q key.
    Q,
    /// The R key.
    R,
    /// The S key.
    S,
    /// The T key.
    T,
    /// The U key.
    U,
    /// The V key.
    V,
    /// The W key.
    W,
    /// The X key.
    X,
    /// The Y key.
    Y,
    /// The Z key.
    Z,
    /// The Zero key.
    Zero,
    /// The One key.
    One,
    /// The Two key.
    Two,
    /// The Three key.
    Three,
    /// The Four key.
    Four,
    /// The Five key.
    Five,
    /// The Six key.
    Six,
    /// The Seven key.
    Seven,
    /// The Eight key.
    Eight,
    /// The Nine key.
    Nine,
    /// The Up key.
    Up,
    /// The Left key.
    Left,
    /// The Down key.
    Down,
    /// The Right key.
    Right,
    /// The Tab key.
    Tab,
    /// The Shift key.
    Shift,
    /// The RShift key.
    RShift,
    /// The Caps key.
    Caps,
    /// The Space key.
    Space,
    /// The Esc key.
    Esc,
    /// The Ctrl key.
    Ctrl,
    /// The RCtrl key.
    RCtrl,
    /// The Alt key.
    Alt,
    /// The RAlt key.
    RAlt,
    /// The Super key.
    Super,
    /// The RSuper key.
    RSuper,
    /// The Backspace key.
    Backspace,
    /// The Enter key.
    Enter,
    /// The Backtick key.
    Backtick,
    /// The Minus key.
    Minus,
    /// The Equals key.
    Equals,
    /// The Backslash key.
    Backslash,
    /// The LBracket key.
    LBracket,
    /// The RBracket key.
    RBracket,
    /// The Semicolon key.
    Semicolon,
    /// The Apostrophe key.
    Apostrophe,
    /// The Comma key.
    Comma,
    /// The Period key.
    Period,
    /// The Slash key.
    Slash,
    /// The F1 key.
    F1,
    /// The F2 key.
    F2,
    /// The F3 key.
    F3,
    /// The F4 key.
    F4,
    /// The F5 key.
    F5,
    /// The F6 key.
    F6,
    /// The F7 key.
    F7,
    /// The F8 key.
    F8,
    /// The F9 key.
    F9,
    /// The F10 key.
    F10,
    /// The F11 key.
    F11,
    /// The F12 key.
    F12,
    /// The LClick key.
    LClick,
    /// The RClick key.
    RClick,
    /// The MClick key.
    MClick,
    /// The M1 key.
    M1,
    /// The M2 key.
    M2,
    /// The M3 key.
    M3,
    /// The M4 key.
    M4,
}

/// The state-table index of each key.
pub open spec fn key_index_spec(k: Key) -> int {
    match k {
        Key::A => 0,
        Key::B => 1,
        Key::C => 2,
        Key::D => 3,
        Key::E => 4,
        Key::F => 5,
        Key::G => 6,
        Key::H => 7,
        Key::I => 8,
        Key::J => 9,
        Key::K => 10,
        Key::L => 11,
        Key::M => 12,
        Key::N => 13,
        Key::O => 14,
        Key::P => 15,
        Key::Q => 16,
        Key::R => 17,
        Key::S => 18,
        Key::T => 19,
        Key::U => 20,
        Key::V => 21,
        Key::W => 22,
        Key::X => 23,
        Key::Y => 24,
        Key::Z => 25,
        Key::Zero => 26,
        Key::One => 27,
        Key::Two => 28,
        Key::Three => 29,
        Key::Four => 30,
        Key::Five => 31,
        Key::Six => 32,
        Key::Seven => 33,
        Key::Eight => 34,
        Key::Nine => 35,
        Key::Up => 36,
        Key::Left => 37,
        Key::Down => 38,
        Key::Right => 39,
        Key::Tab => 40,
        Key::Shift => 41,
        Key::RShift => 42,
        Key::Caps => 43,
        Key::Space => 44,
        Key::Esc => 45,
        Key::Ctrl => 46,
        Key::RCtrl => 47,
        Key::Alt => 48,
        Key::RAlt => 49,
        Key::Super => 50,
        Key::RSuper => 51,
        Key::Backspace => 52,
        Key::Enter => 53,
        Key::Backtick => 54,
        Key::Minus => 55,
        Key::Equals => 56,
        Key::Backslash => 57,
        Key::LBracket => 58,
        Key::RBracket => 59,
        Key::Semicolon => 60,
        Key::Apostrophe => 61,
        Key::Comma => 62,
        Key::Period => 63,
        Key::Slash => 64,
        Key::F1 => 65,
        Key::F2 => 66,
        Key::F3 => 67,
        Key::F4 => 68,
        Key::F5 => 69,
        Key::F6 => 70,
        Key::F7 => 71,
        Key::F8 => 72,
        Key::F9 => 73,
        Key::F10 => 74,
        Key::F11 => 75,
        Key::F12 => 76,
        Key::LClick => 77,
        Key::RClick => 78,
        Key::MClick => 79,
        Key::M1 => 80,
        Key::M2 => 81,
        Key::M3 => 82,
        Key::M4 => 83,
    }
}

/// The key of each hardware scancode, where one is assigned.
pub open spec fn keycode_spec(code: u32) -> Option<Key> {
    match code {
        30u32 => Some(Key::A),
        48u32 => Some(Key::B),
        46u32 => Some(Key::C),
        32u32 => Some(Key::D),
        18u32 => Some(Key::E),
        33u32 => Some(Key::F),
        34u32 => Some(Key::G),
        35u32 => Some(Key::H),
        23u32 => Some(Key::I),
        36u32 => Some(Key::J),
        37u32 => Some(Key::K),
        38u32 => Some(Key::L),
        50u32 => Some(Key::M),
        49u32 => Some(Key::N),
        24u32 => Some(Key::O),
        25u32 => Some(Key::P),
        16u32 => Some(Key::Q),
        19u32 => Some(Key::R),
        31u32 => Some(Key::S),
        20u32 => Some(Key::T),
        22u32 => Some(Key::U),
        47u32 => Some(Key::V),
        17u32 => Some(Key::W),
        45u32 => Some(Key::X),
        21u32 => Some(Key::Y),
        44u32 => Some(Key::Z),
        11u32 => Some(Key::Zero),
        2u32 => Some(Key::One),
        3u32 => Some(Key::Two),
        4u32 => Some(Key::Three),
        5u32 => Some(Key::Four),
        6u32 => Some(Key::Five),
        7u32 => Some(Key::Six),
        8u32 => Some(Key::Seven),
        9u32 => Some(Key::Eight),
        10u32 => Some(Key::Nine),
        200u32 => Some(Key::Up),
        203u32 => Some(Key::Left),
        206u32 => Some(Key::Down),
        205u32 => Some(Key::Right),
        15u32 => Some(Key::Tab),
        42u32 => Some(Key::Shift),
        54u32 => Some(Key::RShift),
        58u32 => Some(Key::Caps),
        57u32 => Some(Key::Space),
        1u32 => Some(Key::Esc),
        29u32 => Some(Key::Ctrl),
        157u32 => Some(Key::RCtrl),
        56u32 => Some(Key::Alt),
        184u32 => Some(Key::RAlt),
        219u32 => Some(Key::Super),
        220u32 => Some(Key::RSuper),
        14u32 => Some(Key::Backspace),
        28u32 => Some(Key::Enter),
        41u32 => Some(Key::Backtick),
        12u32 => Some(Key::Minus),
        13u32 => Some(Key::Equals),
        43u32 => Some(Key::Backslash),
        26u32 => Some(Key::LBracket),
        27u32 => Some(Key::RBracket),
        39u32 => Some(Key::Semicolon),
        40u32 => Some(Key::Apostrophe),
        51u32 => Some(Key::Comma),
        52u32 => Some(Key::Period),
        53u32 => Some(Key::Slash),
        59u32 => Some(Key::F1),
        60u32 => Some(Key::F2),
        61u32 => Some(Key::F3),
        62u32 => Some(Key::F4),
        63u32 => Some(Key::F5),
        64u32 => Some(Key::F6),
        65u32 => Some(Key::F7),
        66u32 => Some(Key::F8),
        67u32 => Some(Key::F9),
        68u32 => Some(Key::F10),
        87u32 => Some(Key::F11),
        88u32 => Some(Key::F12),
        _ => None,
    }
}

/// The windowing system's named virtual key codes, mirrored as a
/// plain closed enum. Codes this engine does not map are carried as
/// [`VirtualKey::Unmapped`].
#[derive(Clone, Copy, Debug, PartialEq, Eq, Structural)]
pub enum VirtualKey {
    /// The Key1 virtual key.
    Key1,
    /// The Key2 virtual key.
    Key2,
    /// The Key3 virtual key.
    Key3,
    /// The Key4 virtual key.
    Key4,
    /// The Key5 virtual key.
    Key5,
    /// The Key6 virtual key.
    Key6,
    /// The Key7 virtual key.
    Key7,
    /// The Key8 virtual key.
    Key8,
    /// The Key9 virtual key.
    Key9,
    /// The Key0 virtual key.
    Key0,
    /// The A virtual key.
    A,
    /// The B virtual key.
    B,
    /// The C virtual key.
    C,
    /// The D virtual key.
    D,
    /// The E virtual key.
    E,
    /// The F virtual key.
    F,
    /// The G virtual key.
    G,
    /// The H virtual key.
    H,
    /// The I virtual key.
    I,
    /// The J virtual key.
    J,
    /// The K virtual key.
    K,
    /// The L virtual key.
    L,
    /// The M virtual key.
    M,
    /// The N virtual key.
    N,
    /// The O virtual key.
    O,
    /// The P virtual key.
    P,
    /// The Q virtual key.
    Q,
    /// The R virtual key.
    R,
    /// The S virtual key.
    S,
    /// The T virtual key.
    T,
    /// The U virtual key.
    U,
    /// The V virtual key.
    V,
    /// The W virtual key.
    W,
    /// The X virtual key.
    X,
    /// The Y virtual key.
    Y,
    /// The Z virtual key.
    Z,
    /// The Escape virtual key.
    Escape,
    /// The F1 virtual key.
    F1,
    /// The F2 virtual key.
    F2,
    /// The F3 virtual key.
    F3,
    /// The F4 virtual key.
    F4,
    /// The F5 virtual key.
    F5,
    /// The F6 virtual key.
    F6,
    /// The F7 virtual key.
    F7,
    /// The F8 virtual key.
    F8,
    /// The F9 virtual key.
    F9,
    /// The F10 virtual key.
    F10,
    /// The F11 virtual key.
    F11,
    /// The F12 virtual key.
    F12,
    /// The Left virtual key.
    Left,
    /// The Up virtual key.
    Up,
    /// The Right virtual key.
    Right,
    /// The Down virtual key.
    Down,
    /// The Return virtual key.
    Return,
    /// The Space virtual key.
    Space,
    /// The Numpad0 virtual key.
    Numpad0,
    /// The Numpad1 virtual key.
    Numpad1,
    /// The Numpad2 virtual key.
    Numpad2,
    /// The Numpad3 virtual key.
    Numpad3,
    /// The Numpad4 virtual key.
    Numpad4,
    /// The Numpad5 virtual key.
    Numpad5,
    /// The Numpad6 virtual key.
    Numpad6,
    /// The Numpad7 virtual key.
    Numpad7,
    /// The Numpad8 virtual key.
    Numpad8,
    /// The Numpad9 virtual key.
    Numpad9,
    /// The NumpadAdd virtual key.
    NumpadAdd,
    /// The NumpadDivide virtual key.
    NumpadDivide,
    /// The NumpadDecimal virtual key.
    NumpadDecimal,
    /// The NumpadComma virtual key.
    NumpadComma,
    /// The NumpadEnter virtual key.
    NumpadEnter,
    /// The NumpadEquals virtual key.
    NumpadEquals,
    /// The NumpadMultiply virtual key.
    NumpadMultiply,
    /// The NumpadSubtract virtual key.
    NumpadSubtract,
    /// The Apostrophe virtual key.
    Apostrophe,
    /// The Asterisk virtual key.
    Asterisk,
    /// The At virtual key.
    At,
    /// The Backslash virtual key.
    Backslash,
    /// The Colon virtual key.
    Colon,
    /// The Comma virtual key.
    Comma,
    /// The Equals virtual key.
    Equals,
    /// The Grave virtual key.
    Grave,
    /// The LAlt virtual key.
    LAlt,
    /// The LBracket virtual key.
    LBracket,
    /// The LControl virtual key.
    LControl,
    /// The LShift virtual key.
    LShift,
    /// The LWin virtual key.
    LWin,
    /// The Minus virtual key.
    Minus,
    /// The Period virtual key.
    Period,
    /// The Plus virtual key.
    Plus,
    /// The RAlt virtual key.
    RAlt,
    /// The RBracket virtual key.
    RBracket,
    /// The RControl virtual key.
    RControl,
    /// The RShift virtual key.
    RShift,
    /// The RWin virtual key.
    RWin,
    /// The Semicolon virtual key.
    Semicolon,
    /// The Slash virtual key.
    Slash,
    /// The Tab virtual key.
    Tab,
    /// The Underline virtual key.
    Underline,
    /// The Copy virtual key.
    Copy,
    /// The Paste virtual key.
    Paste,
    /// The Cut virtual key.
    Cut,
    /// Any virtual key this engine does not map.
    Unmapped,
}

/// The keys each named virtual key code stands for: one key, or the
/// two-key chord that types a shifted character.
pub open spec fn virtual_spec(code: Option<VirtualKey>) -> Option<Seq<Key>> {
    match code {
        Some(VirtualKey::Key1) => Some(seq![Key::One]),
        Some(VirtualKey::Key2) => Some(seq![Key::Two]),
        Some(VirtualKey::Key3) => Some(seq![Key::Three]),
        Some(VirtualKey::Key4) => Some(seq![Key::Four]),
        Some(VirtualKey::Key5) => Some(seq![Key::Five]),
        Some(VirtualKey::Key6) => Some(seq![Key::Six]),
        Some(VirtualKey::Key7) => Some(seq![Key::Seven]),
        Some(VirtualKey::Key8) => Some(seq![Key::Eight]),
        Some(VirtualKey::Key9) => Some(seq![Key::Nine]),
        Some(VirtualKey::Key0) => Some(seq![Key::Zero]),
        Some(VirtualKey::A) => Some(seq![Key::A]),
        Some(VirtualKey::B) => Some(seq![Key::B]),
        Some(VirtualKey::C) => Some(seq![Key::C]),
        Some(VirtualKey::D) => Some(seq![Key::D]),
        Some(VirtualKey::E) => Some(seq![Key::E]),
        Some(VirtualKey::F) => Some(seq![Key::F]),
        Some(VirtualKey::G) => Some(seq![Key::G]),
        Some(VirtualKey::H) => Some(seq![Key::H]),
        Some(VirtualKey::I) => Some(seq![Key::I]),
        Some(VirtualKey::J) => Some(seq![Key::J]),
        Some(VirtualKey::K) => Some(seq![Key::K]),
        Some(VirtualKey::L) => Some(seq![Key::L]),
        Some(VirtualKey::M) => Some(seq![Key::M]),
        Some(VirtualKey::N) => Some(seq![Key::N]),
        Some(VirtualKey::O) => Some(seq![Key::O]),
        Some(VirtualKey::P) => Some(seq![Key::P]),
        Some(VirtualKey::Q) => Some(seq![Key::Q]),
        Some(VirtualKey::R) => Some(seq![Key::R]),
        Some(VirtualKey::S) => Some(seq![Key::S]),
        Some(VirtualKey::T) => Some(seq![Key::T]),
        Some(VirtualKey::U) => Some(seq![Key::U]),
        Some(VirtualKey::V) => Some(seq![Key::V]),
        Some(VirtualKey::W) => Some(seq![Key::W]),
        Some(VirtualKey::X) => Some(seq![Key::X]),
        Some(VirtualKey::Y) => Some(seq![Key::Y]),
        Some(VirtualKey::Z) => Some(seq![Key::Z]),
        Some(VirtualKey::Escape) => Some(seq![Key::Esc]),
        Some(VirtualKey::F1) => Some(seq![Key::F1]),
        Some(VirtualKey::F2) => Some(seq![Key::F2]),
        Some(VirtualKey::F3) => Some(seq![Key::F3]),
        Some(VirtualKey::F4) => Some(seq![Key::F4]),
        Some(VirtualKey::F5) => Some(seq![Key::F5]),
        Some(VirtualKey::F6) => Some(seq![Key::F6]),
        Some(VirtualKey::F7) => Some(seq![Key::F7]),
        Some(VirtualKey::F8) => Some(seq![Key::F8]),
        Some(VirtualKey::F9) => Some(seq![Key::F9]),
        Some(VirtualKey::F10) => Some(seq![Key::F10]),
        Some(VirtualKey::F11) => Some(seq![Key::F11]),
        Some(VirtualKey::F12) => Some(seq![Key::F12]),
        Some(VirtualKey::Left) => Some(seq![Key::Left]),
        Some(VirtualKey::Up) => Some(seq![Key::Up]),
        Some(VirtualKey::Right) => Some(seq![Key::Right]),
        Some(VirtualKey::Down) => Some(seq![Key::Down]),
        Some(VirtualKey::Return) => Some(seq![Key::Enter]),
        Some(VirtualKey::Space) => Some(seq![Key::Space]),
        Some(VirtualKey::Numpad0) => Some(seq![Key::Zero]),
        Some(VirtualKey::Numpad1) => Some(seq![Key::One]),
        Some(VirtualKey::Numpad2) => Some(seq![Key::Two]),
        Some(VirtualKey::Numpad3) => Some(seq![Key::Three]),
        Some(VirtualKey::Numpad4) => Some(seq![Key::Four]),
        Some(VirtualKey::Numpad5) => Some(seq![Key::Five]),
        Some(VirtualKey::Numpad6) => Some(seq![Key::Six]),
        Some(VirtualKey::Numpad7) => Some(seq![Key::Seven]),
        Some(VirtualKey::Numpad8) => Some(seq![Key::Eight]),
        Some(VirtualKey::Numpad9) => Some(seq![Key::Nine]),
        Some(VirtualKey::NumpadAdd) => Some(seq![Key::Equals]),
        Some(VirtualKey::NumpadDivide) => Some(seq![Key::Slash]),
        Some(VirtualKey::NumpadDecimal) => Some(seq![Key::Period]),
        Some(VirtualKey::NumpadComma) => Some(seq![Key::Comma]),
        Some(VirtualKey::NumpadEnter) => Some(seq![Key::Enter]),
        Some(VirtualKey::NumpadEquals) => Some(seq![Key::Equals]),
        Some(VirtualKey::NumpadMultiply) => Some(seq![Key::Eight]),
        Some(VirtualKey::NumpadSubtract) => Some(seq![Key::Minus]),
        Some(VirtualKey::Apostrophe) => Some(seq![Key::Apostrophe]),
        Some(VirtualKey::Asterisk) => Some(seq![Key::Shift, Key::Eight]),
        Some(VirtualKey::At) => Some(seq![Key::Shift, Key::Two]),
        Some(VirtualKey::Backslash) => Some(seq![Key::Backslash]),
        Some(VirtualKey::Colon) => Some(seq![Key::Shift, Key::Semicolon]),
        Some(VirtualKey::Comma) => Some(seq![Key::Comma]),
        Some(VirtualKey::Equals) => Some(seq![Key::Equals]),
        Some(VirtualKey::Grave) => Some(seq![Key::Backtick]),
        Some(VirtualKey::LAlt) => Some(seq![Key::Alt]),
        Some(VirtualKey::LBracket) => Some(seq![Key::LBracket]),
        Some(VirtualKey::LControl) => Some(seq![Key::Ctrl]),
        Some(VirtualKey::LShift) => Some(seq![Key::Shift]),
        Some(VirtualKey::LWin) => Some(seq![Key::Super]),
        Some(VirtualKey::Minus) => Some(seq![Key::Minus]),
        Some(VirtualKey::Period) => Some(seq![Key::Period]),
        Some(VirtualKey::Plus) => Some(seq![Key::Shift, Key::Equals]),
        Some(VirtualKey::RAlt) => Some(seq![Key::RAlt]),
        Some(VirtualKey::RBracket) => Some(seq![Key::RBracket]),
        Some(VirtualKey::RControl) => Some(seq![Key::RCtrl]),
        Some(VirtualKey::RShift) => Some(seq![Key::RShift]),
        Some(VirtualKey::RWin) => Some(seq![Key::RSuper]),
        Some(VirtualKey::Semicolon) => Some(seq![Key::Semicolon]),
        Some(VirtualKey::Slash) => Some(seq![Key::Slash]),
        Some(VirtualKey::Tab) => Some(seq![Key::Tab]),
        Some(VirtualKey::Underline) => Some(seq![Key::Shift, Key::Minus]),
        Some(VirtualKey::Copy) => Some(seq![Key::Shift, Key::C]),
        Some(VirtualKey::Paste) => Some(seq![Key::Shift, Key::V]),
        Some(VirtualKey::Cut) => Some(seq![Key::Shift, Key::X]),
        Some(VirtualKey::Unmapped) => None,
        None => None,
    }
}

/// A one-key mapping result.
fn one_key(k: Key) -> (r: Vec<Key>)
    ensures
        r@ == seq![k],
{
    let v = vec![k];
    proof {
        assert(v@ =~= seq![k]);
    }
    v
}

/// A two-key chord mapping result.
fn two_keys(k1: Key, k2: Key) -> (r: Vec<Key>)
    ensures
        r@ == seq![k1, k2],
{
    let v = vec![k1, k2];
    proof {
        assert(v@ =~= seq![k1, k2]);
    }
    v
}

impl Key {
    /// The key's index in the state table.
    pub fn index(self) -> (r: usize)
        ensures
            r == key_index_spec(self),
            r < KEYS_NUM,
    {
        match self {
            Key::A => 0,
            Key::B => 1,
            Key::C => 2,
            Key::D => 3,
            Key::E => 4,
            Key::F => 5,
            Key::G => 6,
            Key::H => 7,
            Key::I => 8,
            Key::J => 9,
            Key::K => 10,
            Key::L => 11,
            Key::M => 12,
            Key::N => 13,
            Key::O => 14,
            Key::P => 15,
            Key::Q => 16,
            Key::R => 17,
            Key::S => 18,
            Key::T => 19,
            Key::U => 20,
            Key::V => 21,
            Key::W => 22,
            Key::X => 23,
            Key::Y => 24,
            Key::Z => 25,
            Key::Zero => 26,
            Key::One => 27,
            Key::Two => 28,
            Key::Three => 29,
            Key::Four => 30,
            Key::Five => 31,
            Key::Six => 32,
            Key::Seven => 33,
            Key::Eight => 34,
            Key::Nine => 35,
            Key::Up => 36,
            Key::Left => 37,
            Key::Down => 38,
            Key::Right => 39,
            Key::Tab => 40,
            Key::Shift => 41,
            Key::RShift => 42,
            Key::Caps => 43,
            Key::Space => 44,
            Key::Esc => 45,
            Key::Ctrl => 46,
            Key::RCtrl => 47,
            Key::Alt => 48,
            Key::RAlt => 49,
            Key::Super => 50,
            Key::RSuper => 51,
            Key::Backspace => 52,
            Key::Enter => 53,
            Key::Backtick => 54,
            Key::Minus => 55,
            Key::Equals => 56,
            Key::Backslash => 57,
            Key::LBracket => 58,
            Key::RBracket => 59,
            Key::Semicolon => 60,
            Key::Apostrophe => 61,
            Key::Comma => 62,
            Key::Period => 63,
            Key::Slash => 64,
            Key::F1 => 65,
            Key::F2 => 66,
            Key::F3 => 67,
            Key::F4 => 68,
            Key::F5 => 69,
            Key::F6 => 70,
            Key::F7 => 71,
            Key::F8 => 72,
            Key::F9 => 73,
            Key::F10 => 74,
            Key::F11 => 75,
            Key::F12 => 76,
            Key::LClick => 77,
            Key::RClick => 78,
            Key::MClick => 79,
            Key::M1 => 80,
            Key::M2 => 81,
            Key::M3 => 82,
            Key::M4 => 83,
        }
    }

    /// Translates a hardware scancode into a key.
    pub fn from_keycode(code: u32) -> (r: Option<Key>)
        ensures
            r == keycode_spec(code),
    {
        match code {
            30 => Some(Key::A),
            48 => Some(Key::B),
            46 => Some(Key::C),
            32 => Some(Key::D),
            18 => Some(Key::E),
            33 => Some(Key::F),
            34 => Some(Key::G),
            35 => Some(Key::H),
            23 => Some(Key::I),
            36 => Some(Key::J),
            37 => Some(Key::K),
            38 => Some(Key::L),
            50 => Some(Key::M),
            49 => Some(Key::N),
            24 => Some(Key::O),
            25 => Some(Key::P),
            16 => Some(Key::Q),
            19 => Some(Key::R),
            31 => Some(Key::S),
            20 => Some(Key::T),
            22 => Some(Key::U),
            47 => Some(Key::V),
            17 => Some(Key::W),
            45 => Some(Key::X),
            21 => Some(Key::Y),
            44 => Some(Key::Z),
            11 => Some(Key::Zero),
            2 => Some(Key::One),
            3 => Some(Key::Two),
            4 => Some(Key::Three),
            5 => Some(Key::Four),
            6 => Some(Key::Five),
            7 => Some(Key::Six),
            8 => Some(Key::Seven),
            9 => Some(Key::Eight),
            10 => Some(Key::Nine),
            200 => Some(Key::Up),
            203 => Some(Key::Left),
            206 => Some(Key::Down),
            205 => Some(Key::Right),
            15 => Some(Key::Tab),
            42 => Some(Key::Shift),
            54 => Some(Key::RShift),
            58 => Some(Key::Caps),
            57 => Some(Key::Space),
            1 => Some(Key::Esc),
            29 => Some(Key::Ctrl),
            157 => Some(Key::RCtrl),
            56 => Some(Key::Alt),
            184 => Some(Key::RAlt),
            219 => Some(Key::Super),
            220 => Some(Key::RSuper),
            14 => Some(Key::Backspace),
            28 => Some(Key::Enter),
            41 => Some(Key::Backtick),
            12 => Some(Key::Minus),
            13 => Some(Key::Equals),
            43 => Some(Key::Backslash),
            26 => Some(Key::LBracket),
            27 => Some(Key::RBracket),
            39 => Some(Key::Semicolon),
            40 => Some(Key::Apostrophe),
            51 => Some(Key::Comma),
            52 => Some(Key::Period),
            53 => Some(Key::Slash),
            59 => Some(Key::F1),
            60 => Some(Key::F2),
            61 => Some(Key::F3),
            62 => Some(Key::F4),
            63 => Some(Key::F5),
            64 => Some(Key::F6),
            65 => Some(Key::F7),
            66 => Some(Key::F8),
            67 => Some(Key::F9),
            68 => Some(Key::F10),
            87 => Some(Key::F11),
            88 => Some(Key::F12),
            _ => None,
        }
    }

    /// Translates a named virtual key code into the keys it stands
    /// for, or `None` for an absent or unmapped code.
    pub fn from_virtual(code: Option<VirtualKey>) -> (r: Option<Vec<Key>>)
        ensures
            r is Some <==> virtual_spec(code) is Some,
            r matches Some(v) ==> virtual_spec(code) matches Some(s) && v@ == s,
    {
        let c = match code {
            Some(c) => c,
            None => {
                return None;
            },
        };
        match c {
            VirtualKey::Key1 => Some(one_key(Key::One)),
            VirtualKey::Key2 => Some(one_key(Key::Two)),
            VirtualKey::Key3 => Some(one_key(Key::Three)),
            VirtualKey::Key4 => Some(one_key(Key::Four)),
            VirtualKey::Key5 => Some(one_key(Key::Five)),
            VirtualKey::Key6 => Some(one_key(Key::Six)),
            VirtualKey::Key7 => Some(one_key(Key::Seven)),
            VirtualKey::Key8 => Some(one_key(Key::Eight)),
            VirtualKey::Key9 => Some(one_key(Key::Nine)),
            VirtualKey::Key0 => Some(one_key(Key::Zero)),
            VirtualKey::A => Some(one_key(Key::A)),
            VirtualKey::B => Some(one_key(Key::B)),
            VirtualKey::C => Some(one_key(Key::C)),
            VirtualKey::D => Some(one_key(Key::D)),
            VirtualKey::E => Some(one_key(Key::E)),
            VirtualKey::F => Some(one_key(Key::F)),
            VirtualKey::G => Some(one_key(Key::G)),
            VirtualKey::H => Some(one_key(Key::H)),
            VirtualKey::I => Some(one_key(Key::I)),
            VirtualKey::J => Some(one_key(Key::J)),
            VirtualKey::K => Some(one_key(Key::K)),
            VirtualKey::L => Some(one_key(Key::L)),
            VirtualKey::M => Some(one_key(Key::M)),
            VirtualKey::N => Some(one_key(Key::N)),
            VirtualKey::O => Some(one_key(Key::O)),
            VirtualKey::P => Some(one_key(Key::P)),
            VirtualKey::Q => Some(one_key(Key::Q)),
            VirtualKey::R => Some(one_key(Key::R)),
            VirtualKey::S => Some(one_key(Key::S)),
            VirtualKey::T => Some(one_key(Key::T)),
            VirtualKey::U => Some(one_key(Key::U)),
            VirtualKey::V => Some(one_key(Key::V)),
            VirtualKey::W => Some(one_key(Key::W)),
            VirtualKey::X => Some(one_key(Key::X)),
            VirtualKey::Y => Some(one_key(Key::Y)),
            VirtualKey::Z => Some(one_key(Key::Z)),
            VirtualKey::Escape => Some(one_key(Key::Esc)),
            VirtualKey::F1 => Some(one_key(Key::F1)),
            VirtualKey::F2 => Some(one_key(Key::F2)),
            VirtualKey::F3 => Some(one_key(Key::F3)),
            VirtualKey::F4 => Some(one_key(Key::F4)),
            VirtualKey::F5 => Some(one_key(Key::F5)),
            VirtualKey::F6 => Some(one_key(Key::F6)),
            VirtualKey::F7 => Some(one_key(Key::F7)),
            VirtualKey::F8 => Some(one_key(Key::F8)),
            VirtualKey::F9 => Some(one_key(Key::F9)),
            VirtualKey::F10 => Some(one_key(Key::F10)),
            VirtualKey::F11 => Some(one_key(Key::F11)),
            VirtualKey::F12 => Some(one_key(Key::F12)),
            VirtualKey::Left => Some(one_key(Key::Left)),
            VirtualKey::Up => Some(one_key(Key::Up)),
            VirtualKey::Right => Some(one_key(Key::Right)),
            VirtualKey::Down => Some(one_key(Key::Down)),
            VirtualKey::Return => Some(one_key(Key::Enter)),
            VirtualKey::Space => Some(one_key(Key::Space)),
            VirtualKey::Numpad0 => Some(one_key(Key::Zero)),
            VirtualKey::Numpad1 => Some(one_key(Key::One)),
            VirtualKey::Numpad2 => Some(one_key(Key::Two)),
            VirtualKey::Numpad3 => Some(one_key(Key::Three)),
            VirtualKey::Numpad4 => Some(one_key(Key::Four)),
            VirtualKey::Numpad5 => Some(one_key(Key::Five)),
            VirtualKey::Numpad6 => Some(one_key(Key::Six)),
            VirtualKey::Numpad7 => Some(one_key(Key::Seven)),
            VirtualKey::Numpad8 => Some(one_key(Key::Eight)),
            VirtualKey::Numpad9 => Some(one_key(Key::Nine)),
            VirtualKey::NumpadAdd => Some(one_key(Key::Equals)),
            VirtualKey::NumpadDivide => Some(one_key(Key::Slash)),
            VirtualKey::NumpadDecimal => Some(one_key(Key::Period)),
            VirtualKey::NumpadComma => Some(one_key(Key::Comma)),
            VirtualKey::NumpadEnter => Some(one_key(Key::Enter)),
            VirtualKey::NumpadEquals => Some(one_key(Key::Equals)),
            VirtualKey::NumpadMultiply => Some(one_key(Key::Eight)),
            VirtualKey::NumpadSubtract => Some(one_key(Key::Minus)),
            VirtualKey::Apostrophe => Some(one_key(Key::Apostrophe)),
            VirtualKey::Asterisk => Some(two_keys(Key::Shift, Key::Eight)),
            VirtualKey::At => Some(two_keys(Key::Shift, Key::Two)),
            VirtualKey::Backslash => Some(one_key(Key::Backslash)),
            VirtualKey::Colon => Some(two_keys(Key::Shift, Key::Semicolon)),
            VirtualKey::Comma => Some(one_key(Key::Comma)),
            VirtualKey::Equals => Some(one_key(Key::Equals)),
            VirtualKey::Grave => Some(one_key(Key::Backtick)),
            VirtualKey::LAlt => Some(one_key(Key::Alt)),
            VirtualKey::LBracket => Some(one_key(Key::LBracket)),
            VirtualKey::LControl => Some(one_key(Key::Ctrl)),
            VirtualKey::LShift => Some(one_key(Key::Shift)),
            VirtualKey::LWin => Some(one_key(Key::Super)),
            VirtualKey::Minus => Some(one_key(Key::Minus)),
            VirtualKey::Period => Some(one_key(Key::Period)),
            VirtualKey::Plus => Some(two_keys(Key::Shift, Key::Equals)),
            VirtualKey::RAlt => Some(one_key(Key::RAlt)),
            VirtualKey::RBracket => Some(one_key(Key::RBracket)),
            VirtualKey::RControl => Some(one_key(Key::RCtrl)),
            VirtualKey::RShift => Some(one_key(Key::RShift)),
            VirtualKey::RWin => Some(one_key(Key::RSuper)),
            VirtualKey::Semicolon => Some(one_key(Key::Semicolon)),
            VirtualKey::Slash => Some(one_key(Key::Slash)),
            VirtualKey::Tab => Some(one_key(Key::Tab)),
            VirtualKey::Underline => Some(two_keys(Key::Shift, Key::Minus)),
            VirtualKey::Copy => Some(two_keys(Key::Shift, Key::C)),
            VirtualKey::Paste => Some(two_keys(Key::Shift, Key::V)),
            VirtualKey::Cut => Some(two_keys(Key::Shift, Key::X)),
            VirtualKey::Unmapped => None,
        }
    }
}

/// A set of key states: one boolean per [`Key`]. Read a key with
/// [`Keys::get`], press or release one with [`Keys::set`].
#[derive(Clone, Copy, Debug, PartialEq, Eq)]
pub struct Keys([bool; 87]);

impl Keys {
    /// The state table as a sequence of booleans.
    pub closed spec fn view_spec(&self) -> Seq<bool> {
        self.0@
    }

    /// Creates a key-state table with every key up.
    pub fn new() -> (r: Keys)
        ensures
            r.view_spec() == Seq::new(87, |i: int| false),
    {
        let r = Keys([false; 87]);
        proof {
            assert(r.view_spec() =~= Seq::new(87, |i: int| false));
        }
        r
    }

    /// Whether the given key is down.
    pub fn get(&self, key: Key) -> (r: bool)
        ensures
            r == self.view_spec()[key_index_spec(key)],
    {
        let i = key.index();
        self.0[i]
    }

    /// Sets the given key's state.
    pub fn set(&mut self, key: Key, down: bool)
        ensures
            final(self).view_spec() == old(self).view_spec().update(key_index_spec(key), down),
    {
        let i = key.index();
        self.0[i] = down;
    }
}

impl Default for Keys {
    /// The default key-state table has every key up.
    fn default() -> (r: Keys)
        ensures
            r.view_spec() == Seq::new(87, |i: int| false),
    {
        Keys::new()
    }
}

} // verus!
