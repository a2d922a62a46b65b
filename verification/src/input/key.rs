use vstd::prelude::*;

verus! {

/// How many keys there are.
pub const KEY_COUNT: u32 = 169;

/// A key of the keyboard, by its meaning rather than by the code that a
/// platform has for it. `Unknown` stands for a key that is not known.
#[derive(Hash, Debug, Copy, Clone, PartialEq, Eq, Structural)]
pub enum Key {
    Unknown,
    LeftButton,
    RightButton,
    Cancel,
    MiddleButton,
    XButton1,
    XButton2,
    Back,
    Tab,
    Clear,
    Return,
    Shift,
    Control,
    Menu,
    Pause,
    Capital,
    KanaHangelHangul,
    Junja,
    Final,
    HanjaKanji,
    Escape,
    Convert,
    NonConvert,
    Accept,
    ModeChange,
    Space,
    Prior,
    Next,
    End,
    Home,
    Left,
    Up,
    Right,
    Down,
    Select,
    Print,
    Execute,
    Snapshot,
    Insert,
    Delete,
    Help,
    Key0,
    Key1,
    Key2,
    Key3,
    Key4,
    Key5,
    Key6,
    Key7,
    Key8,
    Key9,
    A,
    B,
    C,
    D,
    E,
    F,
    G,
    H,
    I,
    J,
    K,
    L,
    M,
    N,
    O,
    P,
    Q,
    R,
    S,
    T,
    U,
    V,
    W,
    X,
    Y,
    Z,
    LeftWin,
    RightWin,
    Apps,
    Sleep,
    NumPad0,
    NumPad1,
    NumPad2,
    NumPad3,
    NumPad4,
    NumPad5,
    NumPad6,
    NumPad7,
    NumPad8,
    NumPad9,
    Multiply,
    Add,
    Separator,
    Subtract,
    Decimal,
    Divide,
    F1,
    F2,
    F3,
    F4,
    F5,
    F6,
    F7,
    F8,
    F9,
    F10,
    F11,
    F12,
    F13,
    F14,
    F15,
    F16,
    F17,
    F18,
    F19,
    F20,
    F21,
    F22,
    F23,
    F24,
    NumLock,
    Scroll,
    LeftShift,
    RightShift,
    LeftControl,
    RightControl,
    LeftMenu,
    RightMenu,
    BrowserBack,
    BrowserForward,
    BrowserRefresh,
    BrowserStop,
    BrowserSearch,
    BrowserFavorites,
    BrowserHome,
    VolumeMute,
    VolumeDown,
    VolumeUp,
    MediaNextTrack,
    MediaPreviousTrack,
    MediaStop,
    MediaPlayPause,
    LaunchMail,
    LaunchMediaSelect,
    LaunchApp1,
    LaunchApp2,
    Oem1,
    Plus,
    Comma,
    Minus,
    Period,
    Oem2,
    Oem3,
    Oem4,
    Oem5,
    Oem6,
    Oem7,
    Oem8,
    ProcessKey,
    ImeProcess,
    Packet,
    Attn,
    CrSel,
    ExSel,
    EraseEof,
    Play,
    Zoom,
    PA1,
}

impl Key {
    /// The place of the key in the order of the keys, counted from zero.
    pub open spec fn ordinal(self) -> nat {
        match self {
            Key::Unknown => 0,
            Key::LeftButton => 1,
            Key::RightButton => 2,
            Key::Cancel => 3,
            Key::MiddleButton => 4,
            Key::XButton1 => 5,
            Key::XButton2 => 6,
            Key::Back => 7,
            Key::Tab => 8,
            Key::Clear => 9,
            Key::Return => 10,
            Key::Shift => 11,
            Key::Control => 12,
            Key::Menu => 13,
            Key::Pause => 14,
            Key::Capital => 15,
            Key::KanaHangelHangul => 16,
            Key::Junja => 17,
            Key::Final => 18,
            Key::HanjaKanji => 19,
            Key::Escape => 20,
            Key::Convert => 21,
            Key::NonConvert => 22,
            Key::Accept => 23,
            Key::ModeChange => 24,
            Key::Space => 25,
            Key::Prior => 26,
            Key::Next => 27,
            Key::End => 28,
            Key::Home => 29,
            Key::Left => 30,
            Key::Up => 31,
            Key::Right => 32,
            Key::Down => 33,
            Key::Select => 34,
            Key::Print => 35,
            Key::Execute => 36,
            Key::Snapshot => 37,
            Key::Insert => 38,
            Key::Delete => 39,
            Key::Help => 40,
            Key::Key0 => 41,
            Key::Key1 => 42,
            Key::Key2 => 43,
            Key::Key3 => 44,
            Key::Key4 => 45,
            Key::Key5 => 46,
            Key::Key6 => 47,
            Key::Key7 => 48,
            Key::Key8 => 49,
            Key::Key9 => 50,
            Key::A => 51,
            Key::B => 52,
            Key::C => 53,
            Key::D => 54,
            Key::E => 55,
            Key::F => 56,
            Key::G => 57,
            Key::H => 58,
            Key::I => 59,
            Key::J => 60,
            Key::K => 61,
            Key::L => 62,
            Key::M => 63,
            Key::N => 64,
            Key::O => 65,
            Key::P => 66,
            Key::Q => 67,
            Key::R => 68,
            Key::S => 69,
            Key::T => 70,
            Key::U => 71,
            Key::V => 72,
            Key::W => 73,
            Key::X => 74,
            Key::Y => 75,
            Key::Z => 76,
            Key::LeftWin => 77,
            Key::RightWin => 78,
            Key::Apps => 79,
            Key::Sleep => 80,
            Key::NumPad0 => 81,
            Key::NumPad1 => 82,
            Key::NumPad2 => 83,
            Key::NumPad3 => 84,
            Key::NumPad4 => 85,
            Key::NumPad5 => 86,
            Key::NumPad6 => 87,
            Key::NumPad7 => 88,
            Key::NumPad8 => 89,
            Key::NumPad9 => 90,
            Key::Multiply => 91,
            Key::Add => 92,
            Key::Separator => 93,
            Key::Subtract => 94,
            Key::Decimal => 95,
            Key::Divide => 96,
            Key::F1 => 97,
            Key::F2 => 98,
            Key::F3 => 99,
            Key::F4 => 100,
            Key::F5 => 101,
            Key::F6 => 102,
            Key::F7 => 103,
            Key::F8 => 104,
            Key::F9 => 105,
            Key::F10 => 106,
            Key::F11 => 107,
            Key::F12 => 108,
            Key::F13 => 109,
            Key::F14 => 110,
            Key::F15 => 111,
            Key::F16 => 112,
            Key::F17 => 113,
            Key::F18 => 114,
            Key::F19 => 115,
            Key::F20 => 116,
            Key::F21 => 117,
            Key::F22 => 118,
            Key::F23 => 119,
            Key::F24 => 120,
            Key::NumLock => 121,
            Key::Scroll => 122,
            Key::LeftShift => 123,
            Key::RightShift => 124,
            Key::LeftControl => 125,
            Key::RightControl => 126,
            Key::LeftMenu => 127,
            Key::RightMenu => 128,
            Key::BrowserBack => 129,
            Key::BrowserForward => 130,
            Key::BrowserRefresh => 131,
            Key::BrowserStop => 132,
            Key::BrowserSearch => 133,
            Key::BrowserFavorites => 134,
            Key::BrowserHome => 135,
            Key::VolumeMute => 136,
            Key::VolumeDown => 137,
            Key::VolumeUp => 138,
            Key::MediaNextTrack => 139,
            Key::MediaPreviousTrack => 140,
            Key::MediaStop => 141,
            Key::MediaPlayPause => 142,
            Key::LaunchMail => 143,
            Key::LaunchMediaSelect => 144,
            Key::LaunchApp1 => 145,
            Key::LaunchApp2 => 146,
            Key::Oem1 => 147,
            Key::Plus => 148,
            Key::Comma => 149,
            Key::Minus => 150,
            Key::Period => 151,
            Key::Oem2 => 152,
            Key::Oem3 => 153,
            Key::Oem4 => 154,
            Key::Oem5 => 155,
            Key::Oem6 => 156,
            Key::Oem7 => 157,
            Key::Oem8 => 158,
            Key::ProcessKey => 159,
            Key::ImeProcess => 160,
            Key::Packet => 161,
            Key::Attn => 162,
            Key::CrSel => 163,
            Key::ExSel => 164,
            Key::EraseEof => 165,
            Key::Play => 166,
            Key::Zoom => 167,
            Key::PA1 => 168,
        }
    }

    /// The name of the key.
    pub open spec fn label(self) -> Seq<char> {
        match self {
            Key::Unknown => "Unknown"@,
            Key::LeftButton => "LeftButton"@,
            Key::RightButton => "RightButton"@,
            Key::Cancel => "Cancel"@,
            Key::MiddleButton => "MiddleButton"@,
            Key::XButton1 => "XButton1"@,
            Key::XButton2 => "XButton2"@,
            Key::Back => "Back"@,
            Key::Tab => "Tab"@,
            Key::Clear => "Clear"@,
            Key::Return => "Return"@,
            Key::Shift => "Shift"@,
            Key::Control => "Control"@,
            Key::Menu => "Menu"@,
            Key::Pause => "Pause"@,
            Key::Capital => "Capital"@,
            Key::KanaHangelHangul => "KanaHangelHangul"@,
            Key::Junja => "Junja"@,
            Key::Final => "Final"@,
            Key::HanjaKanji => "HanjaKanji"@,
            Key::Escape => "Escape"@,
            Key::Convert => "Convert"@,
            Key::NonConvert => "NonConvert"@,
            Key::Accept => "Accept"@,
            Key::ModeChange => "ModeChange"@,
            Key::Space => "Space"@,
            Key::Prior => "Prior"@,
            Key::Next => "Next"@,
            Key::End => "End"@,
            Key::Home => "Home"@,
            Key::Left => "Left"@,
            Key::Up => "Up"@,
            Key::Right => "Right"@,
            Key::Down => "Down"@,
            Key::Select => "Select"@,
            Key::Print => "Print"@,
            Key::Execute => "Execute"@,
            Key::Snapshot => "Snapshot"@,
            Key::Insert => "Insert"@,
            Key::Delete => "Delete"@,
            Key::Help => "Help"@,
            Key::Key0 => "Key0"@,
            Key::Key1 => "Key1"@,
            Key::Key2 => "Key2"@,
            Key::Key3 => "Key3"@,
            Key::Key4 => "Key4"@,
            Key::Key5 => "Key5"@,
            Key::Key6 => "Key6"@,
            Key::Key7 => "Key7"@,
            Key::Key8 => "Key8"@,
            Key::Key9 => "Key9"@,
            Key::A => "A"@,
            Key::B => "B"@,
            Key::C => "C"@,
            Key::D => "D"@,
            Key::E => "E"@,
            Key::F => "F"@,
            Key::G => "G"@,
            Key::H => "H"@,
            Key::I => "I"@,
            Key::J => "J"@,
            Key::K => "K"@,
            Key::L => "L"@,
            Key::M => "M"@,
            Key::N => "N"@,
            Key::O => "O"@,
            Key::P => "P"@,
            Key::Q => "Q"@,
            Key::R => "R"@,
            Key::S => "S"@,
            Key::T => "T"@,
            Key::U => "U"@,
            Key::V => "V"@,
            Key::W => "W"@,
            Key::X => "X"@,
            Key::Y => "Y"@,
            Key::Z => "Z"@,
            Key::LeftWin => "LeftWin"@,
            Key::RightWin => "RightWin"@,
            Key::Apps => "Apps"@,
            Key::Sleep => "Sleep"@,
            Key::NumPad0 => "NumPad0"@,
            Key::NumPad1 => "NumPad1"@,
            Key::NumPad2 => "NumPad2"@,
            Key::NumPad3 => "NumPad3"@,
            Key::NumPad4 => "NumPad4"@,
            Key::NumPad5 => "NumPad5"@,
            Key::NumPad6 => "NumPad6"@,
            Key::NumPad7 => "NumPad7"@,
            Key::NumPad8 => "NumPad8"@,
            Key::NumPad9 => "NumPad9"@,
            Key::Multiply => "Multiply"@,
            Key::Add => "Add"@,
            Key::Separator => "Separator"@,
            Key::Subtract => "Subtract"@,
            Key::Decimal => "Decimal"@,
            Key::Divide => "Divide"@,
            Key::F1 => "F1"@,
            Key::F2 => "F2"@,
            Key::F3 => "F3"@,
            Key::F4 => "F4"@,
            Key::F5 => "F5"@,
            Key::F6 => "F6"@,
            Key::F7 => "F7"@,
            Key::F8 => "F8"@,
            Key::F9 => "F9"@,
            Key::F10 => "F10"@,
            Key::F11 => "F11"@,
            Key::F12 => "F12"@,
            Key::F13 => "F13"@,
            Key::F14 => "F14"@,
            Key::F15 => "F15"@,
            Key::F16 => "F16"@,
            Key::F17 => "F17"@,
            Key::F18 => "F18"@,
            Key::F19 => "F19"@,
            Key::F20 => "F20"@,
            Key::F21 => "F21"@,
            Key::F22 => "F22"@,
            Key::F23 => "F23"@,
            Key::F24 => "F24"@,
            Key::NumLock => "NumLock"@,
            Key::Scroll => "Scroll"@,
            Key::LeftShift => "LeftShift"@,
            Key::RightShift => "RightShift"@,
            Key::LeftControl => "LeftControl"@,
            Key::RightControl => "RightControl"@,
            Key::LeftMenu => "LeftMenu"@,
            Key::RightMenu => "RightMenu"@,
            Key::BrowserBack => "BrowserBack"@,
            Key::BrowserForward => "BrowserForward"@,
            Key::BrowserRefresh => "BrowserRefresh"@,
            Key::BrowserStop => "BrowserStop"@,
            Key::BrowserSearch => "BrowserSearch"@,
            Key::BrowserFavorites => "BrowserFavorites"@,
            Key::BrowserHome => "BrowserHome"@,
            Key::VolumeMute => "VolumeMute"@,
            Key::VolumeDown => "VolumeDown"@,
            Key::VolumeUp => "VolumeUp"@,
            Key::MediaNextTrack => "MediaNextTrack"@,
            Key::MediaPreviousTrack => "MediaPreviousTrack"@,
            Key::MediaStop => "MediaStop"@,
            Key::MediaPlayPause => "MediaPlayPause"@,
            Key::LaunchMail => "LaunchMail"@,
            Key::LaunchMediaSelect => "LaunchMediaSelect"@,
            Key::LaunchApp1 => "LaunchApp1"@,
            Key::LaunchApp2 => "LaunchApp2"@,
            Key::Oem1 => "Oem1"@,
            Key::Plus => "Plus"@,
            Key::Comma => "Comma"@,
            Key::Minus => "Minus"@,
            Key::Period => "Period"@,
            Key::Oem2 => "Oem2"@,
            Key::Oem3 => "Oem3"@,
            Key::Oem4 => "Oem4"@,
            Key::Oem5 => "Oem5"@,
            Key::Oem6 => "Oem6"@,
            Key::Oem7 => "Oem7"@,
            Key::Oem8 => "Oem8"@,
            Key::ProcessKey => "ProcessKey"@,
            Key::ImeProcess => "ImeProcess"@,
            Key::Packet => "Packet"@,
            Key::Attn => "Attn"@,
            Key::CrSel => "CrSel"@,
            Key::ExSel => "ExSel"@,
            Key::EraseEof => "EraseEof"@,
            Key::Play => "Play"@,
            Key::Zoom => "Zoom"@,
            Key::PA1 => "PA1"@,
        }
    }

    /// The place of the key in the order of the keys, counted from zero.
    pub fn to_u32(&self) -> (ordinal: u32)
        ensures
            ordinal == self.ordinal(),
            ordinal < KEY_COUNT,
    {
        match self {
            Key::Unknown => 0,
            Key::LeftButton => 1,
            Key::RightButton => 2,
            Key::Cancel => 3,
            Key::MiddleButton => 4,
            Key::XButton1 => 5,
            Key::XButton2 => 6,
            Key::Back => 7,
            Key::Tab => 8,
            Key::Clear => 9,
            Key::Return => 10,
            Key::Shift => 11,
            Key::Control => 12,
            Key::Menu => 13,
            Key::Pause => 14,
            Key::Capital => 15,
            Key::KanaHangelHangul => 16,
            Key::Junja => 17,
            Key::Final => 18,
            Key::HanjaKanji => 19,
            Key::Escape => 20,
            Key::Convert => 21,
            Key::NonConvert => 22,
            Key::Accept => 23,
            Key::ModeChange => 24,
            Key::Space => 25,
            Key::Prior => 26,
            Key::Next => 27,
            Key::End => 28,
            Key::Home => 29,
            Key::Left => 30,
            Key::Up => 31,
            Key::Right => 32,
            Key::Down => 33,
            Key::Select => 34,
            Key::Print => 35,
            Key::Execute => 36,
            Key::Snapshot => 37,
            Key::Insert => 38,
            Key::Delete => 39,
            Key::Help => 40,
            Key::Key0 => 41,
            Key::Key1 => 42,
            Key::Key2 => 43,
            Key::Key3 => 44,
            Key::Key4 => 45,
            Key::Key5 => 46,
            Key::Key6 => 47,
            Key::Key7 => 48,
            Key::Key8 => 49,
            Key::Key9 => 50,
            Key::A => 51,
            Key::B => 52,
            Key::C => 53,
            Key::D => 54,
            Key::E => 55,
            Key::F => 56,
            Key::G => 57,
            Key::H => 58,
            Key::I => 59,
            Key::J => 60,
            Key::K => 61,
            Key::L => 62,
            Key::M => 63,
            Key::N => 64,
            Key::O => 65,
            Key::P => 66,
            Key::Q => 67,
            Key::R => 68,
            Key::S => 69,
            Key::T => 70,
            Key::U => 71,
            Key::V => 72,
            Key::W => 73,
            Key::X => 74,
            Key::Y => 75,
            Key::Z => 76,
            Key::LeftWin => 77,
            Key::RightWin => 78,
            Key::Apps => 79,
            Key::Sleep => 80,
            Key::NumPad0 => 81,
            Key::NumPad1 => 82,
            Key::NumPad2 => 83,
            Key::NumPad3 => 84,
            Key::NumPad4 => 85,
            Key::NumPad5 => 86,
            Key::NumPad6 => 87,
            Key::NumPad7 => 88,
            Key::NumPad8 => 89,
            Key::NumPad9 => 90,
            Key::Multiply => 91,
            Key::Add => 92,
            Key::Separator => 93,
            Key::Subtract => 94,
            Key::Decimal => 95,
            Key::Divide => 96,
            Key::F1 => 97,
            Key::F2 => 98,
            Key::F3 => 99,
            Key::F4 => 100,
            Key::F5 => 101,
            Key::F6 => 102,
            Key::F7 => 103,
            Key::F8 => 104,
            Key::F9 => 105,
            Key::F10 => 106,
            Key::F11 => 107,
            Key::F12 => 108,
            Key::F13 => 109,
            Key::F14 => 110,
            Key::F15 => 111,
            Key::F16 => 112,
            Key::F17 => 113,
            Key::F18 => 114,
            Key::F19 => 115,
            Key::F20 => 116,
            Key::F21 => 117,
            Key::F22 => 118,
            Key::F23 => 119,
            Key::F24 => 120,
            Key::NumLock => 121,
            Key::Scroll => 122,
            Key::LeftShift => 123,
            Key::RightShift => 124,
            Key::LeftControl => 125,
            Key::RightControl => 126,
            Key::LeftMenu => 127,
            Key::RightMenu => 128,
            Key::BrowserBack => 129,
            Key::BrowserForward => 130,
            Key::BrowserRefresh => 131,
            Key::BrowserStop => 132,
            Key::BrowserSearch => 133,
            Key::BrowserFavorites => 134,
            Key::BrowserHome => 135,
            Key::VolumeMute => 136,
            Key::VolumeDown => 137,
            Key::VolumeUp => 138,
            Key::MediaNextTrack => 139,
            Key::MediaPreviousTrack => 140,
            Key::MediaStop => 141,
            Key::MediaPlayPause => 142,
            Key::LaunchMail => 143,
            Key::LaunchMediaSelect => 144,
            Key::LaunchApp1 => 145,
            Key::LaunchApp2 => 146,
            Key::Oem1 => 147,
            Key::Plus => 148,
            Key::Comma => 149,
            Key::Minus => 150,
            Key::Period => 151,
            Key::Oem2 => 152,
            Key::Oem3 => 153,
            Key::Oem4 => 154,
            Key::Oem5 => 155,
            Key::Oem6 => 156,
            Key::Oem7 => 157,
            Key::Oem8 => 158,
            Key::ProcessKey => 159,
            Key::ImeProcess => 160,
            Key::Packet => 161,
            Key::Attn => 162,
            Key::CrSel => 163,
            Key::ExSel => 164,
            Key::EraseEof => 165,
            Key::Play => 166,
            Key::Zoom => 167,
            Key::PA1 => 168,
        }
    }

    /// The name of the key.
    pub fn name(&self) -> (name: &'static str)
        ensures
            name@ == self.label(),
    {
        match self {
            Key::Unknown => "Unknown",
            Key::LeftButton => "LeftButton",
            Key::RightButton => "RightButton",
            Key::Cancel => "Cancel",
            Key::MiddleButton => "MiddleButton",
            Key::XButton1 => "XButton1",
            Key::XButton2 => "XButton2",
            Key::Back => "Back",
            Key::Tab => "Tab",
            Key::Clear => "Clear",
            Key::Return => "Return",
            Key::Shift => "Shift",
            Key::Control => "Control",
            Key::Menu => "Menu",
            Key::Pause => "Pause",
            Key::Capital => "Capital",
            Key::KanaHangelHangul => "KanaHangelHangul",
            Key::Junja => "Junja",
            Key::Final => "Final",
            Key::HanjaKanji => "HanjaKanji",
            Key::Escape => "Escape",
            Key::Convert => "Convert",
            Key::NonConvert => "NonConvert",
            Key::Accept => "Accept",
            Key::ModeChange => "ModeChange",
            Key::Space => "Space",
            Key::Prior => "Prior",
            Key::Next => "Next",
            Key::End => "End",
            Key::Home => "Home",
            Key::Left => "Left",
            Key::Up => "Up",
            Key::Right => "Right",
            Key::Down => "Down",
            Key::Select => "Select",
            Key::Print => "Print",
            Key::Execute => "Execute",
            Key::Snapshot => "Snapshot",
            Key::Insert => "Insert",
            Key::Delete => "Delete",
            Key::Help => "Help",
            Key::Key0 => "Key0",
            Key::Key1 => "Key1",
            Key::Key2 => "Key2",
            Key::Key3 => "Key3",
            Key::Key4 => "Key4",
            Key::Key5 => "Key5",
            Key::Key6 => "Key6",
            Key::Key7 => "Key7",
            Key::Key8 => "Key8",
            Key::Key9 => "Key9",
            Key::A => "A",
            Key::B => "B",
            Key::C => "C",
            Key::D => "D",
            Key::E => "E",
            Key::F => "F",
            Key::G => "G",
            Key::H => "H",
            Key::I => "I",
            Key::J => "J",
            Key::K => "K",
            Key::L => "L",
            Key::M => "M",
            Key::N => "N",
            Key::O => "O",
            Key::P => "P",
            Key::Q => "Q",
            Key::R => "R",
            Key::S => "S",
            Key::T => "T",
            Key::U => "U",
            Key::V => "V",
            Key::W => "W",
            Key::X => "X",
            Key::Y => "Y",
            Key::Z => "Z",
            Key::LeftWin => "LeftWin",
            Key::RightWin => "RightWin",
            Key::Apps => "Apps",
            Key::Sleep => "Sleep",
            Key::NumPad0 => "NumPad0",
            Key::NumPad1 => "NumPad1",
            Key::NumPad2 => "NumPad2",
            Key::NumPad3 => "NumPad3",
            Key::NumPad4 => "NumPad4",
            Key::NumPad5 => "NumPad5",
            Key::NumPad6 => "NumPad6",
            Key::NumPad7 => "NumPad7",
            Key::NumPad8 => "NumPad8",
            Key::NumPad9 => "NumPad9",
            Key::Multiply => "Multiply",
            Key::Add => "Add",
            Key::Separator => "Separator",
            Key::Subtract => "Subtract",
            Key::Decimal => "Decimal",
            Key::Divide => "Divide",
            Key::F1 => "F1",
            Key::F2 => "F2",
            Key::F3 => "F3",
            Key::F4 => "F4",
            Key::F5 => "F5",
            Key::F6 => "F6",
            Key::F7 => "F7",
            Key::F8 => "F8",
            Key::F9 => "F9",
            Key::F10 => "F10",
            Key::F11 => "F11",
            Key::F12 => "F12",
            Key::F13 => "F13",
            Key::F14 => "F14",
            Key::F15 => "F15",
            Key::F16 => "F16",
            Key::F17 => "F17",
            Key::F18 => "F18",
            Key::F19 => "F19",
            Key::F20 => "F20",
            Key::F21 => "F21",
            Key::F22 => "F22",
            Key::F23 => "F23",
            Key::F24 => "F24",
            Key::NumLock => "NumLock",
            Key::Scroll => "Scroll",
            Key::LeftShift => "LeftShift",
            Key::RightShift => "RightShift",
            Key::LeftControl => "LeftControl",
            Key::RightControl => "RightControl",
            Key::LeftMenu => "LeftMenu",
            Key::RightMenu => "RightMenu",
            Key::BrowserBack => "BrowserBack",
            Key::BrowserForward => "BrowserForward",
            Key::BrowserRefresh => "BrowserRefresh",
            Key::BrowserStop => "BrowserStop",
            Key::BrowserSearch => "BrowserSearch",
            Key::BrowserFavorites => "BrowserFavorites",
            Key::BrowserHome => "BrowserHome",
            Key::VolumeMute => "VolumeMute",
            Key::VolumeDown => "VolumeDown",
            Key::VolumeUp => "VolumeUp",
            Key::MediaNextTrack => "MediaNextTrack",
            Key::MediaPreviousTrack => "MediaPreviousTrack",
            Key::MediaStop => "MediaStop",
            Key::MediaPlayPause => "MediaPlayPause",
            Key::LaunchMail => "LaunchMail",
            Key::LaunchMediaSelect => "LaunchMediaSelect",
            Key::LaunchApp1 => "LaunchApp1",
            Key::LaunchApp2 => "LaunchApp2",
            Key::Oem1 => "Oem1",
            Key::Plus => "Plus",
            Key::Comma => "Comma",
            Key::Minus => "Minus",
            Key::Period => "Period",
            Key::Oem2 => "Oem2",
            Key::Oem3 => "Oem3",
            Key::Oem4 => "Oem4",
            Key::Oem5 => "Oem5",
            Key::Oem6 => "Oem6",
            Key::Oem7 => "Oem7",
            Key::Oem8 => "Oem8",
            Key::ProcessKey => "ProcessKey",
            Key::ImeProcess => "ImeProcess",
            Key::Packet => "Packet",
            Key::Attn => "Attn",
            Key::CrSel => "CrSel",
            Key::ExSel => "ExSel",
            Key::EraseEof => "EraseEof",
            Key::Play => "Play",
            Key::Zoom => "Zoom",
            Key::PA1 => "PA1",
        }
    }
}

/// No two keys have the same place in the order of the keys.
pub proof fn lemma_ordinal_distinct(first: Key, second: Key)
    requires
        first.ordinal() == second.ordinal(),
    ensures
        first == second,
{
}

} // verus!
