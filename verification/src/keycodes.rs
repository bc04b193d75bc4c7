//! Logical keys and modifiers of Android key events.
//!
//! Android's key character map reports a line feed for Enter, a tab for
//! Tab and similar control characters for the other named control keys.
//! Those keys keep their named identity whatever the map reports, so that
//! Enter stays distinct from an actual Ctrl-J.
use vstd::prelude::*;

verus! {

/// An Android key code, with the names the NDK gives them.
#[derive(Clone, Copy, Debug, PartialEq, Eq, Hash, Structural)]
pub enum Keycode {
    Unknown,
    SoftLeft,
    SoftRight,
    Home,
    Back,
    Call,
    Endcall,
    Keycode0,
    Keycode1,
    Keycode2,
    Keycode3,
    Keycode4,
    Keycode5,
    Keycode6,
    Keycode7,
    Keycode8,
    Keycode9,
    Star,
    Pound,
    DpadUp,
    DpadDown,
    DpadLeft,
    DpadRight,
    DpadCenter,
    VolumeUp,
    VolumeDown,
    Power,
    Camera,
    Clear,
    A,
    B,
    C,
    D,
    E,
    F,
    G,
    H,
    I,
    J,
    K,
    L,
    M,
    N,
    O,
    P,
    Q,
    R,
    S,
    T,
    U,
    V,
    W,
    X,
    Y,
    Z,
    Comma,
    Period,
    AltLeft,
    AltRight,
    ShiftLeft,
    ShiftRight,
    Tab,
    Space,
    Sym,
    Explorer,
    Envelope,
    Enter,
    Del,
    Grave,
    Minus,
    Equals,
    LeftBracket,
    RightBracket,
    Backslash,
    Semicolon,
    Apostrophe,
    Slash,
    At,
    Num,
    Headsethook,
    Focus,
    Plus,
    Menu,
    Notification,
    Search,
    MediaPlayPause,
    MediaStop,
    MediaNext,
    MediaPrevious,
    MediaRewind,
    MediaFastForward,
    Mute,
    PageUp,
    PageDown,
    Pictsymbols,
    SwitchCharset,
    ButtonA,
    ButtonB,
    ButtonC,
    ButtonX,
    ButtonY,
    ButtonZ,
    ButtonL1,
    ButtonR1,
    ButtonL2,
    ButtonR2,
    ButtonThumbl,
    ButtonThumbr,
    ButtonStart,
    ButtonSelect,
    ButtonMode,
    Escape,
    ForwardDel,
    CtrlLeft,
    CtrlRight,
    CapsLock,
    ScrollLock,
    MetaLeft,
    MetaRight,
    Function,
    Sysrq,
    Break,
    MoveHome,
    MoveEnd,
    Insert,
    Forward,
    MediaPlay,
    MediaPause,
    MediaClose,
    MediaEject,
    MediaRecord,
    F1,
    F2,
    F3,
    F4,
    F5,
    F6,
    F7,
    F8,
    F9,
    F10,
    F11,
    F12,
    NumLock,
    Numpad0,
    Numpad1,
    Numpad2,
    Numpad3,
    Numpad4,
    Numpad5,
    Numpad6,
    Numpad7,
    Numpad8,
    Numpad9,
    NumpadDivide,
    NumpadMultiply,
    NumpadSubtract,
    NumpadAdd,
    NumpadDot,
    NumpadComma,
    NumpadEnter,
    NumpadEquals,
    NumpadLeftParen,
    NumpadRightParen,
    VolumeMute,
    Info,
    ChannelUp,
    ChannelDown,
    ZoomIn,
    ZoomOut,
    Tv,
    Window,
    Guide,
    Dvr,
    Bookmark,
    Captions,
    Settings,
    TvPower,
    TvInput,
    StbPower,
    StbInput,
    AvrPower,
    AvrInput,
    ProgRed,
    ProgGreen,
    ProgYellow,
    ProgBlue,
    AppSwitch,
    Button1,
    Button2,
    Button3,
    Button4,
    Button5,
    Button6,
    Button7,
    Button8,
    Button9,
    Button10,
    Button11,
    Button12,
    Button13,
    Button14,
    Button15,
    Button16,
    LanguageSwitch,
    MannerMode,
    Keycode3dMode,
    Contacts,
    Calendar,
    Music,
    Calculator,
    ZenkakuHankaku,
    Eisu,
    Muhenkan,
    Henkan,
    KatakanaHiragana,
    Yen,
    Ro,
    Kana,
    Assist,
    BrightnessDown,
    BrightnessUp,
    MediaAudioTrack,
    Sleep,
    Wakeup,
    Pairing,
    MediaTopMenu,
    Keycode11,
    Keycode12,
    LastChannel,
    TvDataService,
    VoiceAssist,
    TvRadioService,
    TvTeletext,
    TvNumberEntry,
    TvTerrestrialAnalog,
    TvTerrestrialDigital,
    TvSatellite,
    TvSatelliteBs,
    TvSatelliteCs,
    TvSatelliteService,
    TvNetwork,
    TvAntennaCable,
    TvInputHdmi1,
    TvInputHdmi2,
    TvInputHdmi3,
    TvInputHdmi4,
    TvInputComposite1,
    TvInputComposite2,
    TvInputComponent1,
    TvInputComponent2,
    TvInputVga1,
    TvAudioDescription,
    TvAudioDescriptionMixUp,
    TvAudioDescriptionMixDown,
    TvZoomMode,
    TvContentsMenu,
    TvMediaContextMenu,
    TvTimerProgramming,
    Help,
    NavigatePrevious,
    NavigateNext,
    NavigateIn,
    NavigateOut,
    StemPrimary,
    Stem1,
    Stem2,
    Stem3,
    DpadUpLeft,
    DpadDownLeft,
    DpadUpRight,
    DpadDownRight,
    MediaSkipForward,
    MediaSkipBackward,
    MediaStepForward,
    MediaStepBackward,
    SoftSleep,
    Cut,
    Copy,
    Paste,
    SystemNavigationUp,
    SystemNavigationDown,
    SystemNavigationLeft,
    SystemNavigationRight,
    AllApps,
    Refresh,
    ThumbsUp,
    ThumbsDown,
    ProfileSwitch,
    /// A key code that has no name here.
    Unrecognized(u32),
}

/// What Android's key character map gives for a key.
#[derive(Clone, Copy, Debug, PartialEq, Eq, Structural)]
pub enum KeyMapChar {
    /// The key produces no character.
    Unmapped,
    /// The key produces this character.
    Unicode(char),
    /// The key is a dead key that combines this accent with the next character.
    CombiningAccent(char),
}

/// Keys with a name of their own.
#[derive(Clone, Copy, Debug, PartialEq, Eq, Hash, Structural)]
pub enum NamedKey {
    BrowserHome,
    BrowserBack,
    Call,
    EndCall,
    ArrowUp,
    ArrowDown,
    ArrowLeft,
    ArrowRight,
    Enter,
    AudioVolumeUp,
    AudioVolumeDown,
    Power,
    Camera,
    Clear,
    Alt,
    Shift,
    Tab,
    Space,
    Symbol,
    LaunchWebBrowser,
    LaunchMail,
    Backspace,
    HeadsetHook,
    CameraFocus,
    ContextMenu,
    Notification,
    BrowserSearch,
    MediaPlayPause,
    MediaStop,
    MediaTrackNext,
    MediaTrackPrevious,
    MediaRewind,
    MediaFastForward,
    MicrophoneVolumeMute,
    PageUp,
    PageDown,
    Escape,
    Delete,
    Control,
    CapsLock,
    ScrollLock,
    Meta,
    Fn,
    PrintScreen,
    Pause,
    Home,
    End,
    Insert,
    BrowserForward,
    MediaPlay,
    MediaPause,
    MediaClose,
    Eject,
    MediaRecord,
    F1,
    F2,
    F3,
    F4,
    F5,
    F6,
    F7,
    F8,
    F9,
    F10,
    F11,
    F12,
    NumLock,
    AudioVolumeMute,
}

/// A platform key that has no logical meaning here.
#[derive(Clone, Copy, Debug, PartialEq, Eq, Hash, Structural)]
pub enum NativeKey {
    Android(Keycode),
}

/// The logical meaning of a key press.
#[derive(Clone, Debug, PartialEq, Eq, Hash)]
pub enum Key {
    Named(NamedKey),
    Character(String),
    Unidentified(NativeKey),
    Dead(Option<char>),
}

/// What a `Key` says, with its text as a character sequence.
pub enum KeyView {
    Named(NamedKey),
    Character(Seq<char>),
    Unidentified(NativeKey),
    Dead(Option<char>),
}

impl View for Key {
    type V = KeyView;

    open spec fn view(&self) -> KeyView {
        match self {
            Key::Named(name) => KeyView::Named(*name),
            Key::Character(text) => KeyView::Character(text@),
            Key::Unidentified(native) => KeyView::Unidentified(*native),
            Key::Dead(accent) => KeyView::Dead(*accent),
        }
    }
}

/// The named keys for which the character map reports a control character.
pub open spec fn control_key(keycode: Keycode) -> Option<NamedKey> {
    match keycode {
        Keycode::Enter | Keycode::NumpadEnter => Some(NamedKey::Enter),
        Keycode::Tab => Some(NamedKey::Tab),
        Keycode::Del => Some(NamedKey::Backspace),
        Keycode::ForwardDel => Some(NamedKey::Delete),
        Keycode::Escape => Some(NamedKey::Escape),
        _ => None,
    }
}

/// The name of a key that produces no character.
pub open spec fn named_key(keycode: Keycode) -> Option<NamedKey> {
    match keycode {
        Keycode::Home => Some(NamedKey::BrowserHome),
        Keycode::Back => Some(NamedKey::BrowserBack),
        Keycode::Call => Some(NamedKey::Call),
        Keycode::Endcall => Some(NamedKey::EndCall),
        Keycode::DpadUp => Some(NamedKey::ArrowUp),
        Keycode::DpadDown => Some(NamedKey::ArrowDown),
        Keycode::DpadLeft => Some(NamedKey::ArrowLeft),
        Keycode::DpadRight => Some(NamedKey::ArrowRight),
        Keycode::DpadCenter | Keycode::Enter | Keycode::NumpadEnter => Some(NamedKey::Enter),
        Keycode::VolumeUp => Some(NamedKey::AudioVolumeUp),
        Keycode::VolumeDown => Some(NamedKey::AudioVolumeDown),
        Keycode::Power => Some(NamedKey::Power),
        Keycode::Camera => Some(NamedKey::Camera),
        Keycode::Clear => Some(NamedKey::Clear),
        Keycode::AltLeft | Keycode::AltRight | Keycode::Num => Some(NamedKey::Alt),
        Keycode::ShiftLeft | Keycode::ShiftRight => Some(NamedKey::Shift),
        Keycode::Tab => Some(NamedKey::Tab),
        Keycode::Space => Some(NamedKey::Space),
        Keycode::Sym => Some(NamedKey::Symbol),
        Keycode::Explorer => Some(NamedKey::LaunchWebBrowser),
        Keycode::Envelope => Some(NamedKey::LaunchMail),
        Keycode::Del => Some(NamedKey::Backspace),
        Keycode::Headsethook => Some(NamedKey::HeadsetHook),
        Keycode::Focus => Some(NamedKey::CameraFocus),
        Keycode::Menu => Some(NamedKey::ContextMenu),
        Keycode::Notification => Some(NamedKey::Notification),
        Keycode::Search => Some(NamedKey::BrowserSearch),
        Keycode::MediaPlayPause => Some(NamedKey::MediaPlayPause),
        Keycode::MediaStop => Some(NamedKey::MediaStop),
        Keycode::MediaNext => Some(NamedKey::MediaTrackNext),
        Keycode::MediaPrevious => Some(NamedKey::MediaTrackPrevious),
        Keycode::MediaRewind => Some(NamedKey::MediaRewind),
        Keycode::MediaFastForward => Some(NamedKey::MediaFastForward),
        Keycode::Mute => Some(NamedKey::MicrophoneVolumeMute),
        Keycode::PageUp => Some(NamedKey::PageUp),
        Keycode::PageDown => Some(NamedKey::PageDown),
        Keycode::Escape => Some(NamedKey::Escape),
        Keycode::ForwardDel => Some(NamedKey::Delete),
        Keycode::CtrlLeft | Keycode::CtrlRight => Some(NamedKey::Control),
        Keycode::CapsLock => Some(NamedKey::CapsLock),
        Keycode::ScrollLock => Some(NamedKey::ScrollLock),
        Keycode::MetaLeft | Keycode::MetaRight => Some(NamedKey::Meta),
        Keycode::Function => Some(NamedKey::Fn),
        Keycode::Sysrq => Some(NamedKey::PrintScreen),
        Keycode::Break => Some(NamedKey::Pause),
        Keycode::MoveHome => Some(NamedKey::Home),
        Keycode::MoveEnd => Some(NamedKey::End),
        Keycode::Insert => Some(NamedKey::Insert),
        Keycode::Forward => Some(NamedKey::BrowserForward),
        Keycode::MediaPlay => Some(NamedKey::MediaPlay),
        Keycode::MediaPause => Some(NamedKey::MediaPause),
        Keycode::MediaClose => Some(NamedKey::MediaClose),
        Keycode::MediaEject => Some(NamedKey::Eject),
        Keycode::MediaRecord => Some(NamedKey::MediaRecord),
        Keycode::F1 => Some(NamedKey::F1),
        Keycode::F2 => Some(NamedKey::F2),
        Keycode::F3 => Some(NamedKey::F3),
        Keycode::F4 => Some(NamedKey::F4),
        Keycode::F5 => Some(NamedKey::F5),
        Keycode::F6 => Some(NamedKey::F6),
        Keycode::F7 => Some(NamedKey::F7),
        Keycode::F8 => Some(NamedKey::F8),
        Keycode::F9 => Some(NamedKey::F9),
        Keycode::F10 => Some(NamedKey::F10),
        Keycode::F11 => Some(NamedKey::F11),
        Keycode::F12 => Some(NamedKey::F12),
        Keycode::NumLock => Some(NamedKey::NumLock),
        Keycode::VolumeMute => Some(NamedKey::AudioVolumeMute),
        _ => None,
    }
}

/// The character printed on a key, used when the character map gives none.
pub open spec fn printed_char(keycode: Keycode) -> Option<char> {
    match keycode {
        Keycode::Keycode0 | Keycode::Numpad0 => Some('0'),
        Keycode::Keycode1 | Keycode::Numpad1 => Some('1'),
        Keycode::Keycode2 | Keycode::Numpad2 => Some('2'),
        Keycode::Keycode3 | Keycode::Numpad3 => Some('3'),
        Keycode::Keycode4 | Keycode::Numpad4 => Some('4'),
        Keycode::Keycode5 | Keycode::Numpad5 => Some('5'),
        Keycode::Keycode6 | Keycode::Numpad6 => Some('6'),
        Keycode::Keycode7 | Keycode::Numpad7 => Some('7'),
        Keycode::Keycode8 | Keycode::Numpad8 => Some('8'),
        Keycode::Keycode9 | Keycode::Numpad9 => Some('9'),
        Keycode::A => Some('a'),
        Keycode::B => Some('b'),
        Keycode::C => Some('c'),
        Keycode::D => Some('d'),
        Keycode::E => Some('e'),
        Keycode::F => Some('f'),
        Keycode::G => Some('g'),
        Keycode::H => Some('h'),
        Keycode::I => Some('i'),
        Keycode::J => Some('j'),
        Keycode::K => Some('k'),
        Keycode::L => Some('l'),
        Keycode::M => Some('m'),
        Keycode::N => Some('n'),
        Keycode::O => Some('o'),
        Keycode::P => Some('p'),
        Keycode::Q => Some('q'),
        Keycode::R => Some('r'),
        Keycode::S => Some('s'),
        Keycode::T => Some('t'),
        Keycode::U => Some('u'),
        Keycode::V => Some('v'),
        Keycode::W => Some('w'),
        Keycode::X => Some('x'),
        Keycode::Y => Some('y'),
        Keycode::Z => Some('z'),
        Keycode::Star | Keycode::NumpadMultiply => Some('*'),
        Keycode::Pound => Some('#'),
        Keycode::Comma | Keycode::NumpadComma => Some(','),
        Keycode::Period | Keycode::NumpadDot => Some('.'),
        Keycode::Grave => Some('`'),
        Keycode::Minus | Keycode::NumpadSubtract => Some('-'),
        Keycode::Equals | Keycode::NumpadEquals => Some('='),
        Keycode::LeftBracket => Some('['),
        Keycode::RightBracket => Some(']'),
        Keycode::Backslash => Some('\\'),
        Keycode::Semicolon => Some(';'),
        Keycode::Apostrophe => Some('\''),
        Keycode::Slash | Keycode::NumpadDivide => Some('/'),
        Keycode::At => Some('@'),
        Keycode::Plus | Keycode::NumpadAdd => Some('+'),
        Keycode::NumpadLeftParen => Some('('),
        Keycode::NumpadRightParen => Some(')'),
        _ => None,
    }
}

/// The logical key of a key event: a named control key keeps its name;
/// otherwise the character map decides, and a key without a character is
/// named by its key code, or by the character printed on it, or is left
/// unidentified.
pub open spec fn logical_key(key_char: Option<KeyMapChar>, keycode: Keycode) -> KeyView {
    match control_key(keycode) {
        Some(name) => KeyView::Named(name),
        None => match key_char {
            Some(KeyMapChar::Unicode(c)) => KeyView::Character(seq![c]),
            Some(KeyMapChar::CombiningAccent(c)) => KeyView::Dead(Some(c)),
            _ => match named_key(keycode) {
                Some(name) => KeyView::Named(name),
                None => match printed_char(keycode) {
                    Some(c) => KeyView::Character(seq![c]),
                    None => KeyView::Unidentified(NativeKey::Android(keycode)),
                },
            },
        },
    }
}

fn control_key_of(keycode: Keycode) -> (r: Option<NamedKey>)
    ensures
        r == control_key(keycode),
{
    match keycode {
        Keycode::Enter | Keycode::NumpadEnter => Some(NamedKey::Enter),
        Keycode::Tab => Some(NamedKey::Tab),
        Keycode::Del => Some(NamedKey::Backspace),
        Keycode::ForwardDel => Some(NamedKey::Delete),
        Keycode::Escape => Some(NamedKey::Escape),
        _ => None,
    }
}

fn named_key_of(keycode: Keycode) -> (r: Option<NamedKey>)
    ensures
        r == named_key(keycode),
{
    match keycode {
        Keycode::Home => Some(NamedKey::BrowserHome),
        Keycode::Back => Some(NamedKey::BrowserBack),
        Keycode::Call => Some(NamedKey::Call),
        Keycode::Endcall => Some(NamedKey::EndCall),
        Keycode::DpadUp => Some(NamedKey::ArrowUp),
        Keycode::DpadDown => Some(NamedKey::ArrowDown),
        Keycode::DpadLeft => Some(NamedKey::ArrowLeft),
        Keycode::DpadRight => Some(NamedKey::ArrowRight),
        Keycode::DpadCenter | Keycode::Enter | Keycode::NumpadEnter => Some(NamedKey::Enter),
        Keycode::VolumeUp => Some(NamedKey::AudioVolumeUp),
        Keycode::VolumeDown => Some(NamedKey::AudioVolumeDown),
        Keycode::Power => Some(NamedKey::Power),
        Keycode::Camera => Some(NamedKey::Camera),
        Keycode::Clear => Some(NamedKey::Clear),
        Keycode::AltLeft | Keycode::AltRight | Keycode::Num => Some(NamedKey::Alt),
        Keycode::ShiftLeft | Keycode::ShiftRight => Some(NamedKey::Shift),
        Keycode::Tab => Some(NamedKey::Tab),
        Keycode::Space => Some(NamedKey::Space),
        Keycode::Sym => Some(NamedKey::Symbol),
        Keycode::Explorer => Some(NamedKey::LaunchWebBrowser),
        Keycode::Envelope => Some(NamedKey::LaunchMail),
        Keycode::Del => Some(NamedKey::Backspace),
        Keycode::Headsethook => Some(NamedKey::HeadsetHook),
        Keycode::Focus => Some(NamedKey::CameraFocus),
        Keycode::Menu => Some(NamedKey::ContextMenu),
        Keycode::Notification => Some(NamedKey::Notification),
        Keycode::Search => Some(NamedKey::BrowserSearch),
        Keycode::MediaPlayPause => Some(NamedKey::MediaPlayPause),
        Keycode::MediaStop => Some(NamedKey::MediaStop),
        Keycode::MediaNext => Some(NamedKey::MediaTrackNext),
        Keycode::MediaPrevious => Some(NamedKey::MediaTrackPrevious),
        Keycode::MediaRewind => Some(NamedKey::MediaRewind),
        Keycode::MediaFastForward => Some(NamedKey::MediaFastForward),
        Keycode::Mute => Some(NamedKey::MicrophoneVolumeMute),
        Keycode::PageUp => Some(NamedKey::PageUp),
        Keycode::PageDown => Some(NamedKey::PageDown),
        Keycode::Escape => Some(NamedKey::Escape),
        Keycode::ForwardDel => Some(NamedKey::Delete),
        Keycode::CtrlLeft | Keycode::CtrlRight => Some(NamedKey::Control),
        Keycode::CapsLock => Some(NamedKey::CapsLock),
        Keycode::ScrollLock => Some(NamedKey::ScrollLock),
        Keycode::MetaLeft | Keycode::MetaRight => Some(NamedKey::Meta),
        Keycode::Function => Some(NamedKey::Fn),
        Keycode::Sysrq => Some(NamedKey::PrintScreen),
        Keycode::Break => Some(NamedKey::Pause),
        Keycode::MoveHome => Some(NamedKey::Home),
        Keycode::MoveEnd => Some(NamedKey::End),
        Keycode::Insert => Some(NamedKey::Insert),
        Keycode::Forward => Some(NamedKey::BrowserForward),
        Keycode::MediaPlay => Some(NamedKey::MediaPlay),
        Keycode::MediaPause => Some(NamedKey::MediaPause),
        Keycode::MediaClose => Some(NamedKey::MediaClose),
        Keycode::MediaEject => Some(NamedKey::Eject),
        Keycode::MediaRecord => Some(NamedKey::MediaRecord),
        Keycode::F1 => Some(NamedKey::F1),
        Keycode::F2 => Some(NamedKey::F2),
        Keycode::F3 => Some(NamedKey::F3),
        Keycode::F4 => Some(NamedKey::F4),
        Keycode::F5 => Some(NamedKey::F5),
        Keycode::F6 => Some(NamedKey::F6),
        Keycode::F7 => Some(NamedKey::F7),
        Keycode::F8 => Some(NamedKey::F8),
        Keycode::F9 => Some(NamedKey::F9),
        Keycode::F10 => Some(NamedKey::F10),
        Keycode::F11 => Some(NamedKey::F11),
        Keycode::F12 => Some(NamedKey::F12),
        Keycode::NumLock => Some(NamedKey::NumLock),
        Keycode::VolumeMute => Some(NamedKey::AudioVolumeMute),
        _ => None,
    }
}

fn printed_char_of(keycode: Keycode) -> (r: Option<char>)
    ensures
        r == printed_char(keycode),
{
    match keycode {
        Keycode::Keycode0 | Keycode::Numpad0 => Some('0'),
        Keycode::Keycode1 | Keycode::Numpad1 => Some('1'),
        Keycode::Keycode2 | Keycode::Numpad2 => Some('2'),
        Keycode::Keycode3 | Keycode::Numpad3 => Some('3'),
        Keycode::Keycode4 | Keycode::Numpad4 => Some('4'),
        Keycode::Keycode5 | Keycode::Numpad5 => Some('5'),
        Keycode::Keycode6 | Keycode::Numpad6 => Some('6'),
        Keycode::Keycode7 | Keycode::Numpad7 => Some('7'),
        Keycode::Keycode8 | Keycode::Numpad8 => Some('8'),
        Keycode::Keycode9 | Keycode::Numpad9 => Some('9'),
        Keycode::A => Some('a'),
        Keycode::B => Some('b'),
        Keycode::C => Some('c'),
        Keycode::D => Some('d'),
        Keycode::E => Some('e'),
        Keycode::F => Some('f'),
        Keycode::G => Some('g'),
        Keycode::H => Some('h'),
        Keycode::I => Some('i'),
        Keycode::J => Some('j'),
        Keycode::K => Some('k'),
        Keycode::L => Some('l'),
        Keycode::M => Some('m'),
        Keycode::N => Some('n'),
        Keycode::O => Some('o'),
        Keycode::P => Some('p'),
        Keycode::Q => Some('q'),
        Keycode::R => Some('r'),
        Keycode::S => Some('s'),
        Keycode::T => Some('t'),
        Keycode::U => Some('u'),
        Keycode::V => Some('v'),
        Keycode::W => Some('w'),
        Keycode::X => Some('x'),
        Keycode::Y => Some('y'),
        Keycode::Z => Some('z'),
        Keycode::Star | Keycode::NumpadMultiply => Some('*'),
        Keycode::Pound => Some('#'),
        Keycode::Comma | Keycode::NumpadComma => Some(','),
        Keycode::Period | Keycode::NumpadDot => Some('.'),
        Keycode::Grave => Some('`'),
        Keycode::Minus | Keycode::NumpadSubtract => Some('-'),
        Keycode::Equals | Keycode::NumpadEquals => Some('='),
        Keycode::LeftBracket => Some('['),
        Keycode::RightBracket => Some(']'),
        Keycode::Backslash => Some('\\'),
        Keycode::Semicolon => Some(';'),
        Keycode::Apostrophe => Some('\''),
        Keycode::Slash | Keycode::NumpadDivide => Some('/'),
        Keycode::At => Some('@'),
        Keycode::Plus | Keycode::NumpadAdd => Some('+'),
        Keycode::NumpadLeftParen => Some('('),
        Keycode::NumpadRightParen => Some(')'),
        _ => None,
    }
}

/// A string of the one character `c` (`String::from(char)`).
#[verifier::external_body]
fn string_of_char(c: char) -> (s: String)
    ensures
        s@ == seq![c],
{
    String::from(c)
}

/// The logical key of an Android key event.
pub fn to_logical(key_char: Option<KeyMapChar>, keycode: Keycode) -> (r: Key)
    ensures
        r@ == logical_key(key_char, keycode),
{
    if let Some(name) = control_key_of(keycode) {
        return Key::Named(name);
    }
    match key_char {
        Some(KeyMapChar::Unicode(c)) => Key::Character(string_of_char(c)),
        Some(KeyMapChar::CombiningAccent(c)) => Key::Dead(Some(c)),
        _ => match named_key_of(keycode) {
            Some(name) => Key::Named(name),
            None => match printed_char_of(keycode) {
                Some(c) => Key::Character(string_of_char(c)),
                None => Key::Unidentified(NativeKey::Android(keycode)),
            },
        },
    }
}

/// A named control key is the same logical key whatever the character map
/// reports for it, while any other key that the map gives a character
/// means that character: Enter stays Enter when the map says line feed,
/// and Ctrl-J (a line feed from the J key) stays a character.
pub proof fn law_control_keys_ignore_character_map(
    first: Option<KeyMapChar>,
    second: Option<KeyMapChar>,
    keycode: Keycode,
    c: char,
)
    ensures
        control_key(keycode) is Some ==> logical_key(first, keycode) == logical_key(
            second,
            keycode,
        ),
        control_key(keycode) is Some ==> logical_key(first, keycode) == KeyView::Named(
            control_key(keycode)->0,
        ),
        control_key(keycode) is None ==> logical_key(Some(KeyMapChar::Unicode(c)), keycode)
            == KeyView::Character(seq![c]),
{
}

/// A key for which the character map gives no character is known by its
/// own name: each arrow key names its own direction, each function key its
/// own number, each modifier key its own modifier, and the editing keys
/// their editing action; a letter or digit key means the character printed
/// on it (letters in lower case).
pub proof fn law_keys_without_character(key_char: Option<KeyMapChar>)
    requires
        key_char is None || key_char == Some(KeyMapChar::Unmapped),
    ensures
        logical_key(key_char, Keycode::DpadUp) == KeyView::Named(NamedKey::ArrowUp),
        logical_key(key_char, Keycode::DpadDown) == KeyView::Named(NamedKey::ArrowDown),
        logical_key(key_char, Keycode::DpadLeft) == KeyView::Named(NamedKey::ArrowLeft),
        logical_key(key_char, Keycode::DpadRight) == KeyView::Named(NamedKey::ArrowRight),
        logical_key(key_char, Keycode::DpadCenter) == KeyView::Named(NamedKey::Enter),
        logical_key(key_char, Keycode::MoveHome) == KeyView::Named(NamedKey::Home),
        logical_key(key_char, Keycode::MoveEnd) == KeyView::Named(NamedKey::End),
        logical_key(key_char, Keycode::PageUp) == KeyView::Named(NamedKey::PageUp),
        logical_key(key_char, Keycode::PageDown) == KeyView::Named(NamedKey::PageDown),
        logical_key(key_char, Keycode::Insert) == KeyView::Named(NamedKey::Insert),
        logical_key(key_char, Keycode::Enter) == KeyView::Named(NamedKey::Enter),
        logical_key(key_char, Keycode::NumpadEnter) == KeyView::Named(NamedKey::Enter),
        logical_key(key_char, Keycode::Tab) == KeyView::Named(NamedKey::Tab),
        logical_key(key_char, Keycode::Del) == KeyView::Named(NamedKey::Backspace),
        logical_key(key_char, Keycode::ForwardDel) == KeyView::Named(NamedKey::Delete),
        logical_key(key_char, Keycode::Escape) == KeyView::Named(NamedKey::Escape),
        logical_key(key_char, Keycode::Space) == KeyView::Named(NamedKey::Space),
        logical_key(key_char, Keycode::ShiftLeft) == KeyView::Named(NamedKey::Shift),
        logical_key(key_char, Keycode::ShiftRight) == KeyView::Named(NamedKey::Shift),
        logical_key(key_char, Keycode::CtrlLeft) == KeyView::Named(NamedKey::Control),
        logical_key(key_char, Keycode::CtrlRight) == KeyView::Named(NamedKey::Control),
        logical_key(key_char, Keycode::AltLeft) == KeyView::Named(NamedKey::Alt),
        logical_key(key_char, Keycode::AltRight) == KeyView::Named(NamedKey::Alt),
        logical_key(key_char, Keycode::MetaLeft) == KeyView::Named(NamedKey::Meta),
        logical_key(key_char, Keycode::MetaRight) == KeyView::Named(NamedKey::Meta),
        logical_key(key_char, Keycode::CapsLock) == KeyView::Named(NamedKey::CapsLock),
        logical_key(key_char, Keycode::NumLock) == KeyView::Named(NamedKey::NumLock),
        logical_key(key_char, Keycode::ScrollLock) == KeyView::Named(NamedKey::ScrollLock),
        logical_key(key_char, Keycode::VolumeUp) == KeyView::Named(NamedKey::AudioVolumeUp),
        logical_key(key_char, Keycode::VolumeDown) == KeyView::Named(NamedKey::AudioVolumeDown),
        logical_key(key_char, Keycode::VolumeMute) == KeyView::Named(NamedKey::AudioVolumeMute),
        logical_key(key_char, Keycode::MediaPlayPause) == KeyView::Named(NamedKey::MediaPlayPause),
        logical_key(key_char, Keycode::MediaNext) == KeyView::Named(NamedKey::MediaTrackNext),
        logical_key(key_char, Keycode::MediaPrevious) == KeyView::Named(NamedKey::MediaTrackPrevious),
        logical_key(key_char, Keycode::Back) == KeyView::Named(NamedKey::BrowserBack),
        logical_key(key_char, Keycode::Forward) == KeyView::Named(NamedKey::BrowserForward),
        logical_key(key_char, Keycode::F1) == KeyView::Named(NamedKey::F1),
        logical_key(key_char, Keycode::F2) == KeyView::Named(NamedKey::F2),
        logical_key(key_char, Keycode::F3) == KeyView::Named(NamedKey::F3),
        logical_key(key_char, Keycode::F4) == KeyView::Named(NamedKey::F4),
        logical_key(key_char, Keycode::F5) == KeyView::Named(NamedKey::F5),
        logical_key(key_char, Keycode::F6) == KeyView::Named(NamedKey::F6),
        logical_key(key_char, Keycode::F7) == KeyView::Named(NamedKey::F7),
        logical_key(key_char, Keycode::F8) == KeyView::Named(NamedKey::F8),
        logical_key(key_char, Keycode::F9) == KeyView::Named(NamedKey::F9),
        logical_key(key_char, Keycode::F10) == KeyView::Named(NamedKey::F10),
        logical_key(key_char, Keycode::F11) == KeyView::Named(NamedKey::F11),
        logical_key(key_char, Keycode::F12) == KeyView::Named(NamedKey::F12),
        logical_key(key_char, Keycode::A) == KeyView::Character(seq!['a']),
        logical_key(key_char, Keycode::B) == KeyView::Character(seq!['b']),
        logical_key(key_char, Keycode::C) == KeyView::Character(seq!['c']),
        logical_key(key_char, Keycode::D) == KeyView::Character(seq!['d']),
        logical_key(key_char, Keycode::E) == KeyView::Character(seq!['e']),
        logical_key(key_char, Keycode::F) == KeyView::Character(seq!['f']),
        logical_key(key_char, Keycode::G) == KeyView::Character(seq!['g']),
        logical_key(key_char, Keycode::H) == KeyView::Character(seq!['h']),
        logical_key(key_char, Keycode::I) == KeyView::Character(seq!['i']),
        logical_key(key_char, Keycode::J) == KeyView::Character(seq!['j']),
        logical_key(key_char, Keycode::K) == KeyView::Character(seq!['k']),
        logical_key(key_char, Keycode::L) == KeyView::Character(seq!['l']),
        logical_key(key_char, Keycode::M) == KeyView::Character(seq!['m']),
        logical_key(key_char, Keycode::N) == KeyView::Character(seq!['n']),
        logical_key(key_char, Keycode::O) == KeyView::Character(seq!['o']),
        logical_key(key_char, Keycode::P) == KeyView::Character(seq!['p']),
        logical_key(key_char, Keycode::Q) == KeyView::Character(seq!['q']),
        logical_key(key_char, Keycode::R) == KeyView::Character(seq!['r']),
        logical_key(key_char, Keycode::S) == KeyView::Character(seq!['s']),
        logical_key(key_char, Keycode::T) == KeyView::Character(seq!['t']),
        logical_key(key_char, Keycode::U) == KeyView::Character(seq!['u']),
        logical_key(key_char, Keycode::V) == KeyView::Character(seq!['v']),
        logical_key(key_char, Keycode::W) == KeyView::Character(seq!['w']),
        logical_key(key_char, Keycode::X) == KeyView::Character(seq!['x']),
        logical_key(key_char, Keycode::Y) == KeyView::Character(seq!['y']),
        logical_key(key_char, Keycode::Z) == KeyView::Character(seq!['z']),
        logical_key(key_char, Keycode::Keycode0) == KeyView::Character(seq!['0']),
        logical_key(key_char, Keycode::Keycode1) == KeyView::Character(seq!['1']),
        logical_key(key_char, Keycode::Keycode2) == KeyView::Character(seq!['2']),
        logical_key(key_char, Keycode::Keycode3) == KeyView::Character(seq!['3']),
        logical_key(key_char, Keycode::Keycode4) == KeyView::Character(seq!['4']),
        logical_key(key_char, Keycode::Keycode5) == KeyView::Character(seq!['5']),
        logical_key(key_char, Keycode::Keycode6) == KeyView::Character(seq!['6']),
        logical_key(key_char, Keycode::Keycode7) == KeyView::Character(seq!['7']),
        logical_key(key_char, Keycode::Keycode8) == KeyView::Character(seq!['8']),
        logical_key(key_char, Keycode::Keycode9) == KeyView::Character(seq!['9']),
        logical_key(key_char, Keycode::Numpad0) == KeyView::Character(seq!['0']),
        logical_key(key_char, Keycode::Numpad1) == KeyView::Character(seq!['1']),
        logical_key(key_char, Keycode::Numpad2) == KeyView::Character(seq!['2']),
        logical_key(key_char, Keycode::Numpad3) == KeyView::Character(seq!['3']),
        logical_key(key_char, Keycode::Numpad4) == KeyView::Character(seq!['4']),
        logical_key(key_char, Keycode::Numpad5) == KeyView::Character(seq!['5']),
        logical_key(key_char, Keycode::Numpad6) == KeyView::Character(seq!['6']),
        logical_key(key_char, Keycode::Numpad7) == KeyView::Character(seq!['7']),
        logical_key(key_char, Keycode::Numpad8) == KeyView::Character(seq!['8']),
        logical_key(key_char, Keycode::Numpad9) == KeyView::Character(seq!['9']),
{
}

/// The meta state bit of the Shift keys.
pub const META_SHIFT_ON: u32 = 0x1;

/// The meta state bit of the Alt keys.
pub const META_ALT_ON: u32 = 0x2;

/// The meta state bit of the Ctrl keys.
pub const META_CTRL_ON: u32 = 0x1000;

/// The meta state bit of the Meta keys.
pub const META_META_ON: u32 = 0x10000;

/// The modifier bits of an Android key event.
#[derive(Clone, Copy, Debug, PartialEq, Eq, Structural)]
pub struct MetaState(pub u32);

impl MetaState {
    /// Whether any bit of `mask` is set.
    pub open spec fn has(self, mask: u32) -> bool {
        self.0 & mask != 0
    }

    pub fn shift_on(self) -> (r: bool)
        ensures
            r == self.has(META_SHIFT_ON),
    {
        self.0 & META_SHIFT_ON != 0
    }

    pub fn alt_on(self) -> (r: bool)
        ensures
            r == self.has(META_ALT_ON),
    {
        self.0 & META_ALT_ON != 0
    }

    pub fn ctrl_on(self) -> (r: bool)
        ensures
            r == self.has(META_CTRL_ON),
    {
        self.0 & META_CTRL_ON != 0
    }

    pub fn meta_on(self) -> (r: bool)
        ensures
            r == self.has(META_META_ON),
    {
        self.0 & META_META_ON != 0
    }
}

/// Which modifier keys are held.
#[derive(Clone, Copy, Debug, PartialEq, Eq, Structural)]
pub struct ModifiersState {
    pub shift: bool,
    pub control: bool,
    pub alt: bool,
    pub meta: bool,
}

impl ModifiersState {
    pub fn shift_key(&self) -> (r: bool)
        ensures
            r == self.shift,
    {
        self.shift
    }

    pub fn control_key(&self) -> (r: bool)
        ensures
            r == self.control,
    {
        self.control
    }

    pub fn alt_key(&self) -> (r: bool)
        ensures
            r == self.alt,
    {
        self.alt
    }

    pub fn meta_key(&self) -> (r: bool)
        ensures
            r == self.meta,
    {
        self.meta
    }
}

/// The modifiers that an Android meta state sample reports held.
pub fn modifiers_from_android(state: MetaState) -> (r: ModifiersState)
    ensures
        r.shift == state.has(META_SHIFT_ON),
        r.control == state.has(META_CTRL_ON),
        r.alt == state.has(META_ALT_ON),
        r.meta == state.has(META_META_ON),
{
    ModifiersState {
        shift: state.shift_on(),
        control: state.ctrl_on(),
        alt: state.alt_on(),
        meta: state.meta_on(),
    }
}

} // verus!
