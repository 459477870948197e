//! The native library's enumerations, each with the integer that the
//! native side knows it by.

use vstd::prelude::*;

verus! {

/// What a window is asked to be: one bit each.
#[derive(Debug, Clone, Copy, PartialEq, Eq, Hash, Structural)]
pub enum ConfigFlags {
    Vsync,
    Fullscreen,
    Resizable,
    Undecorated,
    Hidden,
    Minimized,
    Maximized,
    Unfocused,
    AlwaysOnTop,
    AlwaysRun,
    Transparent,
    HighDPI,
    MousePassthrough,
    Borderless,
    Msaa4X,
    Interlaced,
}

impl ConfigFlags {
    /// The integer that stands for the variant on the native side.
    pub open spec fn spec_value(self) -> u32 {
        match self {
            ConfigFlags::Vsync => 64,
            ConfigFlags::Fullscreen => 2,
            ConfigFlags::Resizable => 4,
            ConfigFlags::Undecorated => 8,
            ConfigFlags::Hidden => 128,
            ConfigFlags::Minimized => 512,
            ConfigFlags::Maximized => 1024,
            ConfigFlags::Unfocused => 2048,
            ConfigFlags::AlwaysOnTop => 4096,
            ConfigFlags::AlwaysRun => 256,
            ConfigFlags::Transparent => 16,
            ConfigFlags::HighDPI => 8192,
            ConfigFlags::MousePassthrough => 16384,
            ConfigFlags::Borderless => 32768,
            ConfigFlags::Msaa4X => 32,
            ConfigFlags::Interlaced => 65536,
        }
    }

    pub fn value(self) -> (r: u32)
        ensures
            r == self.spec_value(),
    {
        match self {
            ConfigFlags::Vsync => 64,
            ConfigFlags::Fullscreen => 2,
            ConfigFlags::Resizable => 4,
            ConfigFlags::Undecorated => 8,
            ConfigFlags::Hidden => 128,
            ConfigFlags::Minimized => 512,
            ConfigFlags::Maximized => 1024,
            ConfigFlags::Unfocused => 2048,
            ConfigFlags::AlwaysOnTop => 4096,
            ConfigFlags::AlwaysRun => 256,
            ConfigFlags::Transparent => 16,
            ConfigFlags::HighDPI => 8192,
            ConfigFlags::MousePassthrough => 16384,
            ConfigFlags::Borderless => 32768,
            ConfigFlags::Msaa4X => 32,
            ConfigFlags::Interlaced => 65536,
        }
    }
}

/// How much the native library logs.
#[derive(Debug, Clone, Copy, PartialEq, Eq, Hash, Structural)]
pub enum TraceLogLevel {
    All,
    Trace,
    Debug,
    Info,
    Warning,
    Error,
    Fatal,
    Off,
}

impl TraceLogLevel {
    /// The integer that stands for the variant on the native side.
    pub open spec fn spec_value(self) -> u32 {
        match self {
            TraceLogLevel::All => 0,
            TraceLogLevel::Trace => 1,
            TraceLogLevel::Debug => 2,
            TraceLogLevel::Info => 3,
            TraceLogLevel::Warning => 4,
            TraceLogLevel::Error => 5,
            TraceLogLevel::Fatal => 6,
            TraceLogLevel::Off => 7,
        }
    }

    pub fn value(self) -> (r: u32)
        ensures
            r == self.spec_value(),
    {
        match self {
            TraceLogLevel::All => 0,
            TraceLogLevel::Trace => 1,
            TraceLogLevel::Debug => 2,
            TraceLogLevel::Info => 3,
            TraceLogLevel::Warning => 4,
            TraceLogLevel::Error => 5,
            TraceLogLevel::Fatal => 6,
            TraceLogLevel::Off => 7,
        }
    }
}

/// The keys of a keyboard, by their native codes.
#[derive(Debug, Clone, Copy, PartialEq, Eq, Hash, Structural)]
pub enum KeyboardKey {
    Null,
    Apostrophe,
    Comma,
    Minus,
    Period,
    Slash,
    Zero,
    One,
    Two,
    Three,
    Four,
    Five,
    Six,
    Seven,
    Eight,
    Nine,
    Semicolon,
    Equal,
    A,
    B,
    C,
    D,
    E,
    F,
    G,
    H,
    I,
    J,
    K,
    L,
    M,
    N,
    O,
    P,
    Q,
    R,
    S,
    T,
    U,
    V,
    W,
    X,
    Y,
    Z,
    LeftBracket,
    Backslash,
    RightBracket,
    Grave,
    Space,
    Escape,
    Enter,
    Tab,
    Backspace,
    Insert,
    Delete,
    Right,
    Left,
    Down,
    Up,
    PageUp,
    PageDown,
    Home,
    End,
    CapsLock,
    ScrollLock,
    NumLock,
    PrintScreen,
    Pause,
    F1,
    F2,
    F3,
    F4,
    F5,
    F6,
    F7,
    F8,
    F9,
    F10,
    F11,
    F12,
    LeftShift,
    LeftControl,
    LeftAlt,
    LeftSuper,
    RightShift,
    RightControl,
    RightAlt,
    RightSuper,
    KbMenu,
    NumPad0,
    NumPad1,
    NumPad2,
    NumPad3,
    NumPad4,
    NumPad5,
    NumPad6,
    NumPad7,
    NumPad8,
    NumPad9,
    NumPadDecimal,
    NumPadDivide,
    NumPadMultiply,
    NumPadSubtract,
    NumPadAdd,
    NumPadEnter,
    NumPadEqual,
    Back,
    Menu,
    VolumeUp,
    VolumeDown,
}

impl KeyboardKey {
    /// The integer that stands for the variant on the native side.
    pub open spec fn spec_value(self) -> u32 {
        match self {
            KeyboardKey::Null => 0,
            KeyboardKey::Apostrophe => 39,
            KeyboardKey::Comma => 44,
            KeyboardKey::Minus => 45,
            KeyboardKey::Period => 46,
            KeyboardKey::Slash => 47,
            KeyboardKey::Zero => 48,
            KeyboardKey::One => 49,
            KeyboardKey::Two => 50,
            KeyboardKey::Three => 51,
            KeyboardKey::Four => 52,
            KeyboardKey::Five => 53,
            KeyboardKey::Six => 54,
            KeyboardKey::Seven => 55,
            KeyboardKey::Eight => 56,
            KeyboardKey::Nine => 57,
            KeyboardKey::Semicolon => 59,
            KeyboardKey::Equal => 61,
            KeyboardKey::A => 65,
            KeyboardKey::B => 66,
            KeyboardKey::C => 67,
            KeyboardKey::D => 68,
            KeyboardKey::E => 69,
            KeyboardKey::F => 70,
            KeyboardKey::G => 71,
            KeyboardKey::H => 72,
            KeyboardKey::I => 73,
            KeyboardKey::J => 74,
            KeyboardKey::K => 75,
            KeyboardKey::L => 76,
            KeyboardKey::M => 77,
            KeyboardKey::N => 78,
            KeyboardKey::O => 79,
            KeyboardKey::P => 80,
            KeyboardKey::Q => 81,
            KeyboardKey::R => 82,
            KeyboardKey::S => 83,
            KeyboardKey::T => 84,
            KeyboardKey::U => 85,
            KeyboardKey::V => 86,
            KeyboardKey::W => 87,
            KeyboardKey::X => 88,
            KeyboardKey::Y => 89,
            KeyboardKey::Z => 90,
            KeyboardKey::LeftBracket => 91,
            KeyboardKey::Backslash => 92,
            KeyboardKey::RightBracket => 93,
            KeyboardKey::Grave => 96,
            KeyboardKey::Space => 32,
            KeyboardKey::Escape => 256,
            KeyboardKey::Enter => 257,
            KeyboardKey::Tab => 258,
            KeyboardKey::Backspace => 259,
            KeyboardKey::Insert => 260,
            KeyboardKey::Delete => 261,
            KeyboardKey::Right => 262,
            KeyboardKey::Left => 263,
            KeyboardKey::Down => 264,
            KeyboardKey::Up => 265,
            KeyboardKey::PageUp => 266,
            KeyboardKey::PageDown => 267,
            KeyboardKey::Home => 268,
            KeyboardKey::End => 269,
            KeyboardKey::CapsLock => 280,
            KeyboardKey::ScrollLock => 281,
            KeyboardKey::NumLock => 282,
            KeyboardKey::PrintScreen => 283,
            KeyboardKey::Pause => 284,
            KeyboardKey::F1 => 290,
            KeyboardKey::F2 => 291,
            KeyboardKey::F3 => 292,
            KeyboardKey::F4 => 293,
            KeyboardKey::F5 => 294,
            KeyboardKey::F6 => 295,
            KeyboardKey::F7 => 296,
            KeyboardKey::F8 => 297,
            KeyboardKey::F9 => 298,
            KeyboardKey::F10 => 299,
            KeyboardKey::F11 => 300,
            KeyboardKey::F12 => 301,
            KeyboardKey::LeftShift => 340,
            KeyboardKey::LeftControl => 341,
            KeyboardKey::LeftAlt => 342,
            KeyboardKey::LeftSuper => 343,
            KeyboardKey::RightShift => 344,
            KeyboardKey::RightControl => 345,
            KeyboardKey::RightAlt => 346,
            KeyboardKey::RightSuper => 347,
            KeyboardKey::KbMenu => 348,
            KeyboardKey::NumPad0 => 320,
            KeyboardKey::NumPad1 => 321,
            KeyboardKey::NumPad2 => 322,
            KeyboardKey::NumPad3 => 323,
            KeyboardKey::NumPad4 => 324,
            KeyboardKey::NumPad5 => 325,
            KeyboardKey::NumPad6 => 326,
            KeyboardKey::NumPad7 => 327,
            KeyboardKey::NumPad8 => 328,
            KeyboardKey::NumPad9 => 329,
            KeyboardKey::NumPadDecimal => 330,
            KeyboardKey::NumPadDivide => 331,
            KeyboardKey::NumPadMultiply => 332,
            KeyboardKey::NumPadSubtract => 333,
            KeyboardKey::NumPadAdd => 334,
            KeyboardKey::NumPadEnter => 335,
            KeyboardKey::NumPadEqual => 336,
            KeyboardKey::Back => 4,
            KeyboardKey::Menu => 5,
            KeyboardKey::VolumeUp => 24,
            KeyboardKey::VolumeDown => 25,
        }
    }

    pub fn value(self) -> (r: u32)
        ensures
            r == self.spec_value(),
    {
        match self {
            KeyboardKey::Null => 0,
            KeyboardKey::Apostrophe => 39,
            KeyboardKey::Comma => 44,
            KeyboardKey::Minus => 45,
            KeyboardKey::Period => 46,
            KeyboardKey::Slash => 47,
            KeyboardKey::Zero => 48,
            KeyboardKey::One => 49,
            KeyboardKey::Two => 50,
            KeyboardKey::Three => 51,
            KeyboardKey::Four => 52,
            KeyboardKey::Five => 53,
            KeyboardKey::Six => 54,
            KeyboardKey::Seven => 55,
            KeyboardKey::Eight => 56,
            KeyboardKey::Nine => 57,
            KeyboardKey::Semicolon => 59,
            KeyboardKey::Equal => 61,
            KeyboardKey::A => 65,
            KeyboardKey::B => 66,
            KeyboardKey::C => 67,
            KeyboardKey::D => 68,
            KeyboardKey::E => 69,
            KeyboardKey::F => 70,
            KeyboardKey::G => 71,
            KeyboardKey::H => 72,
            KeyboardKey::I => 73,
            KeyboardKey::J => 74,
            KeyboardKey::K => 75,
            KeyboardKey::L => 76,
            KeyboardKey::M => 77,
            KeyboardKey::N => 78,
            KeyboardKey::O => 79,
            KeyboardKey::P => 80,
            KeyboardKey::Q => 81,
            KeyboardKey::R => 82,
            KeyboardKey::S => 83,
            KeyboardKey::T => 84,
            KeyboardKey::U => 85,
            KeyboardKey::V => 86,
            KeyboardKey::W => 87,
            KeyboardKey::X => 88,
            KeyboardKey::Y => 89,
            KeyboardKey::Z => 90,
            KeyboardKey::LeftBracket => 91,
            KeyboardKey::Backslash => 92,
            KeyboardKey::RightBracket => 93,
            KeyboardKey::Grave => 96,
            KeyboardKey::Space => 32,
            KeyboardKey::Escape => 256,
            KeyboardKey::Enter => 257,
            KeyboardKey::Tab => 258,
            KeyboardKey::Backspace => 259,
            KeyboardKey::Insert => 260,
            KeyboardKey::Delete => 261,
            KeyboardKey::Right => 262,
            KeyboardKey::Left => 263,
            KeyboardKey::Down => 264,
            KeyboardKey::Up => 265,
            KeyboardKey::PageUp => 266,
            KeyboardKey::PageDown => 267,
            KeyboardKey::Home => 268,
            KeyboardKey::End => 269,
            KeyboardKey::CapsLock => 280,
            KeyboardKey::ScrollLock => 281,
            KeyboardKey::NumLock => 282,
            KeyboardKey::PrintScreen => 283,
            KeyboardKey::Pause => 284,
            KeyboardKey::F1 => 290,
            KeyboardKey::F2 => 291,
            KeyboardKey::F3 => 292,
            KeyboardKey::F4 => 293,
            KeyboardKey::F5 => 294,
            KeyboardKey::F6 => 295,
            KeyboardKey::F7 => 296,
            KeyboardKey::F8 => 297,
            KeyboardKey::F9 => 298,
            KeyboardKey::F10 => 299,
            KeyboardKey::F11 => 300,
            KeyboardKey::F12 => 301,
            KeyboardKey::LeftShift => 340,
            KeyboardKey::LeftControl => 341,
            KeyboardKey::LeftAlt => 342,
            KeyboardKey::LeftSuper => 343,
            KeyboardKey::RightShift => 344,
            KeyboardKey::RightControl => 345,
            KeyboardKey::RightAlt => 346,
            KeyboardKey::RightSuper => 347,
            KeyboardKey::KbMenu => 348,
            KeyboardKey::NumPad0 => 320,
            KeyboardKey::NumPad1 => 321,
            KeyboardKey::NumPad2 => 322,
            KeyboardKey::NumPad3 => 323,
            KeyboardKey::NumPad4 => 324,
            KeyboardKey::NumPad5 => 325,
            KeyboardKey::NumPad6 => 326,
            KeyboardKey::NumPad7 => 327,
            KeyboardKey::NumPad8 => 328,
            KeyboardKey::NumPad9 => 329,
            KeyboardKey::NumPadDecimal => 330,
            KeyboardKey::NumPadDivide => 331,
            KeyboardKey::NumPadMultiply => 332,
            KeyboardKey::NumPadSubtract => 333,
            KeyboardKey::NumPadAdd => 334,
            KeyboardKey::NumPadEnter => 335,
            KeyboardKey::NumPadEqual => 336,
            KeyboardKey::Back => 4,
            KeyboardKey::Menu => 5,
            KeyboardKey::VolumeUp => 24,
            KeyboardKey::VolumeDown => 25,
        }
    }

    /// The variant that a native integer stands for, if it stands for one.
    pub open spec fn spec_from_value(value: u32) -> Option<Self> {
        if exists|v: Self| v.spec_value() == value {
            Some(choose|v: Self| v.spec_value() == value)
        } else {
            None
        }
    }

    pub fn from_value(value: u32) -> (r: Option<Self>)
        ensures
            r == Self::spec_from_value(value),
            r matches Some(v) ==> v.spec_value() == value,
            r is None ==> forall|v: Self| v.spec_value() != value,
    {
        if value == 0 {
            assert(KeyboardKey::Null.spec_value() == value);
            Some(KeyboardKey::Null)
        } else if value == 39 {
            assert(KeyboardKey::Apostrophe.spec_value() == value);
            Some(KeyboardKey::Apostrophe)
        } else if value == 44 {
            assert(KeyboardKey::Comma.spec_value() == value);
            Some(KeyboardKey::Comma)
        } else if value == 45 {
            assert(KeyboardKey::Minus.spec_value() == value);
            Some(KeyboardKey::Minus)
        } else if value == 46 {
            assert(KeyboardKey::Period.spec_value() == value);
            Some(KeyboardKey::Period)
        } else if value == 47 {
            assert(KeyboardKey::Slash.spec_value() == value);
            Some(KeyboardKey::Slash)
        } else if value == 48 {
            assert(KeyboardKey::Zero.spec_value() == value);
            Some(KeyboardKey::Zero)
        } else if value == 49 {
            assert(KeyboardKey::One.spec_value() == value);
            Some(KeyboardKey::One)
        } else if value == 50 {
            assert(KeyboardKey::Two.spec_value() == value);
            Some(KeyboardKey::Two)
        } else if value == 51 {
            assert(KeyboardKey::Three.spec_value() == value);
            Some(KeyboardKey::Three)
        } else if value == 52 {
            assert(KeyboardKey::Four.spec_value() == value);
            Some(KeyboardKey::Four)
        } else if value == 53 {
            assert(KeyboardKey::Five.spec_value() == value);
            Some(KeyboardKey::Five)
        } else if value == 54 {
            assert(KeyboardKey::Six.spec_value() == value);
            Some(KeyboardKey::Six)
        } else if value == 55 {
            assert(KeyboardKey::Seven.spec_value() == value);
            Some(KeyboardKey::Seven)
        } else if value == 56 {
            assert(KeyboardKey::Eight.spec_value() == value);
            Some(KeyboardKey::Eight)
        } else if value == 57 {
            assert(KeyboardKey::Nine.spec_value() == value);
            Some(KeyboardKey::Nine)
        } else if value == 59 {
            assert(KeyboardKey::Semicolon.spec_value() == value);
            Some(KeyboardKey::Semicolon)
        } else if value == 61 {
            assert(KeyboardKey::Equal.spec_value() == value);
            Some(KeyboardKey::Equal)
        } else if value == 65 {
            assert(KeyboardKey::A.spec_value() == value);
            Some(KeyboardKey::A)
        } else if value == 66 {
            assert(KeyboardKey::B.spec_value() == value);
            Some(KeyboardKey::B)
        } else if value == 67 {
            assert(KeyboardKey::C.spec_value() == value);
            Some(KeyboardKey::C)
        } else if value == 68 {
            assert(KeyboardKey::D.spec_value() == value);
            Some(KeyboardKey::D)
        } else if value == 69 {
            assert(KeyboardKey::E.spec_value() == value);
            Some(KeyboardKey::E)
        } else if value == 70 {
            assert(KeyboardKey::F.spec_value() == value);
            Some(KeyboardKey::F)
        } else if value == 71 {
            assert(KeyboardKey::G.spec_value() == value);
            Some(KeyboardKey::G)
        } else if value == 72 {
            assert(KeyboardKey::H.spec_value() == value);
            Some(KeyboardKey::H)
        } else if value == 73 {
            assert(KeyboardKey::I.spec_value() == value);
            Some(KeyboardKey::I)
        } else if value == 74 {
            assert(KeyboardKey::J.spec_value() == value);
            Some(KeyboardKey::J)
        } else if value == 75 {
            assert(KeyboardKey::K.spec_value() == value);
            Some(KeyboardKey::K)
        } else if value == 76 {
            assert(KeyboardKey::L.spec_value() == value);
            Some(KeyboardKey::L)
        } else if value == 77 {
            assert(KeyboardKey::M.spec_value() == value);
            Some(KeyboardKey::M)
        } else if value == 78 {
            assert(KeyboardKey::N.spec_value() == value);
            Some(KeyboardKey::N)
        } else if value == 79 {
            assert(KeyboardKey::O.spec_value() == value);
            Some(KeyboardKey::O)
        } else if value == 80 {
            assert(KeyboardKey::P.spec_value() == value);
            Some(KeyboardKey::P)
        } else if value == 81 {
            assert(KeyboardKey::Q.spec_value() == value);
            Some(KeyboardKey::Q)
        } else if value == 82 {
            assert(KeyboardKey::R.spec_value() == value);
            Some(KeyboardKey::R)
        } else if value == 83 {
            assert(KeyboardKey::S.spec_value() == value);
            Some(KeyboardKey::S)
        } else if value == 84 {
            assert(KeyboardKey::T.spec_value() == value);
            Some(KeyboardKey::T)
        } else if value == 85 {
            assert(KeyboardKey::U.spec_value() == value);
            Some(KeyboardKey::U)
        } else if value == 86 {
            assert(KeyboardKey::V.spec_value() == value);
            Some(KeyboardKey::V)
        } else if value == 87 {
            assert(KeyboardKey::W.spec_value() == value);
            Some(KeyboardKey::W)
        } else if value == 88 {
            assert(KeyboardKey::X.spec_value() == value);
            Some(KeyboardKey::X)
        } else if value == 89 {
            assert(KeyboardKey::Y.spec_value() == value);
            Some(KeyboardKey::Y)
        } else if value == 90 {
            assert(KeyboardKey::Z.spec_value() == value);
            Some(KeyboardKey::Z)
        } else if value == 91 {
            assert(KeyboardKey::LeftBracket.spec_value() == value);
            Some(KeyboardKey::LeftBracket)
        } else if value == 92 {
            assert(KeyboardKey::Backslash.spec_value() == value);
            Some(KeyboardKey::Backslash)
        } else if value == 93 {
            assert(KeyboardKey::RightBracket.spec_value() == value);
            Some(KeyboardKey::RightBracket)
        } else if value == 96 {
            assert(KeyboardKey::Grave.spec_value() == value);
            Some(KeyboardKey::Grave)
        } else if value == 32 {
            assert(KeyboardKey::Space.spec_value() == value);
            Some(KeyboardKey::Space)
        } else if value == 256 {
            assert(KeyboardKey::Escape.spec_value() == value);
            Some(KeyboardKey::Escape)
        } else if value == 257 {
            assert(KeyboardKey::Enter.spec_value() == value);
            Some(KeyboardKey::Enter)
        } else if value == 258 {
            assert(KeyboardKey::Tab.spec_value() == value);
            Some(KeyboardKey::Tab)
        } else if value == 259 {
            assert(KeyboardKey::Backspace.spec_value() == value);
            Some(KeyboardKey::Backspace)
        } else if value == 260 {
            assert(KeyboardKey::Insert.spec_value() == value);
            Some(KeyboardKey::Insert)
        } else if value == 261 {
            assert(KeyboardKey::Delete.spec_value() == value);
            Some(KeyboardKey::Delete)
        } else if value == 262 {
            assert(KeyboardKey::Right.spec_value() == value);
            Some(KeyboardKey::Right)
        } else if value == 263 {
            assert(KeyboardKey::Left.spec_value() == value);
            Some(KeyboardKey::Left)
        } else if value == 264 {
            assert(KeyboardKey::Down.spec_value() == value);
            Some(KeyboardKey::Down)
        } else if value == 265 {
            assert(KeyboardKey::Up.spec_value() == value);
            Some(KeyboardKey::Up)
        } else if value == 266 {
            assert(KeyboardKey::PageUp.spec_value() == value);
            Some(KeyboardKey::PageUp)
        } else if value == 267 {
            assert(KeyboardKey::PageDown.spec_value() == value);
            Some(KeyboardKey::PageDown)
        } else if value == 268 {
            assert(KeyboardKey::Home.spec_value() == value);
            Some(KeyboardKey::Home)
        } else if value == 269 {
            assert(KeyboardKey::End.spec_value() == value);
            Some(KeyboardKey::End)
        } else if value == 280 {
            assert(KeyboardKey::CapsLock.spec_value() == value);
            Some(KeyboardKey::CapsLock)
        } else if value == 281 {
            assert(KeyboardKey::ScrollLock.spec_value() == value);
            Some(KeyboardKey::ScrollLock)
        } else if value == 282 {
            assert(KeyboardKey::NumLock.spec_value() == value);
            Some(KeyboardKey::NumLock)
        } else if value == 283 {
            assert(KeyboardKey::PrintScreen.spec_value() == value);
            Some(KeyboardKey::PrintScreen)
        } else if value == 284 {
            assert(KeyboardKey::Pause.spec_value() == value);
            Some(KeyboardKey::Pause)
        } else if value == 290 {
            assert(KeyboardKey::F1.spec_value() == value);
            Some(KeyboardKey::F1)
        } else if value == 291 {
            assert(KeyboardKey::F2.spec_value() == value);
            Some(KeyboardKey::F2)
        } else if value == 292 {
            assert(KeyboardKey::F3.spec_value() == value);
            Some(KeyboardKey::F3)
        } else if value == 293 {
            assert(KeyboardKey::F4.spec_value() == value);
            Some(KeyboardKey::F4)
        } else if value == 294 {
            assert(KeyboardKey::F5.spec_value() == value);
            Some(KeyboardKey::F5)
        } else if value == 295 {
            assert(KeyboardKey::F6.spec_value() == value);
            Some(KeyboardKey::F6)
        } else if value == 296 {
            assert(KeyboardKey::F7.spec_value() == value);
            Some(KeyboardKey::F7)
        } else if value == 297 {
            assert(KeyboardKey::F8.spec_value() == value);
            Some(KeyboardKey::F8)
        } else if value == 298 {
            assert(KeyboardKey::F9.spec_value() == value);
            Some(KeyboardKey::F9)
        } else if value == 299 {
            assert(KeyboardKey::F10.spec_value() == value);
            Some(KeyboardKey::F10)
        } else if value == 300 {
            assert(KeyboardKey::F11.spec_value() == value);
            Some(KeyboardKey::F11)
        } else if value == 301 {
            assert(KeyboardKey::F12.spec_value() == value);
            Some(KeyboardKey::F12)
        } else if value == 340 {
            assert(KeyboardKey::LeftShift.spec_value() == value);
            Some(KeyboardKey::LeftShift)
        } else if value == 341 {
            assert(KeyboardKey::LeftControl.spec_value() == value);
            Some(KeyboardKey::LeftControl)
        } else if value == 342 {
            assert(KeyboardKey::LeftAlt.spec_value() == value);
            Some(KeyboardKey::LeftAlt)
        } else if value == 343 {
            assert(KeyboardKey::LeftSuper.spec_value() == value);
            Some(KeyboardKey::LeftSuper)
        } else if value == 344 {
            assert(KeyboardKey::RightShift.spec_value() == value);
            Some(KeyboardKey::RightShift)
        } else if value == 345 {
            assert(KeyboardKey::RightControl.spec_value() == value);
            Some(KeyboardKey::RightControl)
        } else if value == 346 {
            assert(KeyboardKey::RightAlt.spec_value() == value);
            Some(KeyboardKey::RightAlt)
        } else if value == 347 {
            assert(KeyboardKey::RightSuper.spec_value() == value);
            Some(KeyboardKey::RightSuper)
        } else if value == 348 {
            assert(KeyboardKey::KbMenu.spec_value() == value);
            Some(KeyboardKey::KbMenu)
        } else if value == 320 {
            assert(KeyboardKey::NumPad0.spec_value() == value);
            Some(KeyboardKey::NumPad0)
        } else if value == 321 {
            assert(KeyboardKey::NumPad1.spec_value() == value);
            Some(KeyboardKey::NumPad1)
        } else if value == 322 {
            assert(KeyboardKey::NumPad2.spec_value() == value);
            Some(KeyboardKey::NumPad2)
        } else if value == 323 {
            assert(KeyboardKey::NumPad3.spec_value() == value);
            Some(KeyboardKey::NumPad3)
        } else if value == 324 {
            assert(KeyboardKey::NumPad4.spec_value() == value);
            Some(KeyboardKey::NumPad4)
        } else if value == 325 {
            assert(KeyboardKey::NumPad5.spec_value() == value);
            Some(KeyboardKey::NumPad5)
        } else if value == 326 {
            assert(KeyboardKey::NumPad6.spec_value() == value);
            Some(KeyboardKey::NumPad6)
        } else if value == 327 {
            assert(KeyboardKey::NumPad7.spec_value() == value);
            Some(KeyboardKey::NumPad7)
        } else if value == 328 {
            assert(KeyboardKey::NumPad8.spec_value() == value);
            Some(KeyboardKey::NumPad8)
        } else if value == 329 {
            assert(KeyboardKey::NumPad9.spec_value() == value);
            Some(KeyboardKey::NumPad9)
        } else if value == 330 {
            assert(KeyboardKey::NumPadDecimal.spec_value() == value);
            Some(KeyboardKey::NumPadDecimal)
        } else if value == 331 {
            assert(KeyboardKey::NumPadDivide.spec_value() == value);
            Some(KeyboardKey::NumPadDivide)
        } else if value == 332 {
            assert(KeyboardKey::NumPadMultiply.spec_value() == value);
            Some(KeyboardKey::NumPadMultiply)
        } else if value == 333 {
            assert(KeyboardKey::NumPadSubtract.spec_value() == value);
            Some(KeyboardKey::NumPadSubtract)
        } else if value == 334 {
            assert(KeyboardKey::NumPadAdd.spec_value() == value);
            Some(KeyboardKey::NumPadAdd)
        } else if value == 335 {
            assert(KeyboardKey::NumPadEnter.spec_value() == value);
            Some(KeyboardKey::NumPadEnter)
        } else if value == 336 {
            assert(KeyboardKey::NumPadEqual.spec_value() == value);
            Some(KeyboardKey::NumPadEqual)
        } else if value == 4 {
            assert(KeyboardKey::Back.spec_value() == value);
            Some(KeyboardKey::Back)
        } else if value == 5 {
            assert(KeyboardKey::Menu.spec_value() == value);
            Some(KeyboardKey::Menu)
        } else if value == 24 {
            assert(KeyboardKey::VolumeUp.spec_value() == value);
            Some(KeyboardKey::VolumeUp)
        } else if value == 25 {
            assert(KeyboardKey::VolumeDown.spec_value() == value);
            Some(KeyboardKey::VolumeDown)
        } else {
            None
        }
    }
}

/// The buttons of a mouse.
#[derive(Debug, Clone, Copy, PartialEq, Eq, Hash, Structural)]
pub enum MouseButton {
    Left,
    Right,
    Middle,
    Side,
    Extra,
    Forward,
    Back,
}

impl MouseButton {
    /// The integer that stands for the variant on the native side.
    pub open spec fn spec_value(self) -> u32 {
        match self {
            MouseButton::Left => 0,
            MouseButton::Right => 1,
            MouseButton::Middle => 2,
            MouseButton::Side => 3,
            MouseButton::Extra => 4,
            MouseButton::Forward => 5,
            MouseButton::Back => 6,
        }
    }

    pub fn value(self) -> (r: u32)
        ensures
            r == self.spec_value(),
    {
        match self {
            MouseButton::Left => 0,
            MouseButton::Right => 1,
            MouseButton::Middle => 2,
            MouseButton::Side => 3,
            MouseButton::Extra => 4,
            MouseButton::Forward => 5,
            MouseButton::Back => 6,
        }
    }

    /// The variant that a native integer stands for, if it stands for one.
    pub open spec fn spec_from_value(value: u32) -> Option<Self> {
        if exists|v: Self| v.spec_value() == value {
            Some(choose|v: Self| v.spec_value() == value)
        } else {
            None
        }
    }

    pub fn from_value(value: u32) -> (r: Option<Self>)
        ensures
            r == Self::spec_from_value(value),
            r matches Some(v) ==> v.spec_value() == value,
            r is None ==> forall|v: Self| v.spec_value() != value,
    {
        if value == 0 {
            assert(MouseButton::Left.spec_value() == value);
            Some(MouseButton::Left)
        } else if value == 1 {
            assert(MouseButton::Right.spec_value() == value);
            Some(MouseButton::Right)
        } else if value == 2 {
            assert(MouseButton::Middle.spec_value() == value);
            Some(MouseButton::Middle)
        } else if value == 3 {
            assert(MouseButton::Side.spec_value() == value);
            Some(MouseButton::Side)
        } else if value == 4 {
            assert(MouseButton::Extra.spec_value() == value);
            Some(MouseButton::Extra)
        } else if value == 5 {
            assert(MouseButton::Forward.spec_value() == value);
            Some(MouseButton::Forward)
        } else if value == 6 {
            assert(MouseButton::Back.spec_value() == value);
            Some(MouseButton::Back)
        } else {
            None
        }
    }
}

/// The shapes that the mouse cursor can take.
#[derive(Debug, Clone, Copy, PartialEq, Eq, Hash, Structural)]
pub enum MouseCursor {
    Default,
    Arrow,
    Ibeam,
    Crosshair,
    PointingHand,
    ResizeEw,
    ResizeNs,
    ResizeNwse,
    ResizeNesw,
    ResizeAll,
    NotAllowed,
}

impl MouseCursor {
    /// The integer that stands for the variant on the native side.
    pub open spec fn spec_value(self) -> u32 {
        match self {
            MouseCursor::Default => 0,
            MouseCursor::Arrow => 1,
            MouseCursor::Ibeam => 2,
            MouseCursor::Crosshair => 3,
            MouseCursor::PointingHand => 4,
            MouseCursor::ResizeEw => 5,
            MouseCursor::ResizeNs => 6,
            MouseCursor::ResizeNwse => 7,
            MouseCursor::ResizeNesw => 8,
            MouseCursor::ResizeAll => 9,
            MouseCursor::NotAllowed => 10,
        }
    }

    pub fn value(self) -> (r: u32)
        ensures
            r == self.spec_value(),
    {
        match self {
            MouseCursor::Default => 0,
            MouseCursor::Arrow => 1,
            MouseCursor::Ibeam => 2,
            MouseCursor::Crosshair => 3,
            MouseCursor::PointingHand => 4,
            MouseCursor::ResizeEw => 5,
            MouseCursor::ResizeNs => 6,
            MouseCursor::ResizeNwse => 7,
            MouseCursor::ResizeNesw => 8,
            MouseCursor::ResizeAll => 9,
            MouseCursor::NotAllowed => 10,
        }
    }
}

/// The buttons of a gamepad.
#[derive(Debug, Clone, Copy, PartialEq, Eq, Hash, Structural)]
pub enum GamepadButton {
    Unknown,
    LeftFaceUp,
    LeftFaceRight,
    LeftFaceDown,
    LeftFaceLeft,
    RightFaceUp,
    RightFaceRight,
    RightFaceDown,
    RightFaceLeft,
    LeftTrigger1,
    LeftTrigger2,
    RightTrigger1,
    RightTrigger2,
    MiddleLeft,
    Middle,
    MiddleRight,
    LeftThumb,
    RightThumb,
}

impl GamepadButton {
    /// The integer that stands for the variant on the native side.
    pub open spec fn spec_value(self) -> u32 {
        match self {
            GamepadButton::Unknown => 0,
            GamepadButton::LeftFaceUp => 1,
            GamepadButton::LeftFaceRight => 2,
            GamepadButton::LeftFaceDown => 3,
            GamepadButton::LeftFaceLeft => 4,
            GamepadButton::RightFaceUp => 5,
            GamepadButton::RightFaceRight => 6,
            GamepadButton::RightFaceDown => 7,
            GamepadButton::RightFaceLeft => 8,
            GamepadButton::LeftTrigger1 => 9,
            GamepadButton::LeftTrigger2 => 10,
            GamepadButton::RightTrigger1 => 11,
            GamepadButton::RightTrigger2 => 12,
            GamepadButton::MiddleLeft => 13,
            GamepadButton::Middle => 14,
            GamepadButton::MiddleRight => 15,
            GamepadButton::LeftThumb => 16,
            GamepadButton::RightThumb => 17,
        }
    }

    pub fn value(self) -> (r: u32)
        ensures
            r == self.spec_value(),
    {
        match self {
            GamepadButton::Unknown => 0,
            GamepadButton::LeftFaceUp => 1,
            GamepadButton::LeftFaceRight => 2,
            GamepadButton::LeftFaceDown => 3,
            GamepadButton::LeftFaceLeft => 4,
            GamepadButton::RightFaceUp => 5,
            GamepadButton::RightFaceRight => 6,
            GamepadButton::RightFaceDown => 7,
            GamepadButton::RightFaceLeft => 8,
            GamepadButton::LeftTrigger1 => 9,
            GamepadButton::LeftTrigger2 => 10,
            GamepadButton::RightTrigger1 => 11,
            GamepadButton::RightTrigger2 => 12,
            GamepadButton::MiddleLeft => 13,
            GamepadButton::Middle => 14,
            GamepadButton::MiddleRight => 15,
            GamepadButton::LeftThumb => 16,
            GamepadButton::RightThumb => 17,
        }
    }

    /// The variant that a native integer stands for, if it stands for one.
    pub open spec fn spec_from_value(value: u32) -> Option<Self> {
        if exists|v: Self| v.spec_value() == value {
            Some(choose|v: Self| v.spec_value() == value)
        } else {
            None
        }
    }

    pub fn from_value(value: u32) -> (r: Option<Self>)
        ensures
            r == Self::spec_from_value(value),
            r matches Some(v) ==> v.spec_value() == value,
            r is None ==> forall|v: Self| v.spec_value() != value,
    {
        if value == 0 {
            assert(GamepadButton::Unknown.spec_value() == value);
            Some(GamepadButton::Unknown)
        } else if value == 1 {
            assert(GamepadButton::LeftFaceUp.spec_value() == value);
            Some(GamepadButton::LeftFaceUp)
        } else if value == 2 {
            assert(GamepadButton::LeftFaceRight.spec_value() == value);
            Some(GamepadButton::LeftFaceRight)
        } else if value == 3 {
            assert(GamepadButton::LeftFaceDown.spec_value() == value);
            Some(GamepadButton::LeftFaceDown)
        } else if value == 4 {
            assert(GamepadButton::LeftFaceLeft.spec_value() == value);
            Some(GamepadButton::LeftFaceLeft)
        } else if value == 5 {
            assert(GamepadButton::RightFaceUp.spec_value() == value);
            Some(GamepadButton::RightFaceUp)
        } else if value == 6 {
            assert(GamepadButton::RightFaceRight.spec_value() == value);
            Some(GamepadButton::RightFaceRight)
        } else if value == 7 {
            assert(GamepadButton::RightFaceDown.spec_value() == value);
            Some(GamepadButton::RightFaceDown)
        } else if value == 8 {
            assert(GamepadButton::RightFaceLeft.spec_value() == value);
            Some(GamepadButton::RightFaceLeft)
        } else if value == 9 {
            assert(GamepadButton::LeftTrigger1.spec_value() == value);
            Some(GamepadButton::LeftTrigger1)
        } else if value == 10 {
            assert(GamepadButton::LeftTrigger2.spec_value() == value);
            Some(GamepadButton::LeftTrigger2)
        } else if value == 11 {
            assert(GamepadButton::RightTrigger1.spec_value() == value);
            Some(GamepadButton::RightTrigger1)
        } else if value == 12 {
            assert(GamepadButton::RightTrigger2.spec_value() == value);
            Some(GamepadButton::RightTrigger2)
        } else if value == 13 {
            assert(GamepadButton::MiddleLeft.spec_value() == value);
            Some(GamepadButton::MiddleLeft)
        } else if value == 14 {
            assert(GamepadButton::Middle.spec_value() == value);
            Some(GamepadButton::Middle)
        } else if value == 15 {
            assert(GamepadButton::MiddleRight.spec_value() == value);
            Some(GamepadButton::MiddleRight)
        } else if value == 16 {
            assert(GamepadButton::LeftThumb.spec_value() == value);
            Some(GamepadButton::LeftThumb)
        } else if value == 17 {
            assert(GamepadButton::RightThumb.spec_value() == value);
            Some(GamepadButton::RightThumb)
        } else {
            None
        }
    }
}

/// The axes of a gamepad.
#[derive(Debug, Clone, Copy, PartialEq, Eq, Hash, Structural)]
pub enum GamepadAxis {
    LeftX,
    LeftY,
    RightX,
    RightY,
    LeftTrigger,
    RightTrigger,
}

impl GamepadAxis {
    /// The integer that stands for the variant on the native side.
    pub open spec fn spec_value(self) -> u32 {
        match self {
            GamepadAxis::LeftX => 0,
            GamepadAxis::LeftY => 1,
            GamepadAxis::RightX => 2,
            GamepadAxis::RightY => 3,
            GamepadAxis::LeftTrigger => 4,
            GamepadAxis::RightTrigger => 5,
        }
    }

    pub fn value(self) -> (r: u32)
        ensures
            r == self.spec_value(),
    {
        match self {
            GamepadAxis::LeftX => 0,
            GamepadAxis::LeftY => 1,
            GamepadAxis::RightX => 2,
            GamepadAxis::RightY => 3,
            GamepadAxis::LeftTrigger => 4,
            GamepadAxis::RightTrigger => 5,
        }
    }
}

/// The texture maps of a material.
#[derive(Debug, Clone, Copy, PartialEq, Eq, Hash, Structural)]
pub enum MaterialMapIndex {
    Albedo,
    Metalness,
    Normal,
    Roughness,
    Occlusion,
    Emission,
    Height,
    Cubemap,
    Irradiance,
    Prefilter,
    Brdf,
}

impl MaterialMapIndex {
    /// The integer that stands for the variant on the native side.
    pub open spec fn spec_value(self) -> u32 {
        match self {
            MaterialMapIndex::Albedo => 0,
            MaterialMapIndex::Metalness => 1,
            MaterialMapIndex::Normal => 2,
            MaterialMapIndex::Roughness => 3,
            MaterialMapIndex::Occlusion => 4,
            MaterialMapIndex::Emission => 5,
            MaterialMapIndex::Height => 6,
            MaterialMapIndex::Cubemap => 7,
            MaterialMapIndex::Irradiance => 8,
            MaterialMapIndex::Prefilter => 9,
            MaterialMapIndex::Brdf => 10,
        }
    }

    pub fn value(self) -> (r: u32)
        ensures
            r == self.spec_value(),
    {
        match self {
            MaterialMapIndex::Albedo => 0,
            MaterialMapIndex::Metalness => 1,
            MaterialMapIndex::Normal => 2,
            MaterialMapIndex::Roughness => 3,
            MaterialMapIndex::Occlusion => 4,
            MaterialMapIndex::Emission => 5,
            MaterialMapIndex::Height => 6,
            MaterialMapIndex::Cubemap => 7,
            MaterialMapIndex::Irradiance => 8,
            MaterialMapIndex::Prefilter => 9,
            MaterialMapIndex::Brdf => 10,
        }
    }
}

/// The well-known locations of a shader.
#[derive(Debug, Clone, Copy, PartialEq, Eq, Hash, Structural)]
pub enum ShaderLocationIndex {
    VertexPosition,
    VertexTexcoord01,
    VertexTexcoord02,
    VertexNormal,
    VertexTangent,
    VertexColor,
    MatrixMvp,
    MatrixView,
    MatrixProjection,
    MatrixModel,
    MatrixNormal,
    VectorView,
    ColorDiffuse,
    ColorSpecular,
    ColorAmbient,
    MapAlbedo,
    MapMetalness,
    MapNormal,
    MapRoughness,
    MapOcclusion,
    MapEmission,
    MapHeight,
    MapCubemap,
    MapIrradiance,
    MapPrefilter,
    MapBrdf,
    VertexBoneids,
    VertexBoneweights,
    BoneMatrices,
}

impl ShaderLocationIndex {
    /// The integer that stands for the variant on the native side.
    pub open spec fn spec_value(self) -> u32 {
        match self {
            ShaderLocationIndex::VertexPosition => 0,
            ShaderLocationIndex::VertexTexcoord01 => 1,
            ShaderLocationIndex::VertexTexcoord02 => 2,
            ShaderLocationIndex::VertexNormal => 3,
            ShaderLocationIndex::VertexTangent => 4,
            ShaderLocationIndex::VertexColor => 5,
            ShaderLocationIndex::MatrixMvp => 6,
            ShaderLocationIndex::MatrixView => 7,
            ShaderLocationIndex::MatrixProjection => 8,
            ShaderLocationIndex::MatrixModel => 9,
            ShaderLocationIndex::MatrixNormal => 10,
            ShaderLocationIndex::VectorView => 11,
            ShaderLocationIndex::ColorDiffuse => 12,
            ShaderLocationIndex::ColorSpecular => 13,
            ShaderLocationIndex::ColorAmbient => 14,
            ShaderLocationIndex::MapAlbedo => 15,
            ShaderLocationIndex::MapMetalness => 16,
            ShaderLocationIndex::MapNormal => 17,
            ShaderLocationIndex::MapRoughness => 18,
            ShaderLocationIndex::MapOcclusion => 19,
            ShaderLocationIndex::MapEmission => 20,
            ShaderLocationIndex::MapHeight => 21,
            ShaderLocationIndex::MapCubemap => 22,
            ShaderLocationIndex::MapIrradiance => 23,
            ShaderLocationIndex::MapPrefilter => 24,
            ShaderLocationIndex::MapBrdf => 25,
            ShaderLocationIndex::VertexBoneids => 26,
            ShaderLocationIndex::VertexBoneweights => 27,
            ShaderLocationIndex::BoneMatrices => 28,
        }
    }

    pub fn value(self) -> (r: u32)
        ensures
            r == self.spec_value(),
    {
        match self {
            ShaderLocationIndex::VertexPosition => 0,
            ShaderLocationIndex::VertexTexcoord01 => 1,
            ShaderLocationIndex::VertexTexcoord02 => 2,
            ShaderLocationIndex::VertexNormal => 3,
            ShaderLocationIndex::VertexTangent => 4,
            ShaderLocationIndex::VertexColor => 5,
            ShaderLocationIndex::MatrixMvp => 6,
            ShaderLocationIndex::MatrixView => 7,
            ShaderLocationIndex::MatrixProjection => 8,
            ShaderLocationIndex::MatrixModel => 9,
            ShaderLocationIndex::MatrixNormal => 10,
            ShaderLocationIndex::VectorView => 11,
            ShaderLocationIndex::ColorDiffuse => 12,
            ShaderLocationIndex::ColorSpecular => 13,
            ShaderLocationIndex::ColorAmbient => 14,
            ShaderLocationIndex::MapAlbedo => 15,
            ShaderLocationIndex::MapMetalness => 16,
            ShaderLocationIndex::MapNormal => 17,
            ShaderLocationIndex::MapRoughness => 18,
            ShaderLocationIndex::MapOcclusion => 19,
            ShaderLocationIndex::MapEmission => 20,
            ShaderLocationIndex::MapHeight => 21,
            ShaderLocationIndex::MapCubemap => 22,
            ShaderLocationIndex::MapIrradiance => 23,
            ShaderLocationIndex::MapPrefilter => 24,
            ShaderLocationIndex::MapBrdf => 25,
            ShaderLocationIndex::VertexBoneids => 26,
            ShaderLocationIndex::VertexBoneweights => 27,
            ShaderLocationIndex::BoneMatrices => 28,
        }
    }
}

/// The data types of a shader uniform.
#[derive(Debug, Clone, Copy, PartialEq, Eq, Hash, Structural)]
pub enum ShaderUniformDataType {
    Float,
    Vec2,
    Vec3,
    Vec4,
    Int,
    Ivec2,
    Ivec3,
    Ivec4,
    Sampler2D,
}

impl ShaderUniformDataType {
    /// The integer that stands for the variant on the native side.
    pub open spec fn spec_value(self) -> u32 {
        match self {
            ShaderUniformDataType::Float => 0,
            ShaderUniformDataType::Vec2 => 1,
            ShaderUniformDataType::Vec3 => 2,
            ShaderUniformDataType::Vec4 => 3,
            ShaderUniformDataType::Int => 4,
            ShaderUniformDataType::Ivec2 => 5,
            ShaderUniformDataType::Ivec3 => 6,
            ShaderUniformDataType::Ivec4 => 7,
            ShaderUniformDataType::Sampler2D => 8,
        }
    }

    pub fn value(self) -> (r: u32)
        ensures
            r == self.spec_value(),
    {
        match self {
            ShaderUniformDataType::Float => 0,
            ShaderUniformDataType::Vec2 => 1,
            ShaderUniformDataType::Vec3 => 2,
            ShaderUniformDataType::Vec4 => 3,
            ShaderUniformDataType::Int => 4,
            ShaderUniformDataType::Ivec2 => 5,
            ShaderUniformDataType::Ivec3 => 6,
            ShaderUniformDataType::Ivec4 => 7,
            ShaderUniformDataType::Sampler2D => 8,
        }
    }
}

/// The data types of a shader attribute.
#[derive(Debug, Clone, Copy, PartialEq, Eq, Hash, Structural)]
pub enum ShaderAttributeDataType {
    Float,
    Vec2,
    Vec3,
    Vec4,
}

impl ShaderAttributeDataType {
    /// The integer that stands for the variant on the native side.
    pub open spec fn spec_value(self) -> u32 {
        match self {
            ShaderAttributeDataType::Float => 0,
            ShaderAttributeDataType::Vec2 => 1,
            ShaderAttributeDataType::Vec3 => 2,
            ShaderAttributeDataType::Vec4 => 3,
        }
    }

    pub fn value(self) -> (r: u32)
        ensures
            r == self.spec_value(),
    {
        match self {
            ShaderAttributeDataType::Float => 0,
            ShaderAttributeDataType::Vec2 => 1,
            ShaderAttributeDataType::Vec3 => 2,
            ShaderAttributeDataType::Vec4 => 3,
        }
    }
}

/// The layouts of pixel data.
#[derive(Debug, Clone, Copy, PartialEq, Eq, Hash, Structural)]
pub enum PixelFormat {
    UncompressedGrayscale,
    UncompressedGrayAlpha,
    UncompressedR5G6B5,
    UncompressedR8G8B8,
    UncompressedR5G5B5A1,
    UncompressedR4G4B4A4,
    UncompressedR8G8B8A8,
    UncompressedR32,
    UncompressedR32G32B32,
    UncompressedR32G32B32A32,
    UncompressedR16,
    UncompressedR16G16B16,
    UncompressedR16G16B16A16,
    CompressedDxt1Rgb,
    CompressedDxt1Rgba,
    CompressedDxt3Rgba,
    CompressedDxt5Rgba,
    CompressedEtc1Rgb,
    CompressedEtc2Rgb,
    CompressedEtc2EacRgba,
    CompressedPvrtRgb,
    CompressedPvrtRgba,
    CompressedAstc4X4Rgba,
    CompressedAstc8X8Rgba,
}

impl PixelFormat {
    /// The integer that stands for the variant on the native side.
    pub open spec fn spec_value(self) -> u32 {
        match self {
            PixelFormat::UncompressedGrayscale => 1,
            PixelFormat::UncompressedGrayAlpha => 2,
            PixelFormat::UncompressedR5G6B5 => 3,
            PixelFormat::UncompressedR8G8B8 => 4,
            PixelFormat::UncompressedR5G5B5A1 => 5,
            PixelFormat::UncompressedR4G4B4A4 => 6,
            PixelFormat::UncompressedR8G8B8A8 => 7,
            PixelFormat::UncompressedR32 => 8,
            PixelFormat::UncompressedR32G32B32 => 9,
            PixelFormat::UncompressedR32G32B32A32 => 10,
            PixelFormat::UncompressedR16 => 11,
            PixelFormat::UncompressedR16G16B16 => 12,
            PixelFormat::UncompressedR16G16B16A16 => 13,
            PixelFormat::CompressedDxt1Rgb => 14,
            PixelFormat::CompressedDxt1Rgba => 15,
            PixelFormat::CompressedDxt3Rgba => 16,
            PixelFormat::CompressedDxt5Rgba => 17,
            PixelFormat::CompressedEtc1Rgb => 18,
            PixelFormat::CompressedEtc2Rgb => 19,
            PixelFormat::CompressedEtc2EacRgba => 20,
            PixelFormat::CompressedPvrtRgb => 21,
            PixelFormat::CompressedPvrtRgba => 22,
            PixelFormat::CompressedAstc4X4Rgba => 23,
            PixelFormat::CompressedAstc8X8Rgba => 24,
        }
    }

    pub fn value(self) -> (r: u32)
        ensures
            r == self.spec_value(),
    {
        match self {
            PixelFormat::UncompressedGrayscale => 1,
            PixelFormat::UncompressedGrayAlpha => 2,
            PixelFormat::UncompressedR5G6B5 => 3,
            PixelFormat::UncompressedR8G8B8 => 4,
            PixelFormat::UncompressedR5G5B5A1 => 5,
            PixelFormat::UncompressedR4G4B4A4 => 6,
            PixelFormat::UncompressedR8G8B8A8 => 7,
            PixelFormat::UncompressedR32 => 8,
            PixelFormat::UncompressedR32G32B32 => 9,
            PixelFormat::UncompressedR32G32B32A32 => 10,
            PixelFormat::UncompressedR16 => 11,
            PixelFormat::UncompressedR16G16B16 => 12,
            PixelFormat::UncompressedR16G16B16A16 => 13,
            PixelFormat::CompressedDxt1Rgb => 14,
            PixelFormat::CompressedDxt1Rgba => 15,
            PixelFormat::CompressedDxt3Rgba => 16,
            PixelFormat::CompressedDxt5Rgba => 17,
            PixelFormat::CompressedEtc1Rgb => 18,
            PixelFormat::CompressedEtc2Rgb => 19,
            PixelFormat::CompressedEtc2EacRgba => 20,
            PixelFormat::CompressedPvrtRgb => 21,
            PixelFormat::CompressedPvrtRgba => 22,
            PixelFormat::CompressedAstc4X4Rgba => 23,
            PixelFormat::CompressedAstc8X8Rgba => 24,
        }
    }
}

/// How a texture is sampled.
#[derive(Debug, Clone, Copy, PartialEq, Eq, Hash, Structural)]
pub enum TextureFilter {
    Point,
    Bilinear,
    Trilinear,
    Anisotropic4X,
    Anisotropic8X,
    Anisotropic16X,
}

impl TextureFilter {
    /// The integer that stands for the variant on the native side.
    pub open spec fn spec_value(self) -> u32 {
        match self {
            TextureFilter::Point => 0,
            TextureFilter::Bilinear => 1,
            TextureFilter::Trilinear => 2,
            TextureFilter::Anisotropic4X => 3,
            TextureFilter::Anisotropic8X => 4,
            TextureFilter::Anisotropic16X => 5,
        }
    }

    pub fn value(self) -> (r: u32)
        ensures
            r == self.spec_value(),
    {
        match self {
            TextureFilter::Point => 0,
            TextureFilter::Bilinear => 1,
            TextureFilter::Trilinear => 2,
            TextureFilter::Anisotropic4X => 3,
            TextureFilter::Anisotropic8X => 4,
            TextureFilter::Anisotropic16X => 5,
        }
    }
}

/// How a texture repeats beyond its edge.
#[derive(Debug, Clone, Copy, PartialEq, Eq, Hash, Structural)]
pub enum TextureWrap {
    Repeat,
    Clamp,
    MirrorRepeat,
    MirrorClamp,
}

impl TextureWrap {
    /// The integer that stands for the variant on the native side.
    pub open spec fn spec_value(self) -> u32 {
        match self {
            TextureWrap::Repeat => 0,
            TextureWrap::Clamp => 1,
            TextureWrap::MirrorRepeat => 2,
            TextureWrap::MirrorClamp => 3,
        }
    }

    pub fn value(self) -> (r: u32)
        ensures
            r == self.spec_value(),
    {
        match self {
            TextureWrap::Repeat => 0,
            TextureWrap::Clamp => 1,
            TextureWrap::MirrorRepeat => 2,
            TextureWrap::MirrorClamp => 3,
        }
    }
}

/// How the six faces of a cubemap lie in an image.
#[derive(Debug, Clone, Copy, PartialEq, Eq, Hash, Structural)]
pub enum CubemapLayout {
    AutoDetect,
    LineVertical,
    LineHorizontal,
    CrossThreeByFour,
    CrossFourByThree,
}

impl CubemapLayout {
    /// The integer that stands for the variant on the native side.
    pub open spec fn spec_value(self) -> u32 {
        match self {
            CubemapLayout::AutoDetect => 0,
            CubemapLayout::LineVertical => 1,
            CubemapLayout::LineHorizontal => 2,
            CubemapLayout::CrossThreeByFour => 3,
            CubemapLayout::CrossFourByThree => 4,
        }
    }

    pub fn value(self) -> (r: u32)
        ensures
            r == self.spec_value(),
    {
        match self {
            CubemapLayout::AutoDetect => 0,
            CubemapLayout::LineVertical => 1,
            CubemapLayout::LineHorizontal => 2,
            CubemapLayout::CrossThreeByFour => 3,
            CubemapLayout::CrossFourByThree => 4,
        }
    }
}

/// How a font's glyphs are rasterised.
#[derive(Debug, Clone, Copy, PartialEq, Eq, Hash, Structural)]
pub enum FontType {
    FontDefault,
    FontBitmap,
    FontSdf,
}

impl FontType {
    /// The integer that stands for the variant on the native side.
    pub open spec fn spec_value(self) -> u32 {
        match self {
            FontType::FontDefault => 0,
            FontType::FontBitmap => 1,
            FontType::FontSdf => 2,
        }
    }

    pub fn value(self) -> (r: u32)
        ensures
            r == self.spec_value(),
    {
        match self {
            FontType::FontDefault => 0,
            FontType::FontBitmap => 1,
            FontType::FontSdf => 2,
        }
    }
}

/// How drawn colours combine with those below.
#[derive(Debug, Clone, Copy, PartialEq, Eq, Hash, Structural)]
pub enum BlendMode {
    Alpha,
    Additive,
    Multiplied,
    AddColors,
    SubtractColors,
    AlphaPremultiply,
    Custom,
    CustomSeparate,
}

impl BlendMode {
    /// The integer that stands for the variant on the native side.
    pub open spec fn spec_value(self) -> u32 {
        match self {
            BlendMode::Alpha => 0,
            BlendMode::Additive => 1,
            BlendMode::Multiplied => 2,
            BlendMode::AddColors => 3,
            BlendMode::SubtractColors => 4,
            BlendMode::AlphaPremultiply => 5,
            BlendMode::Custom => 6,
            BlendMode::CustomSeparate => 7,
        }
    }

    pub fn value(self) -> (r: u32)
        ensures
            r == self.spec_value(),
    {
        match self {
            BlendMode::Alpha => 0,
            BlendMode::Additive => 1,
            BlendMode::Multiplied => 2,
            BlendMode::AddColors => 3,
            BlendMode::SubtractColors => 4,
            BlendMode::AlphaPremultiply => 5,
            BlendMode::Custom => 6,
            BlendMode::CustomSeparate => 7,
        }
    }
}

/// The touch gestures, one bit each.
#[derive(Debug, Clone, Copy, PartialEq, Eq, Hash, Structural)]
pub enum Gesture {
    NoGesture,
    Tap,
    Doubletap,
    Hold,
    Drag,
    SwipeRight,
    SwipeLeft,
    SwipeUp,
    SwipeDown,
    PinchIn,
    PinchOut,
}

impl Gesture {
    /// The integer that stands for the variant on the native side.
    pub open spec fn spec_value(self) -> u32 {
        match self {
            Gesture::NoGesture => 0,
            Gesture::Tap => 1,
            Gesture::Doubletap => 2,
            Gesture::Hold => 4,
            Gesture::Drag => 8,
            Gesture::SwipeRight => 16,
            Gesture::SwipeLeft => 32,
            Gesture::SwipeUp => 64,
            Gesture::SwipeDown => 128,
            Gesture::PinchIn => 256,
            Gesture::PinchOut => 512,
        }
    }

    pub fn value(self) -> (r: u32)
        ensures
            r == self.spec_value(),
    {
        match self {
            Gesture::NoGesture => 0,
            Gesture::Tap => 1,
            Gesture::Doubletap => 2,
            Gesture::Hold => 4,
            Gesture::Drag => 8,
            Gesture::SwipeRight => 16,
            Gesture::SwipeLeft => 32,
            Gesture::SwipeUp => 64,
            Gesture::SwipeDown => 128,
            Gesture::PinchIn => 256,
            Gesture::PinchOut => 512,
        }
    }

    /// The variant that a native integer stands for, if it stands for one.
    pub open spec fn spec_from_value(value: u32) -> Option<Self> {
        if exists|v: Self| v.spec_value() == value {
            Some(choose|v: Self| v.spec_value() == value)
        } else {
            None
        }
    }

    pub fn from_value(value: u32) -> (r: Option<Self>)
        ensures
            r == Self::spec_from_value(value),
            r matches Some(v) ==> v.spec_value() == value,
            r is None ==> forall|v: Self| v.spec_value() != value,
    {
        if value == 0 {
            assert(Gesture::NoGesture.spec_value() == value);
            Some(Gesture::NoGesture)
        } else if value == 1 {
            assert(Gesture::Tap.spec_value() == value);
            Some(Gesture::Tap)
        } else if value == 2 {
            assert(Gesture::Doubletap.spec_value() == value);
            Some(Gesture::Doubletap)
        } else if value == 4 {
            assert(Gesture::Hold.spec_value() == value);
            Some(Gesture::Hold)
        } else if value == 8 {
            assert(Gesture::Drag.spec_value() == value);
            Some(Gesture::Drag)
        } else if value == 16 {
            assert(Gesture::SwipeRight.spec_value() == value);
            Some(Gesture::SwipeRight)
        } else if value == 32 {
            assert(Gesture::SwipeLeft.spec_value() == value);
            Some(Gesture::SwipeLeft)
        } else if value == 64 {
            assert(Gesture::SwipeUp.spec_value() == value);
            Some(Gesture::SwipeUp)
        } else if value == 128 {
            assert(Gesture::SwipeDown.spec_value() == value);
            Some(Gesture::SwipeDown)
        } else if value == 256 {
            assert(Gesture::PinchIn.spec_value() == value);
            Some(Gesture::PinchIn)
        } else if value == 512 {
            assert(Gesture::PinchOut.spec_value() == value);
            Some(Gesture::PinchOut)
        } else {
            None
        }
    }
}

/// How a camera follows input.
#[derive(Debug, Clone, Copy, PartialEq, Eq, Hash, Structural)]
pub enum CameraMode {
    Custom,
    Free,
    Orbital,
    FirstPerson,
    ThirdPerson,
}

impl CameraMode {
    /// The integer that stands for the variant on the native side.
    pub open spec fn spec_value(self) -> u32 {
        match self {
            CameraMode::Custom => 0,
            CameraMode::Free => 1,
            CameraMode::Orbital => 2,
            CameraMode::FirstPerson => 3,
            CameraMode::ThirdPerson => 4,
        }
    }

    pub fn value(self) -> (r: u32)
        ensures
            r == self.spec_value(),
    {
        match self {
            CameraMode::Custom => 0,
            CameraMode::Free => 1,
            CameraMode::Orbital => 2,
            CameraMode::FirstPerson => 3,
            CameraMode::ThirdPerson => 4,
        }
    }
}

/// How a camera projects the scene.
#[derive(Debug, Clone, Copy, PartialEq, Eq, Hash, Structural)]
pub enum CameraProjection {
    Perspective,
    Orthographic,
}

impl CameraProjection {
    /// The integer that stands for the variant on the native side.
    pub open spec fn spec_value(self) -> u32 {
        match self {
            CameraProjection::Perspective => 0,
            CameraProjection::Orthographic => 1,
        }
    }

    pub fn value(self) -> (r: u32)
        ensures
            r == self.spec_value(),
    {
        match self {
            CameraProjection::Perspective => 0,
            CameraProjection::Orthographic => 1,
        }
    }
}

/// How an n-patch is cut.
#[derive(Debug, Clone, Copy, PartialEq, Eq, Hash, Structural)]
pub enum NPatchLayout {
    NinePatch,
    ThreePatchVertical,
    ThreePatchHorizontal,
}

impl NPatchLayout {
    /// The integer that stands for the variant on the native side.
    pub open spec fn spec_value(self) -> u32 {
        match self {
            NPatchLayout::NinePatch => 0,
            NPatchLayout::ThreePatchVertical => 1,
            NPatchLayout::ThreePatchHorizontal => 2,
        }
    }

    pub fn value(self) -> (r: u32)
        ensures
            r == self.spec_value(),
    {
        match self {
            NPatchLayout::NinePatch => 0,
            NPatchLayout::ThreePatchVertical => 1,
            NPatchLayout::ThreePatchHorizontal => 2,
        }
    }
}

/// The versions of the graphics interface that the low-level layer can drive.
#[allow(non_camel_case_types)]
#[derive(Debug, Clone, Copy, PartialEq, Eq, Hash, Structural)]
pub enum rlGlVersion {
    RlOpengl11,
    RlOpengl21,
    RlOpengl33,
    RlOpengl43,
    RlOpenglEs20,
    RlOpenglEs30,
}

impl rlGlVersion {
    /// The integer that stands for the variant on the native side.
    pub open spec fn spec_value(self) -> u32 {
        match self {
            rlGlVersion::RlOpengl11 => 1,
            rlGlVersion::RlOpengl21 => 2,
            rlGlVersion::RlOpengl33 => 3,
            rlGlVersion::RlOpengl43 => 4,
            rlGlVersion::RlOpenglEs20 => 5,
            rlGlVersion::RlOpenglEs30 => 6,
        }
    }

    pub fn value(self) -> (r: u32)
        ensures
            r == self.spec_value(),
    {
        match self {
            rlGlVersion::RlOpengl11 => 1,
            rlGlVersion::RlOpengl21 => 2,
            rlGlVersion::RlOpengl33 => 3,
            rlGlVersion::RlOpengl43 => 4,
            rlGlVersion::RlOpenglEs20 => 5,
            rlGlVersion::RlOpenglEs30 => 6,
        }
    }
}

/// How much the low-level layer logs.
#[allow(non_camel_case_types)]
#[derive(Debug, Clone, Copy, PartialEq, Eq, Hash, Structural)]
pub enum rlTraceLogLevel {
    RlLogAll,
    RlLogTrace,
    RlLogDebug,
    RlLogInfo,
    RlLogWarning,
    RlLogError,
    RlLogFatal,
    RlLogNone,
}

impl rlTraceLogLevel {
    /// The integer that stands for the variant on the native side.
    pub open spec fn spec_value(self) -> u32 {
        match self {
            rlTraceLogLevel::RlLogAll => 0,
            rlTraceLogLevel::RlLogTrace => 1,
            rlTraceLogLevel::RlLogDebug => 2,
            rlTraceLogLevel::RlLogInfo => 3,
            rlTraceLogLevel::RlLogWarning => 4,
            rlTraceLogLevel::RlLogError => 5,
            rlTraceLogLevel::RlLogFatal => 6,
            rlTraceLogLevel::RlLogNone => 7,
        }
    }

    pub fn value(self) -> (r: u32)
        ensures
            r == self.spec_value(),
    {
        match self {
            rlTraceLogLevel::RlLogAll => 0,
            rlTraceLogLevel::RlLogTrace => 1,
            rlTraceLogLevel::RlLogDebug => 2,
            rlTraceLogLevel::RlLogInfo => 3,
            rlTraceLogLevel::RlLogWarning => 4,
            rlTraceLogLevel::RlLogError => 5,
            rlTraceLogLevel::RlLogFatal => 6,
            rlTraceLogLevel::RlLogNone => 7,
        }
    }
}

/// The layouts of pixel data, as the low-level layer numbers them.
#[allow(non_camel_case_types)]
#[derive(Debug, Clone, Copy, PartialEq, Eq, Hash, Structural)]
pub enum rlPixelFormat {
    RlPixelformatUncompressedGrayscale,
    RlPixelformatUncompressedGrayAlpha,
    RlPixelformatUncompressedR5G6B5,
    RlPixelformatUncompressedR8G8B8,
    RlPixelformatUncompressedR5G5B5A1,
    RlPixelformatUncompressedR4G4B4A4,
    RlPixelformatUncompressedR8G8B8A8,
    RlPixelformatUncompressedR32,
    RlPixelformatUncompressedR32G32B32,
    RlPixelformatUncompressedR32G32B32A32,
    RlPixelformatUncompressedR16,
    RlPixelformatUncompressedR16G16B16,
    RlPixelformatUncompressedR16G16B16A16,
    RlPixelformatCompressedDxt1Rgb,
    RlPixelformatCompressedDxt1Rgba,
    RlPixelformatCompressedDxt3Rgba,
    RlPixelformatCompressedDxt5Rgba,
    RlPixelformatCompressedEtc1Rgb,
    RlPixelformatCompressedEtc2Rgb,
    RlPixelformatCompressedEtc2EacRgba,
    RlPixelformatCompressedPvrtRgb,
    RlPixelformatCompressedPvrtRgba,
    RlPixelformatCompressedAstc4X4Rgba,
    RlPixelformatCompressedAstc8X8Rgba,
}

impl rlPixelFormat {
    /// The integer that stands for the variant on the native side.
    pub open spec fn spec_value(self) -> u32 {
        match self {
            rlPixelFormat::RlPixelformatUncompressedGrayscale => 1,
            rlPixelFormat::RlPixelformatUncompressedGrayAlpha => 2,
            rlPixelFormat::RlPixelformatUncompressedR5G6B5 => 3,
            rlPixelFormat::RlPixelformatUncompressedR8G8B8 => 4,
            rlPixelFormat::RlPixelformatUncompressedR5G5B5A1 => 5,
            rlPixelFormat::RlPixelformatUncompressedR4G4B4A4 => 6,
            rlPixelFormat::RlPixelformatUncompressedR8G8B8A8 => 7,
            rlPixelFormat::RlPixelformatUncompressedR32 => 8,
            rlPixelFormat::RlPixelformatUncompressedR32G32B32 => 9,
            rlPixelFormat::RlPixelformatUncompressedR32G32B32A32 => 10,
            rlPixelFormat::RlPixelformatUncompressedR16 => 11,
            rlPixelFormat::RlPixelformatUncompressedR16G16B16 => 12,
            rlPixelFormat::RlPixelformatUncompressedR16G16B16A16 => 13,
            rlPixelFormat::RlPixelformatCompressedDxt1Rgb => 14,
            rlPixelFormat::RlPixelformatCompressedDxt1Rgba => 15,
            rlPixelFormat::RlPixelformatCompressedDxt3Rgba => 16,
            rlPixelFormat::RlPixelformatCompressedDxt5Rgba => 17,
            rlPixelFormat::RlPixelformatCompressedEtc1Rgb => 18,
            rlPixelFormat::RlPixelformatCompressedEtc2Rgb => 19,
            rlPixelFormat::RlPixelformatCompressedEtc2EacRgba => 20,
            rlPixelFormat::RlPixelformatCompressedPvrtRgb => 21,
            rlPixelFormat::RlPixelformatCompressedPvrtRgba => 22,
            rlPixelFormat::RlPixelformatCompressedAstc4X4Rgba => 23,
            rlPixelFormat::RlPixelformatCompressedAstc8X8Rgba => 24,
        }
    }

    pub fn value(self) -> (r: u32)
        ensures
            r == self.spec_value(),
    {
        match self {
            rlPixelFormat::RlPixelformatUncompressedGrayscale => 1,
            rlPixelFormat::RlPixelformatUncompressedGrayAlpha => 2,
            rlPixelFormat::RlPixelformatUncompressedR5G6B5 => 3,
            rlPixelFormat::RlPixelformatUncompressedR8G8B8 => 4,
            rlPixelFormat::RlPixelformatUncompressedR5G5B5A1 => 5,
            rlPixelFormat::RlPixelformatUncompressedR4G4B4A4 => 6,
            rlPixelFormat::RlPixelformatUncompressedR8G8B8A8 => 7,
            rlPixelFormat::RlPixelformatUncompressedR32 => 8,
            rlPixelFormat::RlPixelformatUncompressedR32G32B32 => 9,
            rlPixelFormat::RlPixelformatUncompressedR32G32B32A32 => 10,
            rlPixelFormat::RlPixelformatUncompressedR16 => 11,
            rlPixelFormat::RlPixelformatUncompressedR16G16B16 => 12,
            rlPixelFormat::RlPixelformatUncompressedR16G16B16A16 => 13,
            rlPixelFormat::RlPixelformatCompressedDxt1Rgb => 14,
            rlPixelFormat::RlPixelformatCompressedDxt1Rgba => 15,
            rlPixelFormat::RlPixelformatCompressedDxt3Rgba => 16,
            rlPixelFormat::RlPixelformatCompressedDxt5Rgba => 17,
            rlPixelFormat::RlPixelformatCompressedEtc1Rgb => 18,
            rlPixelFormat::RlPixelformatCompressedEtc2Rgb => 19,
            rlPixelFormat::RlPixelformatCompressedEtc2EacRgba => 20,
            rlPixelFormat::RlPixelformatCompressedPvrtRgb => 21,
            rlPixelFormat::RlPixelformatCompressedPvrtRgba => 22,
            rlPixelFormat::RlPixelformatCompressedAstc4X4Rgba => 23,
            rlPixelFormat::RlPixelformatCompressedAstc8X8Rgba => 24,
        }
    }
}

/// How a texture is sampled, as the low-level layer numbers it.
#[allow(non_camel_case_types)]
#[derive(Debug, Clone, Copy, PartialEq, Eq, Hash, Structural)]
pub enum rlTextureFilter {
    RlTextureFilterPoint,
    RlTextureFilterBilinear,
    RlTextureFilterTrilinear,
    RlTextureFilterAnisotropic4X,
    RlTextureFilterAnisotropic8X,
    RlTextureFilterAnisotropic16X,
}

impl rlTextureFilter {
    /// The integer that stands for the variant on the native side.
    pub open spec fn spec_value(self) -> u32 {
        match self {
            rlTextureFilter::RlTextureFilterPoint => 0,
            rlTextureFilter::RlTextureFilterBilinear => 1,
            rlTextureFilter::RlTextureFilterTrilinear => 2,
            rlTextureFilter::RlTextureFilterAnisotropic4X => 3,
            rlTextureFilter::RlTextureFilterAnisotropic8X => 4,
            rlTextureFilter::RlTextureFilterAnisotropic16X => 5,
        }
    }

    pub fn value(self) -> (r: u32)
        ensures
            r == self.spec_value(),
    {
        match self {
            rlTextureFilter::RlTextureFilterPoint => 0,
            rlTextureFilter::RlTextureFilterBilinear => 1,
            rlTextureFilter::RlTextureFilterTrilinear => 2,
            rlTextureFilter::RlTextureFilterAnisotropic4X => 3,
            rlTextureFilter::RlTextureFilterAnisotropic8X => 4,
            rlTextureFilter::RlTextureFilterAnisotropic16X => 5,
        }
    }
}

/// How drawn colours combine, as the low-level layer numbers it.
#[allow(non_camel_case_types)]
#[derive(Debug, Clone, Copy, PartialEq, Eq, Hash, Structural)]
pub enum rlBlendMode {
    RlBlendAlpha,
    RlBlendAdditive,
    RlBlendMultiplied,
    RlBlendAddColors,
    RlBlendSubtractColors,
    RlBlendAlphaPremultiply,
    RlBlendCustom,
    RlBlendCustomSeparate,
}

impl rlBlendMode {
    /// The integer that stands for the variant on the native side.
    pub open spec fn spec_value(self) -> u32 {
        match self {
            rlBlendMode::RlBlendAlpha => 0,
            rlBlendMode::RlBlendAdditive => 1,
            rlBlendMode::RlBlendMultiplied => 2,
            rlBlendMode::RlBlendAddColors => 3,
            rlBlendMode::RlBlendSubtractColors => 4,
            rlBlendMode::RlBlendAlphaPremultiply => 5,
            rlBlendMode::RlBlendCustom => 6,
            rlBlendMode::RlBlendCustomSeparate => 7,
        }
    }

    pub fn value(self) -> (r: u32)
        ensures
            r == self.spec_value(),
    {
        match self {
            rlBlendMode::RlBlendAlpha => 0,
            rlBlendMode::RlBlendAdditive => 1,
            rlBlendMode::RlBlendMultiplied => 2,
            rlBlendMode::RlBlendAddColors => 3,
            rlBlendMode::RlBlendSubtractColors => 4,
            rlBlendMode::RlBlendAlphaPremultiply => 5,
            rlBlendMode::RlBlendCustom => 6,
            rlBlendMode::RlBlendCustomSeparate => 7,
        }
    }
}

/// The well-known locations of a shader, as the low-level layer numbers them.
#[allow(non_camel_case_types)]
#[derive(Debug, Clone, Copy, PartialEq, Eq, Hash, Structural)]
pub enum rlShaderLocationIndex {
    RlShaderLocVertexPosition,
    RlShaderLocVertexTexcoord01,
    RlShaderLocVertexTexcoord02,
    RlShaderLocVertexNormal,
    RlShaderLocVertexTangent,
    RlShaderLocVertexColor,
    RlShaderLocMatrixMvp,
    RlShaderLocMatrixView,
    RlShaderLocMatrixProjection,
    RlShaderLocMatrixModel,
    RlShaderLocMatrixNormal,
    RlShaderLocVectorView,
    RlShaderLocColorDiffuse,
    RlShaderLocColorSpecular,
    RlShaderLocColorAmbient,
    RlShaderLocMapAlbedo,
    RlShaderLocMapMetalness,
    RlShaderLocMapNormal,
    RlShaderLocMapRoughness,
    RlShaderLocMapOcclusion,
    RlShaderLocMapEmission,
    RlShaderLocMapHeight,
    RlShaderLocMapCubemap,
    RlShaderLocMapIrradiance,
    RlShaderLocMapPrefilter,
    RlShaderLocMapBrdf,
}

impl rlShaderLocationIndex {
    /// The integer that stands for the variant on the native side.
    pub open spec fn spec_value(self) -> u32 {
        match self {
            rlShaderLocationIndex::RlShaderLocVertexPosition => 0,
            rlShaderLocationIndex::RlShaderLocVertexTexcoord01 => 1,
            rlShaderLocationIndex::RlShaderLocVertexTexcoord02 => 2,
            rlShaderLocationIndex::RlShaderLocVertexNormal => 3,
            rlShaderLocationIndex::RlShaderLocVertexTangent => 4,
            rlShaderLocationIndex::RlShaderLocVertexColor => 5,
            rlShaderLocationIndex::RlShaderLocMatrixMvp => 6,
            rlShaderLocationIndex::RlShaderLocMatrixView => 7,
            rlShaderLocationIndex::RlShaderLocMatrixProjection => 8,
            rlShaderLocationIndex::RlShaderLocMatrixModel => 9,
            rlShaderLocationIndex::RlShaderLocMatrixNormal => 10,
            rlShaderLocationIndex::RlShaderLocVectorView => 11,
            rlShaderLocationIndex::RlShaderLocColorDiffuse => 12,
            rlShaderLocationIndex::RlShaderLocColorSpecular => 13,
            rlShaderLocationIndex::RlShaderLocColorAmbient => 14,
            rlShaderLocationIndex::RlShaderLocMapAlbedo => 15,
            rlShaderLocationIndex::RlShaderLocMapMetalness => 16,
            rlShaderLocationIndex::RlShaderLocMapNormal => 17,
            rlShaderLocationIndex::RlShaderLocMapRoughness => 18,
            rlShaderLocationIndex::RlShaderLocMapOcclusion => 19,
            rlShaderLocationIndex::RlShaderLocMapEmission => 20,
            rlShaderLocationIndex::RlShaderLocMapHeight => 21,
            rlShaderLocationIndex::RlShaderLocMapCubemap => 22,
            rlShaderLocationIndex::RlShaderLocMapIrradiance => 23,
            rlShaderLocationIndex::RlShaderLocMapPrefilter => 24,
            rlShaderLocationIndex::RlShaderLocMapBrdf => 25,
        }
    }

    pub fn value(self) -> (r: u32)
        ensures
            r == self.spec_value(),
    {
        match self {
            rlShaderLocationIndex::RlShaderLocVertexPosition => 0,
            rlShaderLocationIndex::RlShaderLocVertexTexcoord01 => 1,
            rlShaderLocationIndex::RlShaderLocVertexTexcoord02 => 2,
            rlShaderLocationIndex::RlShaderLocVertexNormal => 3,
            rlShaderLocationIndex::RlShaderLocVertexTangent => 4,
            rlShaderLocationIndex::RlShaderLocVertexColor => 5,
            rlShaderLocationIndex::RlShaderLocMatrixMvp => 6,
            rlShaderLocationIndex::RlShaderLocMatrixView => 7,
            rlShaderLocationIndex::RlShaderLocMatrixProjection => 8,
            rlShaderLocationIndex::RlShaderLocMatrixModel => 9,
            rlShaderLocationIndex::RlShaderLocMatrixNormal => 10,
            rlShaderLocationIndex::RlShaderLocVectorView => 11,
            rlShaderLocationIndex::RlShaderLocColorDiffuse => 12,
            rlShaderLocationIndex::RlShaderLocColorSpecular => 13,
            rlShaderLocationIndex::RlShaderLocColorAmbient => 14,
            rlShaderLocationIndex::RlShaderLocMapAlbedo => 15,
            rlShaderLocationIndex::RlShaderLocMapMetalness => 16,
            rlShaderLocationIndex::RlShaderLocMapNormal => 17,
            rlShaderLocationIndex::RlShaderLocMapRoughness => 18,
            rlShaderLocationIndex::RlShaderLocMapOcclusion => 19,
            rlShaderLocationIndex::RlShaderLocMapEmission => 20,
            rlShaderLocationIndex::RlShaderLocMapHeight => 21,
            rlShaderLocationIndex::RlShaderLocMapCubemap => 22,
            rlShaderLocationIndex::RlShaderLocMapIrradiance => 23,
            rlShaderLocationIndex::RlShaderLocMapPrefilter => 24,
            rlShaderLocationIndex::RlShaderLocMapBrdf => 25,
        }
    }
}

/// The data types of a shader uniform, as the low-level layer numbers them.
#[allow(non_camel_case_types)]
#[derive(Debug, Clone, Copy, PartialEq, Eq, Hash, Structural)]
pub enum rlShaderUniformDataType {
    RlShaderUniformFloat,
    RlShaderUniformVec2,
    RlShaderUniformVec3,
    RlShaderUniformVec4,
    RlShaderUniformInt,
    RlShaderUniformIvec2,
    RlShaderUniformIvec3,
    RlShaderUniformIvec4,
    RlShaderUniformUint,
    RlShaderUniformUivec2,
    RlShaderUniformUivec3,
    RlShaderUniformUivec4,
    RlShaderUniformSampler2D,
}

impl rlShaderUniformDataType {
    /// The integer that stands for the variant on the native side.
    pub open spec fn spec_value(self) -> u32 {
        match self {
            rlShaderUniformDataType::RlShaderUniformFloat => 0,
            rlShaderUniformDataType::RlShaderUniformVec2 => 1,
            rlShaderUniformDataType::RlShaderUniformVec3 => 2,
            rlShaderUniformDataType::RlShaderUniformVec4 => 3,
            rlShaderUniformDataType::RlShaderUniformInt => 4,
            rlShaderUniformDataType::RlShaderUniformIvec2 => 5,
            rlShaderUniformDataType::RlShaderUniformIvec3 => 6,
            rlShaderUniformDataType::RlShaderUniformIvec4 => 7,
            rlShaderUniformDataType::RlShaderUniformUint => 8,
            rlShaderUniformDataType::RlShaderUniformUivec2 => 9,
            rlShaderUniformDataType::RlShaderUniformUivec3 => 10,
            rlShaderUniformDataType::RlShaderUniformUivec4 => 11,
            rlShaderUniformDataType::RlShaderUniformSampler2D => 12,
        }
    }

    pub fn value(self) -> (r: u32)
        ensures
            r == self.spec_value(),
    {
        match self {
            rlShaderUniformDataType::RlShaderUniformFloat => 0,
            rlShaderUniformDataType::RlShaderUniformVec2 => 1,
            rlShaderUniformDataType::RlShaderUniformVec3 => 2,
            rlShaderUniformDataType::RlShaderUniformVec4 => 3,
            rlShaderUniformDataType::RlShaderUniformInt => 4,
            rlShaderUniformDataType::RlShaderUniformIvec2 => 5,
            rlShaderUniformDataType::RlShaderUniformIvec3 => 6,
            rlShaderUniformDataType::RlShaderUniformIvec4 => 7,
            rlShaderUniformDataType::RlShaderUniformUint => 8,
            rlShaderUniformDataType::RlShaderUniformUivec2 => 9,
            rlShaderUniformDataType::RlShaderUniformUivec3 => 10,
            rlShaderUniformDataType::RlShaderUniformUivec4 => 11,
            rlShaderUniformDataType::RlShaderUniformSampler2D => 12,
        }
    }
}

/// The data types of a shader attribute, as the low-level layer numbers them.
#[allow(non_camel_case_types)]
#[derive(Debug, Clone, Copy, PartialEq, Eq, Hash, Structural)]
pub enum rlShaderAttributeDataType {
    RlShaderAttribFloat,
    RlShaderAttribVec2,
    RlShaderAttribVec3,
    RlShaderAttribVec4,
}

impl rlShaderAttributeDataType {
    /// The integer that stands for the variant on the native side.
    pub open spec fn spec_value(self) -> u32 {
        match self {
            rlShaderAttributeDataType::RlShaderAttribFloat => 0,
            rlShaderAttributeDataType::RlShaderAttribVec2 => 1,
            rlShaderAttributeDataType::RlShaderAttribVec3 => 2,
            rlShaderAttributeDataType::RlShaderAttribVec4 => 3,
        }
    }

    pub fn value(self) -> (r: u32)
        ensures
            r == self.spec_value(),
    {
        match self {
            rlShaderAttributeDataType::RlShaderAttribFloat => 0,
            rlShaderAttributeDataType::RlShaderAttribVec2 => 1,
            rlShaderAttributeDataType::RlShaderAttribVec3 => 2,
            rlShaderAttributeDataType::RlShaderAttribVec4 => 3,
        }
    }
}

/// What a texture is attached to a framebuffer as.
#[allow(non_camel_case_types)]
#[derive(Debug, Clone, Copy, PartialEq, Eq, Hash, Structural)]
pub enum rlFramebufferAttachType {
    RlAttachmentColorChannel0,
    RlAttachmentColorChannel1,
    RlAttachmentColorChannel2,
    RlAttachmentColorChannel3,
    RlAttachmentColorChannel4,
    RlAttachmentColorChannel5,
    RlAttachmentColorChannel6,
    RlAttachmentColorChannel7,
    RlAttachmentDepth,
    RlAttachmentStencil,
}

impl rlFramebufferAttachType {
    /// The integer that stands for the variant on the native side.
    pub open spec fn spec_value(self) -> u32 {
        match self {
            rlFramebufferAttachType::RlAttachmentColorChannel0 => 0,
            rlFramebufferAttachType::RlAttachmentColorChannel1 => 1,
            rlFramebufferAttachType::RlAttachmentColorChannel2 => 2,
            rlFramebufferAttachType::RlAttachmentColorChannel3 => 3,
            rlFramebufferAttachType::RlAttachmentColorChannel4 => 4,
            rlFramebufferAttachType::RlAttachmentColorChannel5 => 5,
            rlFramebufferAttachType::RlAttachmentColorChannel6 => 6,
            rlFramebufferAttachType::RlAttachmentColorChannel7 => 7,
            rlFramebufferAttachType::RlAttachmentDepth => 100,
            rlFramebufferAttachType::RlAttachmentStencil => 200,
        }
    }

    pub fn value(self) -> (r: u32)
        ensures
            r == self.spec_value(),
    {
        match self {
            rlFramebufferAttachType::RlAttachmentColorChannel0 => 0,
            rlFramebufferAttachType::RlAttachmentColorChannel1 => 1,
            rlFramebufferAttachType::RlAttachmentColorChannel2 => 2,
            rlFramebufferAttachType::RlAttachmentColorChannel3 => 3,
            rlFramebufferAttachType::RlAttachmentColorChannel4 => 4,
            rlFramebufferAttachType::RlAttachmentColorChannel5 => 5,
            rlFramebufferAttachType::RlAttachmentColorChannel6 => 6,
            rlFramebufferAttachType::RlAttachmentColorChannel7 => 7,
            rlFramebufferAttachType::RlAttachmentDepth => 100,
            rlFramebufferAttachType::RlAttachmentStencil => 200,
        }
    }
}

/// Which face or kind of texture is attached to a framebuffer.
#[allow(non_camel_case_types)]
#[derive(Debug, Clone, Copy, PartialEq, Eq, Hash, Structural)]
pub enum rlFramebufferAttachTextureType {
    RlAttachmentCubemapPositiveX,
    RlAttachmentCubemapNegativeX,
    RlAttachmentCubemapPositiveY,
    RlAttachmentCubemapNegativeY,
    RlAttachmentCubemapPositiveZ,
    RlAttachmentCubemapNegativeZ,
    RlAttachmentTexture2D,
    RlAttachmentRenderbuffer,
}

impl rlFramebufferAttachTextureType {
    /// The integer that stands for the variant on the native side.
    pub open spec fn spec_value(self) -> u32 {
        match self {
            rlFramebufferAttachTextureType::RlAttachmentCubemapPositiveX => 0,
            rlFramebufferAttachTextureType::RlAttachmentCubemapNegativeX => 1,
            rlFramebufferAttachTextureType::RlAttachmentCubemapPositiveY => 2,
            rlFramebufferAttachTextureType::RlAttachmentCubemapNegativeY => 3,
            rlFramebufferAttachTextureType::RlAttachmentCubemapPositiveZ => 4,
            rlFramebufferAttachTextureType::RlAttachmentCubemapNegativeZ => 5,
            rlFramebufferAttachTextureType::RlAttachmentTexture2D => 100,
            rlFramebufferAttachTextureType::RlAttachmentRenderbuffer => 200,
        }
    }

    pub fn value(self) -> (r: u32)
        ensures
            r == self.spec_value(),
    {
        match self {
            rlFramebufferAttachTextureType::RlAttachmentCubemapPositiveX => 0,
            rlFramebufferAttachTextureType::RlAttachmentCubemapNegativeX => 1,
            rlFramebufferAttachTextureType::RlAttachmentCubemapPositiveY => 2,
            rlFramebufferAttachTextureType::RlAttachmentCubemapNegativeY => 3,
            rlFramebufferAttachTextureType::RlAttachmentCubemapPositiveZ => 4,
            rlFramebufferAttachTextureType::RlAttachmentCubemapNegativeZ => 5,
            rlFramebufferAttachTextureType::RlAttachmentTexture2D => 100,
            rlFramebufferAttachTextureType::RlAttachmentRenderbuffer => 200,
        }
    }
}

/// Which faces are left out when drawing.
#[allow(non_camel_case_types)]
#[derive(Debug, Clone, Copy, PartialEq, Eq, Hash, Structural)]
pub enum rlCullMode {
    RlCullFaceFront,
    RlCullFaceBack,
}

impl rlCullMode {
    /// The integer that stands for the variant on the native side.
    pub open spec fn spec_value(self) -> u32 {
        match self {
            rlCullMode::RlCullFaceFront => 0,
            rlCullMode::RlCullFaceBack => 1,
        }
    }

    pub fn value(self) -> (r: u32)
        ensures
            r == self.spec_value(),
    {
        match self {
            rlCullMode::RlCullFaceFront => 0,
            rlCullMode::RlCullFaceBack => 1,
        }
    }
}

/// The name under which the window flags are used.
pub type WindowFlags = ConfigFlags;

/// The name under which the log levels are used.
pub type LogLevel = TraceLogLevel;

/// The name under which the keys are used.
pub type Key = KeyboardKey;

} // verus!
