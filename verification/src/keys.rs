use vstd::prelude::*;
use vstd::std_specs::convert::FromSpecImpl;

verus! {

/// A keyboard key, named independently of the windowing backend.
///
/// Every key that the native layer can report has a variant of its own;
/// `Unknown` stands for any code that the native layer does not name.
#[derive(Debug, Clone, Copy, PartialEq, Eq, Hash, Structural)]
pub enum WindowKey {
    Space,
    Apostrophe,
    Comma,
    Minus,
    Period,
    Slash,
    Num0,
    Num1,
    Num2,
    Num3,
    Num4,
    Num5,
    Num6,
    Num7,
    Num8,
    Num9,
    Semicolon,
    Equal,
    A,
    B,
    C,
    D,
    E,
    F,
    G,
    H,
    I,
    J,
    K,
    L,
    M,
    N,
    O,
    P,
    Q,
    R,
    S,
    T,
    U,
    V,
    W,
    X,
    Y,
    Z,
    LeftBracket,
    Backslash,
    RightBracket,
    GraveAccent,
    World1,
    World2,
    Escape,
    Enter,
    Tab,
    Backspace,
    Insert,
    Delete,
    Right,
    Left,
    Down,
    Up,
    PageUp,
    PageDown,
    Home,
    End,
    CapsLock,
    ScrollLock,
    NumLock,
    PrintScreen,
    Pause,
    F1,
    F2,
    F3,
    F4,
    F5,
    F6,
    F7,
    F8,
    F9,
    F10,
    F11,
    F12,
    F13,
    F14,
    F15,
    F16,
    F17,
    F18,
    F19,
    F20,
    F21,
    F22,
    F23,
    F24,
    F25,
    Kp0,
    Kp1,
    Kp2,
    Kp3,
    Kp4,
    Kp5,
    Kp6,
    Kp7,
    Kp8,
    Kp9,
    KpDecimal,
    KpDivide,
    KpMultiply,
    KpSubtract,
    KpAdd,
    KpEnter,
    KpEqual,
    LeftShift,
    LeftControl,
    LeftAlt,
    LeftSuper,
    RightShift,
    RightControl,
    RightAlt,
    RightSuper,
    Menu,
    Unknown,
}

/// What the native layer reports of a key or a mouse button.
#[derive(Debug, Clone, Copy, PartialEq, Eq, Hash, Structural)]
pub enum KeyAction {
    Release,
    Press,
    Repeat,
}

impl WindowKey {
    /// The code under which the native windowing layer reports this key.
    ///
    /// This one table defines the correspondence in both directions:
    /// `of_native_code` is stated as its inverse.
    pub open spec fn native_code(self) -> int {
        match self {
            WindowKey::Space => 32,
            WindowKey::Apostrophe => 39,
            WindowKey::Comma => 44,
            WindowKey::Minus => 45,
            WindowKey::Period => 46,
            WindowKey::Slash => 47,
            WindowKey::Num0 => 48,
            WindowKey::Num1 => 49,
            WindowKey::Num2 => 50,
            WindowKey::Num3 => 51,
            WindowKey::Num4 => 52,
            WindowKey::Num5 => 53,
            WindowKey::Num6 => 54,
            WindowKey::Num7 => 55,
            WindowKey::Num8 => 56,
            WindowKey::Num9 => 57,
            WindowKey::Semicolon => 59,
            WindowKey::Equal => 61,
            WindowKey::A => 65,
            WindowKey::B => 66,
            WindowKey::C => 67,
            WindowKey::D => 68,
            WindowKey::E => 69,
            WindowKey::F => 70,
            WindowKey::G => 71,
            WindowKey::H => 72,
            WindowKey::I => 73,
            WindowKey::J => 74,
            WindowKey::K => 75,
            WindowKey::L => 76,
            WindowKey::M => 77,
            WindowKey::N => 78,
            WindowKey::O => 79,
            WindowKey::P => 80,
            WindowKey::Q => 81,
            WindowKey::R => 82,
            WindowKey::S => 83,
            WindowKey::T => 84,
            WindowKey::U => 85,
            WindowKey::V => 86,
            WindowKey::W => 87,
            WindowKey::X => 88,
            WindowKey::Y => 89,
            WindowKey::Z => 90,
            WindowKey::LeftBracket => 91,
            WindowKey::Backslash => 92,
            WindowKey::RightBracket => 93,
            WindowKey::GraveAccent => 96,
            WindowKey::World1 => 161,
            WindowKey::World2 => 162,
            WindowKey::Escape => 256,
            WindowKey::Enter => 257,
            WindowKey::Tab => 258,
            WindowKey::Backspace => 259,
            WindowKey::Insert => 260,
            WindowKey::Delete => 261,
            WindowKey::Right => 262,
            WindowKey::Left => 263,
            WindowKey::Down => 264,
            WindowKey::Up => 265,
            WindowKey::PageUp => 266,
            WindowKey::PageDown => 267,
            WindowKey::Home => 268,
            WindowKey::End => 269,
            WindowKey::CapsLock => 280,
            WindowKey::ScrollLock => 281,
            WindowKey::NumLock => 282,
            WindowKey::PrintScreen => 283,
            WindowKey::Pause => 284,
            WindowKey::F1 => 290,
            WindowKey::F2 => 291,
            WindowKey::F3 => 292,
            WindowKey::F4 => 293,
            WindowKey::F5 => 294,
            WindowKey::F6 => 295,
            WindowKey::F7 => 296,
            WindowKey::F8 => 297,
            WindowKey::F9 => 298,
            WindowKey::F10 => 299,
            WindowKey::F11 => 300,
            WindowKey::F12 => 301,
            WindowKey::F13 => 302,
            WindowKey::F14 => 303,
            WindowKey::F15 => 304,
            WindowKey::F16 => 305,
            WindowKey::F17 => 306,
            WindowKey::F18 => 307,
            WindowKey::F19 => 308,
            WindowKey::F20 => 309,
            WindowKey::F21 => 310,
            WindowKey::F22 => 311,
            WindowKey::F23 => 312,
            WindowKey::F24 => 313,
            WindowKey::F25 => 314,
            WindowKey::Kp0 => 320,
            WindowKey::Kp1 => 321,
            WindowKey::Kp2 => 322,
            WindowKey::Kp3 => 323,
            WindowKey::Kp4 => 324,
            WindowKey::Kp5 => 325,
            WindowKey::Kp6 => 326,
            WindowKey::Kp7 => 327,
            WindowKey::Kp8 => 328,
            WindowKey::Kp9 => 329,
            WindowKey::KpDecimal => 330,
            WindowKey::KpDivide => 331,
            WindowKey::KpMultiply => 332,
            WindowKey::KpSubtract => 333,
            WindowKey::KpAdd => 334,
            WindowKey::KpEnter => 335,
            WindowKey::KpEqual => 336,
            WindowKey::LeftShift => 340,
            WindowKey::LeftControl => 341,
            WindowKey::LeftAlt => 342,
            WindowKey::LeftSuper => 343,
            WindowKey::RightShift => 344,
            WindowKey::RightControl => 345,
            WindowKey::RightAlt => 346,
            WindowKey::RightSuper => 347,
            WindowKey::Menu => 348,
            WindowKey::Unknown => -1,
        }
    }

    /// Whether some named key is reported under `code`.
    pub open spec fn is_native_code(code: int) -> bool {
        exists|key: WindowKey| key != WindowKey::Unknown && key.native_code() == code
    }

    /// The key that the native layer reports under `code`: the named key that
    /// bears the code, and `Unknown` where no named key does.
    pub open spec fn of_native_code(code: int) -> WindowKey {
        if Self::is_native_code(code) {
            choose|key: WindowKey| key != WindowKey::Unknown && key.native_code() == code
        } else {
            WindowKey::Unknown
        }
    }

    /// No two keys share a native code.
    pub proof fn lemma_native_code_injective(a: WindowKey, b: WindowKey)
        requires
            a.native_code() == b.native_code(),
        ensures
            a == b,
    {
    }

    /// Every native code fits the 32-bit signed integer in which the native
    /// layer hands it over, and lies in the range `-1..=348`.
    pub proof fn lemma_native_code_range(key: WindowKey)
        ensures
            -1 <= key.native_code() <= 348,
            key.native_code() == -1 <==> key == WindowKey::Unknown,
    {
    }

    /// Converting a key to its native code and back gives the key again.
    pub proof fn lemma_key_round_trip(key: WindowKey)
        ensures
            Self::of_native_code(key.native_code()) == key,
    {
        if key != WindowKey::Unknown {
            let found = Self::of_native_code(key.native_code());
            Self::lemma_native_code_injective(found, key);
        } else {
            assert forall|other: WindowKey| other != WindowKey::Unknown implies other.native_code()
                != -1 by {
                Self::lemma_native_code_range(other);
            }
        }
    }

    /// Converting a code to a key and back gives the code again exactly when
    /// a key bears it; every other code, `-1` aside, is lost to `Unknown`.
    pub proof fn lemma_code_round_trip(code: int)
        ensures
            Self::is_native_code(code) ==> Self::of_native_code(code).native_code() == code,
            Self::is_native_code(code) ==> Self::of_native_code(code) != WindowKey::Unknown,
            !Self::is_native_code(code) ==> Self::of_native_code(code) == WindowKey::Unknown,
    {
    }
}

impl From<WindowKey> for i32 {
    /// The native code of a key.
    fn from(key: WindowKey) -> (code: i32) {
        match key {
            WindowKey::Space => 32,
            WindowKey::Apostrophe => 39,
            WindowKey::Comma => 44,
            WindowKey::Minus => 45,
            WindowKey::Period => 46,
            WindowKey::Slash => 47,
            WindowKey::Num0 => 48,
            WindowKey::Num1 => 49,
            WindowKey::Num2 => 50,
            WindowKey::Num3 => 51,
            WindowKey::Num4 => 52,
            WindowKey::Num5 => 53,
            WindowKey::Num6 => 54,
            WindowKey::Num7 => 55,
            WindowKey::Num8 => 56,
            WindowKey::Num9 => 57,
            WindowKey::Semicolon => 59,
            WindowKey::Equal => 61,
            WindowKey::A => 65,
            WindowKey::B => 66,
            WindowKey::C => 67,
            WindowKey::D => 68,
            WindowKey::E => 69,
            WindowKey::F => 70,
            WindowKey::G => 71,
            WindowKey::H => 72,
            WindowKey::I => 73,
            WindowKey::J => 74,
            WindowKey::K => 75,
            WindowKey::L => 76,
            WindowKey::M => 77,
            WindowKey::N => 78,
            WindowKey::O => 79,
            WindowKey::P => 80,
            WindowKey::Q => 81,
            WindowKey::R => 82,
            WindowKey::S => 83,
            WindowKey::T => 84,
            WindowKey::U => 85,
            WindowKey::V => 86,
            WindowKey::W => 87,
            WindowKey::X => 88,
            WindowKey::Y => 89,
            WindowKey::Z => 90,
            WindowKey::LeftBracket => 91,
            WindowKey::Backslash => 92,
            WindowKey::RightBracket => 93,
            WindowKey::GraveAccent => 96,
            WindowKey::World1 => 161,
            WindowKey::World2 => 162,
            WindowKey::Escape => 256,
            WindowKey::Enter => 257,
            WindowKey::Tab => 258,
            WindowKey::Backspace => 259,
            WindowKey::Insert => 260,
            WindowKey::Delete => 261,
            WindowKey::Right => 262,
            WindowKey::Left => 263,
            WindowKey::Down => 264,
            WindowKey::Up => 265,
            WindowKey::PageUp => 266,
            WindowKey::PageDown => 267,
            WindowKey::Home => 268,
            WindowKey::End => 269,
            WindowKey::CapsLock => 280,
            WindowKey::ScrollLock => 281,
            WindowKey::NumLock => 282,
            WindowKey::PrintScreen => 283,
            WindowKey::Pause => 284,
            WindowKey::F1 => 290,
            WindowKey::F2 => 291,
            WindowKey::F3 => 292,
            WindowKey::F4 => 293,
            WindowKey::F5 => 294,
            WindowKey::F6 => 295,
            WindowKey::F7 => 296,
            WindowKey::F8 => 297,
            WindowKey::F9 => 298,
            WindowKey::F10 => 299,
            WindowKey::F11 => 300,
            WindowKey::F12 => 301,
            WindowKey::F13 => 302,
            WindowKey::F14 => 303,
            WindowKey::F15 => 304,
            WindowKey::F16 => 305,
            WindowKey::F17 => 306,
            WindowKey::F18 => 307,
            WindowKey::F19 => 308,
            WindowKey::F20 => 309,
            WindowKey::F21 => 310,
            WindowKey::F22 => 311,
            WindowKey::F23 => 312,
            WindowKey::F24 => 313,
            WindowKey::F25 => 314,
            WindowKey::Kp0 => 320,
            WindowKey::Kp1 => 321,
            WindowKey::Kp2 => 322,
            WindowKey::Kp3 => 323,
            WindowKey::Kp4 => 324,
            WindowKey::Kp5 => 325,
            WindowKey::Kp6 => 326,
            WindowKey::Kp7 => 327,
            WindowKey::Kp8 => 328,
            WindowKey::Kp9 => 329,
            WindowKey::KpDecimal => 330,
            WindowKey::KpDivide => 331,
            WindowKey::KpMultiply => 332,
            WindowKey::KpSubtract => 333,
            WindowKey::KpAdd => 334,
            WindowKey::KpEnter => 335,
            WindowKey::KpEqual => 336,
            WindowKey::LeftShift => 340,
            WindowKey::LeftControl => 341,
            WindowKey::LeftAlt => 342,
            WindowKey::LeftSuper => 343,
            WindowKey::RightShift => 344,
            WindowKey::RightControl => 345,
            WindowKey::RightAlt => 346,
            WindowKey::RightSuper => 347,
            WindowKey::Menu => 348,
            WindowKey::Unknown => -1,
        }
    }
}

impl FromSpecImpl<WindowKey> for i32 {
    open spec fn obeys_from_spec() -> bool {
        true
    }

    open spec fn from_spec(key: WindowKey) -> i32 {
        key.native_code() as i32
    }
}

impl From<i32> for WindowKey {
    /// The key that the native layer reports under `code`.
    fn from(code: i32) -> (key: WindowKey) {
        let key = match code {
            32 => WindowKey::Space,
            39 => WindowKey::Apostrophe,
            44 => WindowKey::Comma,
            45 => WindowKey::Minus,
            46 => WindowKey::Period,
            47 => WindowKey::Slash,
            48 => WindowKey::Num0,
            49 => WindowKey::Num1,
            50 => WindowKey::Num2,
            51 => WindowKey::Num3,
            52 => WindowKey::Num4,
            53 => WindowKey::Num5,
            54 => WindowKey::Num6,
            55 => WindowKey::Num7,
            56 => WindowKey::Num8,
            57 => WindowKey::Num9,
            59 => WindowKey::Semicolon,
            61 => WindowKey::Equal,
            65 => WindowKey::A,
            66 => WindowKey::B,
            67 => WindowKey::C,
            68 => WindowKey::D,
            69 => WindowKey::E,
            70 => WindowKey::F,
            71 => WindowKey::G,
            72 => WindowKey::H,
            73 => WindowKey::I,
            74 => WindowKey::J,
            75 => WindowKey::K,
            76 => WindowKey::L,
            77 => WindowKey::M,
            78 => WindowKey::N,
            79 => WindowKey::O,
            80 => WindowKey::P,
            81 => WindowKey::Q,
            82 => WindowKey::R,
            83 => WindowKey::S,
            84 => WindowKey::T,
            85 => WindowKey::U,
            86 => WindowKey::V,
            87 => WindowKey::W,
            88 => WindowKey::X,
            89 => WindowKey::Y,
            90 => WindowKey::Z,
            91 => WindowKey::LeftBracket,
            92 => WindowKey::Backslash,
            93 => WindowKey::RightBracket,
            96 => WindowKey::GraveAccent,
            161 => WindowKey::World1,
            162 => WindowKey::World2,
            256 => WindowKey::Escape,
            257 => WindowKey::Enter,
            258 => WindowKey::Tab,
            259 => WindowKey::Backspace,
            260 => WindowKey::Insert,
            261 => WindowKey::Delete,
            262 => WindowKey::Right,
            263 => WindowKey::Left,
            264 => WindowKey::Down,
            265 => WindowKey::Up,
            266 => WindowKey::PageUp,
            267 => WindowKey::PageDown,
            268 => WindowKey::Home,
            269 => WindowKey::End,
            280 => WindowKey::CapsLock,
            281 => WindowKey::ScrollLock,
            282 => WindowKey::NumLock,
            283 => WindowKey::PrintScreen,
            284 => WindowKey::Pause,
            290 => WindowKey::F1,
            291 => WindowKey::F2,
            292 => WindowKey::F3,
            293 => WindowKey::F4,
            294 => WindowKey::F5,
            295 => WindowKey::F6,
            296 => WindowKey::F7,
            297 => WindowKey::F8,
            298 => WindowKey::F9,
            299 => WindowKey::F10,
            300 => WindowKey::F11,
            301 => WindowKey::F12,
            302 => WindowKey::F13,
            303 => WindowKey::F14,
            304 => WindowKey::F15,
            305 => WindowKey::F16,
            306 => WindowKey::F17,
            307 => WindowKey::F18,
            308 => WindowKey::F19,
            309 => WindowKey::F20,
            310 => WindowKey::F21,
            311 => WindowKey::F22,
            312 => WindowKey::F23,
            313 => WindowKey::F24,
            314 => WindowKey::F25,
            320 => WindowKey::Kp0,
            321 => WindowKey::Kp1,
            322 => WindowKey::Kp2,
            323 => WindowKey::Kp3,
            324 => WindowKey::Kp4,
            325 => WindowKey::Kp5,
            326 => WindowKey::Kp6,
            327 => WindowKey::Kp7,
            328 => WindowKey::Kp8,
            329 => WindowKey::Kp9,
            330 => WindowKey::KpDecimal,
            331 => WindowKey::KpDivide,
            332 => WindowKey::KpMultiply,
            333 => WindowKey::KpSubtract,
            334 => WindowKey::KpAdd,
            335 => WindowKey::KpEnter,
            336 => WindowKey::KpEqual,
            340 => WindowKey::LeftShift,
            341 => WindowKey::LeftControl,
            342 => WindowKey::LeftAlt,
            343 => WindowKey::LeftSuper,
            344 => WindowKey::RightShift,
            345 => WindowKey::RightControl,
            346 => WindowKey::RightAlt,
            347 => WindowKey::RightSuper,
            348 => WindowKey::Menu,
            _ => WindowKey::Unknown,
        };
        proof {
            if key != WindowKey::Unknown {
                WindowKey::lemma_native_code_injective(
                    WindowKey::of_native_code(code as int),
                    key,
                );
            } else {
                assert forall|other: WindowKey| other != WindowKey::Unknown implies
                    other.native_code() != code by {}
            }
        }
        key
    }
}

impl FromSpecImpl<i32> for WindowKey {
    open spec fn obeys_from_spec() -> bool {
        true
    }

    open spec fn from_spec(code: i32) -> WindowKey {
        WindowKey::of_native_code(code as int)
    }
}

} // verus!
