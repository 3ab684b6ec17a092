use ferrousgl::KeySet;
use ferrousgl::WindowKey;

const NAMED: [(WindowKey, i32); 120] = [
    (WindowKey::Space, 32),
    (WindowKey::Apostrophe, 39),
    (WindowKey::Comma, 44),
    (WindowKey::Minus, 45),
    (WindowKey::Period, 46),
    (WindowKey::Slash, 47),
    (WindowKey::Num0, 48),
    (WindowKey::Num1, 49),
    (WindowKey::Num2, 50),
    (WindowKey::Num3, 51),
    (WindowKey::Num4, 52),
    (WindowKey::Num5, 53),
    (WindowKey::Num6, 54),
    (WindowKey::Num7, 55),
    (WindowKey::Num8, 56),
    (WindowKey::Num9, 57),
    (WindowKey::Semicolon, 59),
    (WindowKey::Equal, 61),
    (WindowKey::A, 65),
    (WindowKey::B, 66),
    (WindowKey::C, 67),
    (WindowKey::D, 68),
    (WindowKey::E, 69),
    (WindowKey::F, 70),
    (WindowKey::G, 71),
    (WindowKey::H, 72),
    (WindowKey::I, 73),
    (WindowKey::J, 74),
    (WindowKey::K, 75),
    (WindowKey::L, 76),
    (WindowKey::M, 77),
    (WindowKey::N, 78),
    (WindowKey::O, 79),
    (WindowKey::P, 80),
    (WindowKey::Q, 81),
    (WindowKey::R, 82),
    (WindowKey::S, 83),
    (WindowKey::T, 84),
    (WindowKey::U, 85),
    (WindowKey::V, 86),
    (WindowKey::W, 87),
    (WindowKey::X, 88),
    (WindowKey::Y, 89),
    (WindowKey::Z, 90),
    (WindowKey::LeftBracket, 91),
    (WindowKey::Backslash, 92),
    (WindowKey::RightBracket, 93),
    (WindowKey::GraveAccent, 96),
    (WindowKey::World1, 161),
    (WindowKey::World2, 162),
    (WindowKey::Escape, 256),
    (WindowKey::Enter, 257),
    (WindowKey::Tab, 258),
    (WindowKey::Backspace, 259),
    (WindowKey::Insert, 260),
    (WindowKey::Delete, 261),
    (WindowKey::Right, 262),
    (WindowKey::Left, 263),
    (WindowKey::Down, 264),
    (WindowKey::Up, 265),
    (WindowKey::PageUp, 266),
    (WindowKey::PageDown, 267),
    (WindowKey::Home, 268),
    (WindowKey::End, 269),
    (WindowKey::CapsLock, 280),
    (WindowKey::ScrollLock, 281),
    (WindowKey::NumLock, 282),
    (WindowKey::PrintScreen, 283),
    (WindowKey::Pause, 284),
    (WindowKey::F1, 290),
    (WindowKey::F2, 291),
    (WindowKey::F3, 292),
    (WindowKey::F4, 293),
    (WindowKey::F5, 294),
    (WindowKey::F6, 295),
    (WindowKey::F7, 296),
    (WindowKey::F8, 297),
    (WindowKey::F9, 298),
    (WindowKey::F10, 299),
    (WindowKey::F11, 300),
    (WindowKey::F12, 301),
    (WindowKey::F13, 302),
    (WindowKey::F14, 303),
    (WindowKey::F15, 304),
    (WindowKey::F16, 305),
    (WindowKey::F17, 306),
    (WindowKey::F18, 307),
    (WindowKey::F19, 308),
    (WindowKey::F20, 309),
    (WindowKey::F21, 310),
    (WindowKey::F22, 311),
    (WindowKey::F23, 312),
    (WindowKey::F24, 313),
    (WindowKey::F25, 314),
    (WindowKey::Kp0, 320),
    (WindowKey::Kp1, 321),
    (WindowKey::Kp2, 322),
    (WindowKey::Kp3, 323),
    (WindowKey::Kp4, 324),
    (WindowKey::Kp5, 325),
    (WindowKey::Kp6, 326),
    (WindowKey::Kp7, 327),
    (WindowKey::Kp8, 328),
    (WindowKey::Kp9, 329),
    (WindowKey::KpDecimal, 330),
    (WindowKey::KpDivide, 331),
    (WindowKey::KpMultiply, 332),
    (WindowKey::KpSubtract, 333),
    (WindowKey::KpAdd, 334),
    (WindowKey::KpEnter, 335),
    (WindowKey::KpEqual, 336),
    (WindowKey::LeftShift, 340),
    (WindowKey::LeftControl, 341),
    (WindowKey::LeftAlt, 342),
    (WindowKey::LeftSuper, 343),
    (WindowKey::RightShift, 344),
    (WindowKey::RightControl, 345),
    (WindowKey::RightAlt, 346),
    (WindowKey::RightSuper, 347),
    (WindowKey::Menu, 348),
];

#[test]
fn every_named_key_has_its_native_code() {
    for (key, code) in NAMED {
        assert_eq!(i32::from(key), code);
    }
}

#[test]
fn every_native_code_gives_its_key() {
    for (key, code) in NAMED {
        assert_eq!(WindowKey::from(code), key);
    }
}

#[test]
fn unknown_key_has_code_minus_one() {
    assert_eq!(i32::from(WindowKey::Unknown), -1);
    assert_eq!(WindowKey::from(-1), WindowKey::Unknown);
}

#[test]
fn unmapped_codes_fall_back_to_unknown() {
    let known: Vec<i32> = NAMED.iter().map(|pair| pair.1).collect();
    for code in -10..400 {
        if !known.contains(&code) {
            assert_eq!(WindowKey::from(code), WindowKey::Unknown);
        }
    }
    assert_eq!(WindowKey::from(i32::MAX), WindowKey::Unknown);
    assert_eq!(WindowKey::from(i32::MIN), WindowKey::Unknown);
    assert_eq!(WindowKey::from(0), WindowKey::Unknown);
    assert_eq!(WindowKey::from(349), WindowKey::Unknown);
}

#[test]
fn key_round_trips_through_its_code() {
    for (key, _) in NAMED {
        assert_eq!(WindowKey::from(i32::from(key)), key);
    }
    assert_eq!(WindowKey::from(i32::from(WindowKey::Unknown)), WindowKey::Unknown);
}

#[test]
fn no_two_keys_share_a_code() {
    for (i, (_, a)) in NAMED.iter().enumerate() {
        for (_, b) in NAMED.iter().skip(i + 1) {
            assert_ne!(a, b);
        }
    }
}

#[test]
fn new_key_set_is_empty() {
    let set = KeySet::new();
    for (key, _) in NAMED {
        assert!(!set.contains(key));
    }
    assert!(!set.contains(WindowKey::Unknown));
}

#[test]
fn key_set_holds_exactly_what_was_inserted() {
    let mut set = KeySet::new();
    set.insert(WindowKey::A);
    set.insert(WindowKey::Menu);
    set.insert(WindowKey::Unknown);
    set.insert(WindowKey::A);
    for (key, _) in NAMED {
        assert_eq!(set.contains(key), key == WindowKey::A || key == WindowKey::Menu);
    }
    assert!(set.contains(WindowKey::Unknown));
}

#[test]
fn key_set_takes_every_key() {
    let mut set = KeySet::new();
    for (key, _) in NAMED {
        set.insert(key);
        assert!(set.contains(key));
    }
    for (key, _) in NAMED {
        assert!(set.contains(key));
    }
    assert!(!set.contains(WindowKey::Unknown));
}

#[test]
fn key_set_clear_removes_everything() {
    let mut set = KeySet::new();
    set.insert(WindowKey::Space);
    set.insert(WindowKey::F25);
    let copy = set;
    set.clear();
    assert!(!set.contains(WindowKey::Space));
    assert!(!set.contains(WindowKey::F25));
    assert!(copy.contains(WindowKey::Space));
    assert!(copy.contains(WindowKey::F25));
}
