use rraylib::input::{CompoundKey, Gamepad, Modifiers, Mouse, Touch};
use rraylib::native::NativeCall;
use rraylib::sys::{GamepadButton, Gesture, Key, KeyboardKey, MouseButton};

fn none_down() -> Modifiers {
    Modifiers {
        shift: false,
        right_shift: false,
        ctrl: false,
        right_ctrl: false,
        alt: false,
        right_alt: false,
        super_key: false,
        right_super_key: false,
    }
}

#[test]
fn plain_key_needs_no_modifier() {
    let key = CompoundKey::new(Key::A);
    assert!(!key.shift && !key.right_shift && !key.ctrl && !key.right_ctrl);
    assert!(!key.alt && !key.right_alt && !key.super_key && !key.right_super_key);
    assert!(key.is_pressed(true, &none_down()));
    assert!(!key.is_pressed(false, &none_down()));
    let all = Modifiers {
        shift: true,
        right_shift: true,
        ctrl: true,
        right_ctrl: true,
        alt: true,
        right_alt: true,
        super_key: true,
        right_super_key: true,
    };
    assert!(key.is_pressed(true, &all));
}

#[test]
fn compound_key_needs_each_modifier_that_it_names() {
    let mut key = CompoundKey::new(Key::S);
    key.ctrl = true;
    key.shift = true;
    let mut down = none_down();
    assert!(!key.is_pressed(true, &down));
    down.ctrl = true;
    assert!(!key.is_pressed(true, &down));
    down.shift = true;
    assert!(key.is_pressed(true, &down));
    assert!(!key.is_pressed(false, &down));
    down.ctrl = false;
    down.right_ctrl = true;
    assert!(!key.is_pressed(true, &down));
}

#[test]
fn each_modifier_is_checked_on_its_own() {
    let setters: [fn(&mut CompoundKey); 8] = [
        |k| k.shift = true,
        |k| k.right_shift = true,
        |k| k.ctrl = true,
        |k| k.right_ctrl = true,
        |k| k.alt = true,
        |k| k.right_alt = true,
        |k| k.super_key = true,
        |k| k.right_super_key = true,
    ];
    let downs: [fn(&mut Modifiers); 8] = [
        |m| m.shift = true,
        |m| m.right_shift = true,
        |m| m.ctrl = true,
        |m| m.right_ctrl = true,
        |m| m.alt = true,
        |m| m.right_alt = true,
        |m| m.super_key = true,
        |m| m.right_super_key = true,
    ];
    for i in 0..8 {
        let mut key = CompoundKey::new(Key::Enter);
        setters[i](&mut key);
        for j in 0..8 {
            let mut down = none_down();
            downs[j](&mut down);
            assert_eq!(key.is_pressed(true, &down), i == j);
        }
    }
}

#[test]
fn pressed_keys_end_at_the_first_zero() {
    let keys = KeyboardKey::get_pressed_keys(&vec![65, 257, 0, 66]);
    assert_eq!(keys, vec![Key::A, Key::Enter]);
    assert_eq!(KeyboardKey::get_pressed_keys(&vec![]), vec![]);
    assert_eq!(KeyboardKey::get_pressed_keys(&vec![0, 65]), vec![]);
    assert_eq!(KeyboardKey::get_pressed_keys(&vec![32]), vec![Key::Space]);
}

#[test]
fn codes_of_no_key_are_left_out() {
    let keys = KeyboardKey::get_pressed_keys(&vec![65, 1, -5, 66, 100000]);
    assert_eq!(keys, vec![Key::A, Key::B]);
}

#[test]
fn pressed_chars_end_at_the_first_zero() {
    let chars = KeyboardKey::get_pressed_chars(&vec![97, 233, 0x1F600, 0, 98]);
    assert_eq!(chars, vec!['a', 'é', '\u{1F600}']);
    assert_eq!(KeyboardKey::get_pressed_chars(&vec![]), Vec::<char>::new());
}

#[test]
fn codes_of_no_char_become_question_marks() {
    let chars = KeyboardKey::get_pressed_chars(&vec![0xD800, -1, 0x110000, 0xDFFF, 0xE000, 0xD7FF]);
    assert_eq!(chars, vec!['?', '?', '?', '?', '\u{E000}', '\u{D7FF}']);
}

#[test]
fn key_codes_round_trip() {
    assert_eq!(Key::A.value(), 65);
    assert_eq!(Key::Null.value(), 0);
    assert_eq!(Key::LeftShift.value(), 340);
    assert_eq!(Key::RightSuper.value(), 347);
    assert_eq!(Key::NumPad0.value(), 320);
    assert_eq!(KeyboardKey::from_value(65), Some(Key::A));
    assert_eq!(KeyboardKey::from_value(340), Some(Key::LeftShift));
    assert_eq!(KeyboardKey::from_value(1), None);
    for code in 0..400u32 {
        if let Some(key) = KeyboardKey::from_value(code) {
            assert_eq!(key.value(), code);
        }
    }
}

#[test]
fn gesture_and_button_codes_round_trip() {
    assert_eq!(Gesture::NoGesture.value(), 0);
    assert_eq!(Gesture::Tap.value(), 1);
    assert_eq!(Gesture::PinchOut.value(), 512);
    assert_eq!(Gesture::from_value(8), Some(Gesture::Drag));
    assert_eq!(Gesture::from_value(3), None);
    assert_eq!(MouseButton::from_value(0), Some(MouseButton::Left));
    assert_eq!(MouseButton::from_value(7), None);
    assert_eq!(MouseButton::Right.value(), 1);
}

#[test]
fn last_gamepad_button() {
    let pad = Gamepad(0);
    assert_eq!(pad.last_button_pressed(-1), None);
    assert_eq!(pad.last_button_pressed(0), Some(GamepadButton::Unknown));
    assert_eq!(pad.last_button_pressed(7), GamepadButton::from_value(7));
    assert!(pad.last_button_pressed(7).is_some());
    assert_eq!(pad.last_button_pressed(1000), None);
}

#[test]
fn mouse_moves_along_one_axis() {
    assert_eq!(Mouse::set_x(5, 9), NativeCall::SetMousePosition { x: 5, y: 9 });
    assert_eq!(Mouse::set_y(5, 9), NativeCall::SetMousePosition { x: 5, y: 9 });
}

#[test]
fn touch_points_are_numbered_from_zero() {
    let points = Touch::touch_points(3);
    assert_eq!(points.len(), 3);
    assert_eq!(points[0].id(), 0);
    assert_eq!(points[1].id(), 1);
    assert_eq!(points[2].id(), 2);
    assert!(Touch::touch_points(0).is_empty());
    assert!(Touch::touch_points(-4).is_empty());
}
