use chip8::keyboard::key_code;
use chip8::keyboard::Keypad;

#[test]
fn keypad_starts_with_every_key_up() {
    let keypad = Keypad::new();
    for key in 0..=255u8 {
        assert!(!keypad.is_key_down(key));
    }
    assert_eq!(keypad.get_pressed_key(), None);
}

#[test]
fn keypad_reports_the_keys_that_are_down() {
    let mut keypad = Keypad::new();
    keypad.press(0xA);
    keypad.press(0x3);
    assert!(keypad.is_key_down(0xA));
    assert!(keypad.is_key_down(0x3));
    assert!(!keypad.is_key_down(0x4));
    assert_eq!(keypad.get_pressed_key(), Some(0x3));
    keypad.release(0x3);
    assert!(!keypad.is_key_down(0x3));
    assert_eq!(keypad.get_pressed_key(), Some(0xA));
    keypad.release(0xA);
    assert_eq!(keypad.get_pressed_key(), None);
}

#[test]
fn keypad_knows_its_first_and_last_key() {
    let mut keypad = Keypad::new();
    keypad.press(0xF);
    assert_eq!(keypad.get_pressed_key(), Some(0xF));
    keypad.press(0x0);
    assert_eq!(keypad.get_pressed_key(), Some(0x0));
}

#[test]
fn keypad_ignores_codes_that_name_no_key() {
    let mut keypad = Keypad::new();
    keypad.press(16);
    keypad.press(200);
    assert_eq!(keypad, Keypad::new());
    assert!(!keypad.is_key_down(16));
    keypad.press(1);
    keypad.release(17);
    assert!(keypad.is_key_down(1));
}

#[test]
fn host_keys_stand_for_the_keys_of_the_keypad() {
    let layout = [
        ("Digit1", 0x1),
        ("Digit2", 0x2),
        ("Digit3", 0x3),
        ("Digit4", 0xC),
        ("KeyQ", 0x4),
        ("KeyW", 0x5),
        ("KeyE", 0x6),
        ("KeyR", 0xD),
        ("KeyA", 0x7),
        ("KeyS", 0x8),
        ("KeyD", 0x9),
        ("KeyF", 0xE),
        ("KeyZ", 0xA),
        ("KeyX", 0x0),
        ("KeyC", 0xB),
        ("KeyV", 0xF),
    ];
    let mut seen = [false; 16];
    for (name, code) in layout {
        assert_eq!(key_code(name), Some(code));
        assert!(!seen[code as usize]);
        seen[code as usize] = true;
    }
    assert_eq!(seen, [true; 16]);
}

#[test]
fn other_host_keys_stand_for_no_key() {
    for name in [
        "", "Digit", "Digit0", "Digit5", "Digit11", "digit1", "KeyB", "Keyq", "KeyQQ", "Key",
        "Space", "Enter", "KeyÄ", " KeyQ",
    ] {
        assert_eq!(key_code(name), None);
    }
}

#[test]
fn key_events_of_the_host_move_the_keys_they_stand_for() {
    let mut keypad = Keypad::new();
    keypad.handle_keydown("KeyX");
    assert!(keypad.is_key_down(0x0));
    assert_eq!(keypad.get_pressed_key(), Some(0x0));
    keypad.handle_keydown("Digit4");
    assert!(keypad.is_key_down(0xC));
    keypad.handle_keydown("Escape");
    keypad.handle_keyup("KeyX");
    assert!(!keypad.is_key_down(0x0));
    assert_eq!(keypad.get_pressed_key(), Some(0xC));
    keypad.handle_keyup("Digit4");
    keypad.handle_keyup("Escape");
    assert_eq!(keypad, Keypad::new());
}
