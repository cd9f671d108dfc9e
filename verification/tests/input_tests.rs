use camera_tool::input::{
    blocks_keyboard_and_mouse, extended_scan_code, mouse_wheel_delta, normalize_vk,
    raw_input_blocked, Input, InputBlockMode, RawInputKind, KEYSPACE_SIZE,
};

fn keyboard_with(held: &[usize]) -> Vec<u8> {
    let mut kbd = vec![0u8; KEYSPACE_SIZE];
    for &k in held {
        kbd[k] = 0x80;
    }
    kbd
}

#[test]
fn new_input_has_nothing_held() {
    let input = Input::new();
    for k in 0..256 {
        assert!(!input.key_pressed(k));
        assert!(!input.key_down(k));
        assert!(!input.key_up(k));
    }
    assert_eq!(input.mousewheel_delta(), 0);
}

#[test]
fn update_reports_key_edges() {
    let mut input = Input::new();
    input.update(true, &keyboard_with(&[0x57]), &[]);
    assert!(input.key_pressed(0x57));
    assert!(input.key_down(0x57));
    assert!(!input.key_up(0x57));

    // Still held: no longer a down edge.
    input.update(true, &keyboard_with(&[0x57]), &[]);
    assert!(input.key_pressed(0x57));
    assert!(!input.key_down(0x57));

    // Released: an up edge.
    input.update(true, &keyboard_with(&[]), &[]);
    assert!(!input.key_pressed(0x57));
    assert!(input.key_up(0x57));
}

#[test]
fn only_the_high_bit_means_held() {
    let mut input = Input::new();
    let mut kbd = vec![0u8; KEYSPACE_SIZE];
    kbd[0x41] = 0x01; // toggle bit only
    kbd[0x42] = 0x81;
    input.update(true, &kbd, &[]);
    assert!(!input.key_pressed(0x41));
    assert!(input.key_pressed(0x42));
}

#[test]
fn wheel_keeps_the_last_event() {
    let mut input = Input::new();
    input.update(true, &keyboard_with(&[]), &[120, -240, 360]);
    assert_eq!(input.mousewheel_delta(), 360);
    input.update(true, &keyboard_with(&[]), &[]);
    assert_eq!(input.mousewheel_delta(), 0);
}

#[test]
fn unfocused_update_releases_everything() {
    let mut input = Input::new();
    input.update(true, &keyboard_with(&[0x10, 0x20]), &[120]);
    input.update(false, &keyboard_with(&[0x10, 0x20]), &[120]);
    assert!(!input.key_pressed(0x10));
    assert!(!input.key_up(0x10));
    assert!(!input.key_down(0x20));
    assert_eq!(input.mousewheel_delta(), 0);
}

#[test]
fn block_modes() {
    assert!(!blocks_keyboard_and_mouse(InputBlockMode::Unblocked));
    assert!(blocks_keyboard_and_mouse(InputBlockMode::KeyboardAndMouse));
    assert!(!blocks_keyboard_and_mouse(InputBlockMode::Gamepad));
    assert_eq!(InputBlockMode::default(), InputBlockMode::Unblocked);
}

#[test]
fn scan_code_prefixes() {
    assert_eq!(extended_scan_code(0x1D, 0), 0x1D);
    assert_eq!(extended_scan_code(0x1D, 2), 0xE01D);
    assert_eq!(extended_scan_code(0x1D, 4), 0xE11D);
    assert_eq!(extended_scan_code(0x1D, 6), 0xE11D);
}

#[test]
fn normalize_modifier_keys() {
    // Shift takes the layout's translation, else left shift.
    assert_eq!(normalize_vk(0x10, 0xA1, 0), 0xA1);
    assert_eq!(normalize_vk(0x10, 0, 0), 0xA0);
    // Control and Alt use the E0 prefix for the right-hand key.
    assert_eq!(normalize_vk(0x11, 0x11, 2), 0xA3);
    assert_eq!(normalize_vk(0x11, 0x11, 0), 0xA2);
    assert_eq!(normalize_vk(0x12, 0, 2), 0xA5);
    assert_eq!(normalize_vk(0x12, 0, 0), 0xA4);
    // Other keys: the translation if any, else the reported key.
    assert_eq!(normalize_vk(0x41, 0x42, 0), 0x42);
    assert_eq!(normalize_vk(0x41, 0, 0), 0x41);
}

#[test]
fn raw_input_blocking_lets_escape_through() {
    assert!(raw_input_blocked(true, RawInputKind::Mouse));
    assert!(raw_input_blocked(true, RawInputKind::Keyboard { key: 0x41 }));
    assert!(!raw_input_blocked(true, RawInputKind::Keyboard { key: 0x1B }));
    assert!(!raw_input_blocked(false, RawInputKind::Mouse));
    assert!(raw_input_blocked(true, RawInputKind::Other));
}

#[test]
fn wheel_delta_of_raw_mouse_events() {
    assert_eq!(mouse_wheel_delta(0x0400, 120), Some(120));
    assert_eq!(mouse_wheel_delta(0x0400, 0xFF88), Some(-120));
    assert_eq!(mouse_wheel_delta(0x0001, 120), None);
}
