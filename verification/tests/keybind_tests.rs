use camera_tool::input::{Input, KEYSPACE_SIZE};
use camera_tool::keybind::{FreeCamKeys, Keybinds, SpeedModifier};
use camera_tool::protocol::{KeybindInput, KeybindMapping, OutboundGameControlEvent};

fn frame(held: &[usize], previous: &[usize], wheel: &[i16]) -> Input {
    let mut input = Input::new();
    let mut kbd = vec![0u8; KEYSPACE_SIZE];
    for &k in previous {
        kbd[k] = 0x80;
    }
    input.update(true, &kbd, &[]);
    let mut kbd = vec![0u8; KEYSPACE_SIZE];
    for &k in held {
        kbd[k] = 0x80;
    }
    input.update(true, &kbd, wheel);
    input
}

#[test]
fn from_and_set_mapping() {
    let mut k = Keybinds::from_mapping(KeybindMapping::default());
    assert_eq!(k.mapping, KeybindMapping::default());
    let mut m = KeybindMapping::default();
    m.toggle_hud = None;
    k.set_mapping(m);
    assert_eq!(k.mapping.toggle_hud, None);
}

#[test]
fn general_bindings_fire_on_key_down() {
    let k = Keybinds::from_mapping(KeybindMapping::default());
    // F9 toggles the freecam, DEL the HUD.
    let input = frame(&[0x78, 0x2e], &[], &[]);
    assert_eq!(
        k.execute_general_bindings(&input),
        vec![OutboundGameControlEvent::ToggleFreecam, OutboundGameControlEvent::ToggleHud]
    );
    // Held from the previous frame: no down edge, nothing fires.
    let input = frame(&[0x78], &[0x78], &[]);
    assert!(k.execute_general_bindings(&input).is_empty());
}

#[test]
fn general_bindings_order() {
    let k = Keybinds::from_mapping(KeybindMapping::default());
    let input = frame(&[0x73, 0x78, 0x50, 0x4f, 0x2e], &[], &[]);
    assert_eq!(
        k.execute_general_bindings(&input),
        vec![
            OutboundGameControlEvent::PlayPath,
            OutboundGameControlEvent::ToggleFreecam,
            OutboundGameControlEvent::ToggleDebugPause,
            OutboundGameControlEvent::ToggleGameSpeed,
            OutboundGameControlEvent::ToggleHud,
        ]
    );
}

#[test]
fn freecam_bindings() {
    let k = Keybinds::from_mapping(KeybindMapping::default());
    let input = frame(&[0x79, 0x77], &[], &[]);
    assert_eq!(
        k.execute_freecam_bindings(&input),
        vec![OutboundGameControlEvent::CreateKeyframe, OutboundGameControlEvent::ToggleFreecamLock]
    );
}

#[test]
fn scroll_binding_fires_once_per_notch() {
    let mut m = KeybindMapping::default();
    m.toggle_hud = Some(KeybindInput::ScrollDown);
    let k = Keybinds::from_mapping(m);
    let input = frame(&[], &[], &[-360]);
    assert_eq!(k.execute_general_bindings(&input), vec![OutboundGameControlEvent::ToggleHud; 3]);
    // Less than a notch: active but no event.
    let input = frame(&[], &[], &[-100]);
    assert!(k.execute_general_bindings(&input).is_empty());
    // Wrong direction.
    let input = frame(&[], &[], &[240]);
    assert!(k.execute_general_bindings(&input).is_empty());
}

#[test]
fn pressed_binding_fires_while_held() {
    let mut m = KeybindMapping::default();
    m.play_path = Some(KeybindInput::KeyPressed(0x20));
    let k = Keybinds::from_mapping(m);
    let input = frame(&[0x20], &[0x20], &[]);
    assert_eq!(k.execute_general_bindings(&input), vec![OutboundGameControlEvent::PlayPath]);
}

#[test]
fn input_active_for_each_kind() {
    let input = frame(&[0x41], &[0x41], &[120]);
    assert!(Keybinds::input_active(&input, &KeybindInput::KeyPressed(0x41)));
    assert!(!Keybinds::input_active(&input, &KeybindInput::KeyDown(0x41)));
    assert!(Keybinds::input_active(&input, &KeybindInput::ScrollUp));
    assert!(!Keybinds::input_active(&input, &KeybindInput::ScrollDown));
}

#[test]
fn freecam_movement_keys() {
    let k = Keybinds::from_mapping(KeybindMapping::default());
    let input = frame(&[0x57, 0x41, 0x51, 0x4D, 0xA4], &[], &[-120]);
    assert_eq!(
        k.make_freecam_input(&input),
        FreeCamKeys { forward: 1, right: -1, up: -1, roll: 1, fov_steps: 1, speed: SpeedModifier::Fast }
    );
    // Opposite keys cancel; control wins over alt.
    let input = frame(&[0x57, 0x53, 0xA4, 0xA2], &[], &[120]);
    assert_eq!(
        k.make_freecam_input(&input),
        FreeCamKeys { forward: 0, right: 0, up: 0, roll: 0, fov_steps: -1, speed: SpeedModifier::Slow }
    );
    let input = frame(&[], &[], &[]);
    assert_eq!(k.make_freecam_input(&input).speed, SpeedModifier::Normal);
}
