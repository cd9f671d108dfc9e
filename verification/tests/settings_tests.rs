use camera_tool::protocol::{KeybindInput, KeybindMapping, SettingsData};
use camera_tool::settings::{
    binding_label, egui_key_to_vk, format_input, loaded_settings, stored_format, Key,
    KeybindEditor, KeybindRequest, ListeningKeybind, SettingsDataV1, SettingsError, SettingsFormat,
};

#[test]
fn v1_settings_migrate_to_defaults() {
    let mut keybinds = KeybindMapping::default();
    keybinds.toggle_hud = None;
    let v1 = SettingsDataV1 {
        apply_gamespeed_only_when_playback_mode_active: true,
        enabling_playback_disables_freecam: true,
        playback_start_restarts_path: false,
        keybinds,
    };
    let s = SettingsData::from(v1);
    assert_eq!(s, SettingsData::default());
    let s: SettingsData = SettingsFormat::V1(v1).into();
    assert_eq!(s, SettingsData::default());
}

#[test]
fn v2_settings_load_as_stored() {
    let mut data = SettingsData::default();
    data.keybinds.play_path = None;
    let s: SettingsData = SettingsFormat::V2(data).into();
    assert_eq!(s, data);
    assert_eq!(stored_format(&data), SettingsFormat::V2(data));
}

#[test]
fn loading_settings() {
    assert_eq!(loaded_settings(false, None).unwrap(), SettingsData::default());
    assert!(matches!(loaded_settings(true, None), Err(SettingsError::Json)));
    let mut data = SettingsData::default();
    data.keybinds.toggle_hud = None;
    assert_eq!(loaded_settings(true, Some(SettingsFormat::V2(data))).unwrap(), data);
}

#[test]
fn input_labels() {
    assert_eq!(format_input(&KeybindInput::ScrollDown), "Scroll down");
    assert_eq!(format_input(&KeybindInput::ScrollUp), "Scroll up");
    assert_eq!(format_input(&KeybindInput::KeyDown(0x41)), "A");
    assert_eq!(format_input(&KeybindInput::KeyPressed(0x69)), "Num9");
    assert_eq!(format_input(&KeybindInput::KeyDown(0x1B)), "Escape");
    assert_eq!(format_input(&KeybindInput::KeyDown(0x2E)), "Delete");
    assert_eq!(format_input(&KeybindInput::KeyDown(0x79)), "F10");
    assert_eq!(format_input(&KeybindInput::KeyDown(0x87)), "F24");
    assert_eq!(format_input(&KeybindInput::KeyDown(0x5B)), "Unknown");
}

#[test]
fn key_codes() {
    assert_eq!(egui_key_to_vk(Key::A), 0x41);
    assert_eq!(egui_key_to_vk(Key::Z), 0x5A);
    assert_eq!(egui_key_to_vk(Key::Num0), 0x60);
    assert_eq!(egui_key_to_vk(Key::Space), 0x20);
    assert_eq!(egui_key_to_vk(Key::F1), 0x70);
    assert_eq!(egui_key_to_vk(Key::F24), 0x87);
}

#[test]
fn captured_keys_show_their_own_name() {
    for (k, name) in [(Key::Q, "Q"), (Key::Num5, "Num5"), (Key::ArrowLeft, "ArrowLeft"), (Key::F13, "F13")] {
        assert_eq!(format_input(&KeybindInput::KeyDown(egui_key_to_vk(k))), name);
    }
}

#[test]
fn button_labels() {
    assert_eq!(binding_label(true, &None), "Listening for input");
    assert_eq!(binding_label(false, &None), "Unbound");
    assert_eq!(binding_label(false, &Some(KeybindInput::ScrollUp)), "Scroll up");
}

#[test]
fn editor_binds_the_caught_key() {
    let mut e = KeybindEditor::new(KeybindMapping::default());
    // Input without a pending action changes nothing.
    e.capture(false, &vec![Key::B], 0);
    assert_eq!(e.mapping, KeybindMapping::default());
    e.keybind_column(ListeningKeybind::ToggleHud, KeybindRequest::StartBinding);
    assert!(e.is_listening(ListeningKeybind::ToggleHud));
    // Nothing caught: keeps waiting.
    e.capture(false, &vec![], 0);
    assert!(e.is_listening(ListeningKeybind::ToggleHud));
    // The last key pressed wins.
    e.capture(false, &vec![Key::B, Key::H], 0);
    assert_eq!(e.binding(ListeningKeybind::ToggleHud), Some(KeybindInput::KeyDown(0x48)));
    assert!(e.listening.is_none());
}

#[test]
fn editor_scroll_and_escape() {
    let mut e = KeybindEditor::new(KeybindMapping::default());
    e.keybind_column(ListeningKeybind::IncreaseFov, KeybindRequest::StartBinding);
    e.capture(false, &vec![], 1);
    assert_eq!(e.mapping.increase_fov, Some(KeybindInput::ScrollUp));
    e.keybind_column(ListeningKeybind::DecreaseFov, KeybindRequest::StartBinding);
    e.capture(false, &vec![], -1);
    assert_eq!(e.mapping.decrease_fov, Some(KeybindInput::ScrollDown));
    // Escape alone stops waiting and keeps the binding.
    e.keybind_column(ListeningKeybind::PlayPath, KeybindRequest::StartBinding);
    e.capture(true, &vec![], 0);
    assert!(e.listening.is_none());
    assert_eq!(e.mapping.play_path, KeybindMapping::default().play_path);
    // Escape with a caught key still binds it.
    e.keybind_column(ListeningKeybind::PlayPath, KeybindRequest::StartBinding);
    e.capture(true, &vec![Key::P], 0);
    assert_eq!(e.mapping.play_path, Some(KeybindInput::KeyDown(0x50)));
}

#[test]
fn editor_removes_bindings() {
    let mut e = KeybindEditor::new(KeybindMapping::default());
    e.keybind_column(ListeningKeybind::ToggleFreecamLock, KeybindRequest::Remove);
    assert_eq!(e.mapping.toggle_freecam_lock, None);
    assert_eq!(e.mapping.toggle_freecam, KeybindMapping::default().toggle_freecam);
}
