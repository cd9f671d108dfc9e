use camera_tool::program_title;
use camera_tool::protocol::{
    KeybindInput, KeybindMapping, PlaybackSettingsData, RemoteError, SettingsData,
    SettingsDataKeybind, F32_ONE_BITS, F32_TEN_BITS,
};

#[test]
fn default_keybinds() {
    let m = KeybindMapping::default();
    assert_eq!(m.create_keyframe, Some(KeybindInput::KeyDown(0x79)));
    assert_eq!(m.play_path, Some(KeybindInput::KeyDown(0x73)));
    assert_eq!(m.toggle_freecam, Some(KeybindInput::KeyDown(0x78)));
    assert_eq!(m.toggle_freecam_lock, Some(KeybindInput::KeyDown(0x77)));
    assert_eq!(m.toggle_hud, Some(KeybindInput::KeyDown(0x2e)));
    assert_eq!(m.toggle_debug_pause, Some(KeybindInput::KeyDown(0x50)));
    assert_eq!(m.toggle_game_speed, Some(KeybindInput::KeyDown(0x4f)));
    assert_eq!(m.increase_fov, Some(KeybindInput::ScrollDown));
    assert_eq!(m.decrease_fov, Some(KeybindInput::ScrollUp));
}

#[test]
fn float_constants() {
    assert_eq!(F32_ONE_BITS, 1.0f32.to_bits());
    assert_eq!(F32_TEN_BITS, 10.0f32.to_bits());
}

#[test]
fn default_settings() {
    let s = SettingsData::default();
    assert_eq!(f32::from_bits(s.time_between_created_keyframes_bits), 10.0);
    assert_eq!(s.keybinds, KeybindMapping::default());
    let p = PlaybackSettingsData::default();
    assert!(!p.gamespeed_enabled_on_playback && !p.unpause_on_playback);
    assert_eq!(f32::from_bits(p.gamespeed_multiplier_bits), 1.0);
    assert_eq!(SettingsDataKeybind { key: 3 }, SettingsDataKeybind { key: 3 });
}

#[test]
fn remote_error_messages() {
    assert_eq!(RemoteError::UnknownGame.message(), "Game or version of game is not supported.");
    assert_eq!(RemoteError::AcquireAgent.message(), "Could not inject agent DLL into game");
    assert_eq!(
        RemoteError::AcquireProcedure("poll_events".to_string()).message(),
        "Could not locate remote procudure \"poll_events\""
    );
    assert_eq!(
        RemoteError::AcquireCSCamera.message(),
        "Could not obtain an instance of CSCamera, are you loaded into a map?"
    );
    assert_eq!(
        RemoteError::AcquireWorldChrMan.message(),
        "Could not obtain an instance of WorldChrMan, are you loaded into a map?"
    );
}

#[test]
fn title() {
    assert_eq!(program_title("1.2.3"), "Freecam+ v1.2.3");
}
