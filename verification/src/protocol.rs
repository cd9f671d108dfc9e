//! Messages and shared data exchanged between the control panel and the agent.
use vstd::prelude::*;
use vstd::string::*;

verus! {

/// Who controls the camera.
#[derive(PartialEq, Eq, Structural, Clone, Copy, Debug)]
pub enum CameraMode {
    /// Game is in full control of the camera.
    Game,
    /// Freecam mode is active.
    Freecam,
    /// Camera is in playback mode on a specific path.
    Playback,
}

/// An input that can trigger a bound action.
#[derive(PartialEq, Eq, Structural, Clone, Copy, Debug)]
pub enum KeybindInput {
    /// Virtual key held down.
    KeyPressed(i32),
    /// Virtual key went down this frame.
    KeyDown(i32),
    ScrollUp,
    ScrollDown,
}

/// The binding of each bindable action.
#[derive(PartialEq, Eq, Structural, Clone, Copy, Debug)]
pub struct KeybindMapping {
    pub create_keyframe: Option<KeybindInput>,
    pub play_path: Option<KeybindInput>,
    pub toggle_freecam: Option<KeybindInput>,
    pub toggle_freecam_lock: Option<KeybindInput>,
    pub toggle_hud: Option<KeybindInput>,
    pub toggle_debug_pause: Option<KeybindInput>,
    pub toggle_game_speed: Option<KeybindInput>,
    pub increase_fov: Option<KeybindInput>,
    pub decrease_fov: Option<KeybindInput>,
}

/// The bindings a fresh installation starts with.
pub open spec fn default_keybind_mapping() -> KeybindMapping {
    KeybindMapping {
        create_keyframe: Some(KeybindInput::KeyDown(0x79)),
        play_path: Some(KeybindInput::KeyDown(0x73)),
        toggle_freecam: Some(KeybindInput::KeyDown(0x78)),
        toggle_freecam_lock: Some(KeybindInput::KeyDown(0x77)),
        toggle_hud: Some(KeybindInput::KeyDown(0x2e)),
        toggle_debug_pause: Some(KeybindInput::KeyDown(0x50)),
        toggle_game_speed: Some(KeybindInput::KeyDown(0x4f)),
        increase_fov: Some(KeybindInput::ScrollDown),
        decrease_fov: Some(KeybindInput::ScrollUp),
    }
}

impl Default for KeybindMapping {
    fn default() -> (m: Self)
        ensures
            m == default_keybind_mapping(),
    {
        KeybindMapping {
            // F10
            create_keyframe: Some(KeybindInput::KeyDown(0x79)),
            // F4
            play_path: Some(KeybindInput::KeyDown(0x73)),
            // F9
            toggle_freecam: Some(KeybindInput::KeyDown(0x78)),
            // F8
            toggle_freecam_lock: Some(KeybindInput::KeyDown(0x77)),
            // DEL
            toggle_hud: Some(KeybindInput::KeyDown(0x2e)),
            // P
            toggle_debug_pause: Some(KeybindInput::KeyDown(0x50)),
            // O
            toggle_game_speed: Some(KeybindInput::KeyDown(0x4f)),
            increase_fov: Some(KeybindInput::ScrollDown),
            decrease_fov: Some(KeybindInput::ScrollUp),
        }
    }
}

/// Events the agent sends to the control panel.
///
/// Floating point payloads travel as their IEEE 754 bit patterns: the
/// library never computes with them, it only hands them on.
#[derive(PartialEq, Eq, Structural, Clone, Copy, Debug)]
pub enum OutboundGameControlEvent {
    CreateKeyframe,
    PlayPath,
    ToggleFreecam,
    ToggleFreecamLock,
    ToggleHud,
    ToggleDebugPause,
    ToggleGameSpeed,
    SetCameraMode { mode: CameraMode },
    UpdateFreecamFov { fov_bits: u32 },
}

/// Bit pattern of the `f32` value 1.0.
pub const F32_ONE_BITS: u32 = 0x3F80_0000;
/// Bit pattern of the `f32` value 10.0.
pub const F32_TEN_BITS: u32 = 0x4120_0000;

/// Settings the control panel hands to the agent.
#[derive(PartialEq, Eq, Structural, Clone, Copy, Debug)]
pub struct SettingsData {
    /// Seconds between keyframes created from the game, as `f32` bits.
    pub time_between_created_keyframes_bits: u32,
    pub keybinds: KeybindMapping,
}

pub open spec fn default_settings_data() -> SettingsData {
    SettingsData {
        time_between_created_keyframes_bits: F32_TEN_BITS,
        keybinds: default_keybind_mapping(),
    }
}

impl Default for SettingsData {
    fn default() -> (s: Self)
        ensures
            s == default_settings_data(),
    {
        SettingsData {
            time_between_created_keyframes_bits: F32_TEN_BITS,
            keybinds: KeybindMapping::default(),
        }
    }
}

/// A single bound key.
#[derive(PartialEq, Eq, Structural, Clone, Copy, Debug)]
pub struct SettingsDataKeybind {
    pub key: u32,
}

/// How the agent behaves while a camera path plays.
#[derive(PartialEq, Eq, Structural, Clone, Copy, Debug)]
pub struct PlaybackSettingsData {
    pub gamespeed_enabled_on_playback: bool,
    /// Game speed multiplier during playback, as `f32` bits.
    pub gamespeed_multiplier_bits: u32,
    pub unpause_on_playback: bool,
}

pub open spec fn default_playback_settings() -> PlaybackSettingsData {
    PlaybackSettingsData {
        gamespeed_enabled_on_playback: false,
        gamespeed_multiplier_bits: F32_ONE_BITS,
        unpause_on_playback: false,
    }
}

impl Default for PlaybackSettingsData {
    fn default() -> (s: Self)
        ensures
            s == default_playback_settings(),
    {
        PlaybackSettingsData {
            gamespeed_enabled_on_playback: false,
            gamespeed_multiplier_bits: F32_ONE_BITS,
            unpause_on_playback: false,
        }
    }
}

/// Events the control panel sends to the agent.
///
/// `K` is the keyframe type, which the library only carries along;
/// floating point payloads travel as their `f32` bit patterns.
#[derive(Clone, Debug)]
pub enum InboundGameControlEvent<K> {
    Initialize { settings: SettingsData },
    Settings { settings: SettingsData },
    SetFreecamMovementSpeed { value_bits: u32 },
    SetFreecamRotationSpeed { value_bits: u32 },
    SetFreecamSpeedModifiers { slow_bits: u32, fast_bits: u32 },
    SetCameraMode { mode: CameraMode },
    SetFreecamLocked { locked: bool },
    SetFreecamFov { fov_bits: u32 },
    SetHudDisabled { disabled: bool },
    SetDebugPauseEnabled { enabled: bool },
    SetTimeOfDay { hours: u8, minutes: u8, seconds: u8 },
    SetCharacterNoDead { enabled: bool },
    SetCharacterNoMove { enabled: bool },
    SetGameSpeedMultiplier { value_bits: u32 },
    SetGameSpeedMultiplierEnabled { enabled: bool },
    SetKeyframes { keyframes: Vec<K> },
    SetPlaybackState { playing: bool, time_bits: u32 },
    SetPlaybackSettings { settings: PlaybackSettingsData },
}

/// Errors of the remote procedures the control panel calls in the agent.
#[derive(Clone, Debug)]
pub enum RemoteError {
    UnknownGame,
    AcquireProcess,
    AcquireAgent,
    AcquireProcedure(String),
    AcquireCSCamera,
    AcquireWorldAreaTime,
    AcquireFieldArea,
    AcquireWorldBlockInfo,
    AcquireWorldChrMan,
}

/// The message shown for an error.
pub open spec fn remote_error_message(e: RemoteError) -> Seq<char> {
    match e {
        RemoteError::UnknownGame => "Game or version of game is not supported."@,
        RemoteError::AcquireProcess => "Could not acquire a process handle"@,
        RemoteError::AcquireAgent => "Could not inject agent DLL into game"@,
        RemoteError::AcquireProcedure(name) => "Could not locate remote procudure \""@ + name@
            + "\""@,
        RemoteError::AcquireCSCamera => "Could not obtain an instance of CSCamera, are you loaded into a map?"@,
        RemoteError::AcquireWorldAreaTime => "Could not obtain an instance of WorldAreaTime, are you loaded into a map?"@,
        RemoteError::AcquireFieldArea => "Could not obtain an instance of FieldArea, are you loaded into a map?"@,
        RemoteError::AcquireWorldBlockInfo => "Could not obtain an instance of WorldBlockInfo, are you loaded into a map?"@,
        RemoteError::AcquireWorldChrMan => "Could not obtain an instance of WorldChrMan, are you loaded into a map?"@,
    }
}

impl RemoteError {
    /// The message shown for this error.
    pub fn message(&self) -> (m: String)
        ensures
            m@ == remote_error_message(*self),
    {
        match self {
            RemoteError::UnknownGame => String::from_str("Game or version of game is not supported."),
            RemoteError::AcquireProcess => String::from_str("Could not acquire a process handle"),
            RemoteError::AcquireAgent => String::from_str("Could not inject agent DLL into game"),
            RemoteError::AcquireProcedure(name) => {
                let mut m = String::from_str("Could not locate remote procudure \"");
                m.append(name.as_str());
                m.append("\"");
                m
            },
            RemoteError::AcquireCSCamera => String::from_str(
                "Could not obtain an instance of CSCamera, are you loaded into a map?",
            ),
            RemoteError::AcquireWorldAreaTime => String::from_str(
                "Could not obtain an instance of WorldAreaTime, are you loaded into a map?",
            ),
            RemoteError::AcquireFieldArea => String::from_str(
                "Could not obtain an instance of FieldArea, are you loaded into a map?",
            ),
            RemoteError::AcquireWorldBlockInfo => String::from_str(
                "Could not obtain an instance of WorldBlockInfo, are you loaded into a map?",
            ),
            RemoteError::AcquireWorldChrMan => String::from_str(
                "Could not obtain an instance of WorldChrMan, are you loaded into a map?",
            ),
        }
    }
}

} // verus!
