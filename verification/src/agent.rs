//! Control state of the in-game agent: how it reacts to the events the control
//! panel sends it.
use vstd::prelude::*;
use crate::game::Game;
use crate::gamespeed::{applied_multiplier, GameSpeed};
use crate::input::InputBlockMode;
use crate::keybind::Keybinds;
use crate::player::Player;
use crate::protocol::{
    CameraMode, InboundGameControlEvent, PlaybackSettingsData, SettingsData,
    default_playback_settings,
};

verus! {

/// Work the agent does on the game after it handled an event.
#[derive(Clone, Debug)]
pub enum AgentAction<K> {
    /// Rebuild the freecam from the game camera. With `announce_fov`, tell the
    /// control panel the game camera's field of view.
    ResetFreecamFromGameCamera { announce_fov: bool },
    /// Ask the game to move to this time of day.
    RequestTimeOfDay { hours: u8, minutes: u8, seconds: u8 },
    SetFreecamMovementSpeed { value_bits: u32 },
    SetFreecamRotationSpeed { value_bits: u32 },
    SetFreecamSpeedModifiers { slow_bits: u32, fast_bits: u32 },
    SetFreecamTargetFov { fov_bits: u32 },
    SetFreecamLocked { locked: bool },
    /// Replace the camera path.
    SetKeyframes { keyframes: Vec<K> },
    /// Start or stop the camera path at a point in time.
    SetPlaybackState { playing: bool, time_bits: u32 },
}

/// The decision state of the agent.
#[derive(PartialEq, Eq, Structural, Clone, Copy, Debug)]
pub struct AgentControl {
    pub game: Game,
    pub keybinds: Keybinds,
    pub camera_mode: CameraMode,
    /// Which input is withheld from the game.
    pub input_block: InputBlockMode,
    pub player: Player,
    pub gamespeed: GameSpeed,
    pub playback_settings: PlaybackSettingsData,
    pub hud_disabled: bool,
    pub debug_pause_enabled: bool,
}

/// Keyboard and mouse are withheld from the game exactly while the freecam
/// has the camera.
pub open spec fn input_block_follows_mode(s: AgentControl) -> bool {
    &&& (s.input_block == InputBlockMode::KeyboardAndMouse) == (s.camera_mode
        == CameraMode::Freecam)
    &&& s.input_block != InputBlockMode::Gamepad
}

/// State right after the agent is initialised with the settings.
pub open spec fn initial_agent_control(game: Game, settings: SettingsData) -> AgentControl {
    AgentControl {
        game,
        keybinds: Keybinds { mapping: settings.keybinds },
        camera_mode: CameraMode::Game,
        input_block: InputBlockMode::Unblocked,
        player: Player { no_dead: false, no_move: false },
        gamespeed: GameSpeed {
            enabled: false,
            playback_multiplier_enabled: false,
            multiplier_bits: crate::protocol::F32_ONE_BITS,
            playback_multiplier_bits: crate::protocol::F32_ONE_BITS,
        },
        playback_settings: default_playback_settings(),
        hud_disabled: false,
        debug_pause_enabled: false,
    }
}

/// Switching the camera to `mode` on request of the control panel.
pub open spec fn switch_mode<K>(s: AgentControl, mode: CameraMode) -> (AgentControl, Seq<
    AgentAction<K>,
>) {
    match mode {
        CameraMode::Game => (
            AgentControl { input_block: InputBlockMode::Unblocked, camera_mode: mode, ..s },
            Seq::empty(),
        ),
        CameraMode::Freecam => (
            AgentControl {
                input_block: InputBlockMode::KeyboardAndMouse,
                camera_mode: mode,
                ..s
            },
            seq![AgentAction::ResetFreecamFromGameCamera { announce_fov: true }],
        ),
        CameraMode::Playback => (
            AgentControl {
                input_block: InputBlockMode::Unblocked,
                camera_mode: mode,
                debug_pause_enabled: if s.playback_settings.unpause_on_playback {
                    false
                } else {
                    s.debug_pause_enabled
                },
                ..s
            },
            Seq::empty(),
        ),
    }
}

/// Starting or stopping the camera path: the path state always goes to the
/// playback camera; with a game camera, leaving any other mode enters
/// playback, and stopping during playback hands the camera to the freecam.
pub open spec fn set_playback_state<K>(
    s: AgentControl,
    playing: bool,
    time_bits: u32,
    camera_available: bool,
) -> (AgentControl, Seq<AgentAction<K>>) {
    let start = seq![AgentAction::SetPlaybackState { playing, time_bits }];
    if !camera_available {
        (s, start)
    } else if s.camera_mode != CameraMode::Playback {
        (
            AgentControl {
                input_block: InputBlockMode::Unblocked,
                camera_mode: CameraMode::Playback,
                debug_pause_enabled: if s.playback_settings.unpause_on_playback {
                    false
                } else {
                    s.debug_pause_enabled
                },
                ..s
            },
            start,
        )
    } else if !playing {
        (
            AgentControl {
                input_block: InputBlockMode::KeyboardAndMouse,
                camera_mode: CameraMode::Freecam,
                ..s
            },
            start.push(AgentAction::ResetFreecamFromGameCamera { announce_fov: false }),
        )
    } else {
        (s, start)
    }
}

/// The agent's reaction to an event of the control panel: its next state and
/// the work it does on the game, in order. `camera_available` tells whether
/// the game currently has a camera instance.
pub open spec fn agent_step<K>(
    s: AgentControl,
    e: InboundGameControlEvent<K>,
    camera_available: bool,
) -> (AgentControl, Seq<AgentAction<K>>) {
    match e {
        InboundGameControlEvent::Initialize { settings } => (
            AgentControl { keybinds: Keybinds { mapping: settings.keybinds }, ..s },
            Seq::empty(),
        ),
        InboundGameControlEvent::Settings { settings } => (
            AgentControl { keybinds: Keybinds { mapping: settings.keybinds }, ..s },
            Seq::empty(),
        ),
        InboundGameControlEvent::SetTimeOfDay { hours, minutes, seconds } => (
            s,
            if s.game == Game::DarkSouls3 {
                Seq::empty()
            } else {
                seq![AgentAction::RequestTimeOfDay { hours, minutes, seconds: 0 }]
            },
        ),
        InboundGameControlEvent::SetCharacterNoDead { enabled } => (
            AgentControl { player: Player { no_dead: enabled, ..s.player }, ..s },
            Seq::empty(),
        ),
        InboundGameControlEvent::SetCharacterNoMove { enabled } => (
            AgentControl { player: Player { no_move: enabled, ..s.player }, ..s },
            Seq::empty(),
        ),
        InboundGameControlEvent::SetCameraMode { mode } => if !camera_available {
            (s, Seq::empty())
        } else {
            switch_mode(s, mode)
        },
        InboundGameControlEvent::SetFreecamMovementSpeed { value_bits } => (
            s,
            seq![AgentAction::SetFreecamMovementSpeed { value_bits }],
        ),
        InboundGameControlEvent::SetFreecamRotationSpeed { value_bits } => (
            s,
            seq![AgentAction::SetFreecamRotationSpeed { value_bits }],
        ),
        InboundGameControlEvent::SetFreecamSpeedModifiers { slow_bits, fast_bits } => (
            s,
            seq![AgentAction::SetFreecamSpeedModifiers { slow_bits, fast_bits }],
        ),
        InboundGameControlEvent::SetFreecamFov { fov_bits } => (
            s,
            seq![AgentAction::SetFreecamTargetFov { fov_bits }],
        ),
        InboundGameControlEvent::SetHudDisabled { disabled } => (
            AgentControl { hud_disabled: disabled, ..s },
            Seq::empty(),
        ),
        InboundGameControlEvent::SetDebugPauseEnabled { enabled } => (
            AgentControl { debug_pause_enabled: enabled, ..s },
            Seq::empty(),
        ),
        InboundGameControlEvent::SetFreecamLocked { locked } => (
            s,
            seq![AgentAction::SetFreecamLocked { locked }],
        ),
        InboundGameControlEvent::SetGameSpeedMultiplier { value_bits } => (
            AgentControl { gamespeed: GameSpeed { multiplier_bits: value_bits, ..s.gamespeed }, ..s },
            Seq::empty(),
        ),
        InboundGameControlEvent::SetGameSpeedMultiplierEnabled { enabled } => (
            AgentControl { gamespeed: GameSpeed { enabled, ..s.gamespeed }, ..s },
            Seq::empty(),
        ),
        InboundGameControlEvent::SetKeyframes { keyframes } => (
            s,
            seq![AgentAction::SetKeyframes { keyframes }],
        ),
        InboundGameControlEvent::SetPlaybackState { playing, time_bits } => set_playback_state(
            s,
            playing,
            time_bits,
            camera_available,
        ),
        InboundGameControlEvent::SetPlaybackSettings { settings } => (
            AgentControl {
                gamespeed: GameSpeed {
                    playback_multiplier_bits: settings.gamespeed_multiplier_bits,
                    ..s.gamespeed
                },
                playback_settings: settings,
                ..s
            },
            Seq::empty(),
        ),
    }
}

/// The state after the per-frame game speed update.
pub open spec fn frame_gamespeed_state(s: AgentControl) -> AgentControl {
    AgentControl {
        gamespeed: GameSpeed {
            playback_multiplier_enabled: s.playback_settings.gamespeed_enabled_on_playback
                && s.camera_mode == CameraMode::Playback,
            ..s.gamespeed
        },
        ..s
    }
}

impl AgentControl {
    /// The agent's state right after it is initialised.
    pub fn new(game: Game, settings: SettingsData) -> (s: Self)
        ensures
            s == initial_agent_control(game, settings),
            input_block_follows_mode(s),
    {
        AgentControl {
            game,
            keybinds: Keybinds::from_mapping(settings.keybinds),
            camera_mode: CameraMode::Game,
            input_block: InputBlockMode::default(),
            player: Player::default(),
            gamespeed: GameSpeed::default(),
            playback_settings: PlaybackSettingsData::default(),
            hud_disabled: false,
            debug_pause_enabled: false,
        }
    }

    /// Handles one event of the control panel and returns the work to do on
    /// the game, in order.
    pub fn handle_event<K>(&mut self, event: InboundGameControlEvent<K>, camera_available: bool) -> (actions: Vec<AgentAction<K>>)
        ensures
            *final(self) == agent_step(*old(self), event, camera_available).0,
            actions@ == agent_step(*old(self), event, camera_available).1,
    {
        let mut actions: Vec<AgentAction<K>> = Vec::new();
        match event {
            InboundGameControlEvent::Initialize { settings } => {
                self.keybinds.set_mapping(settings.keybinds);
            },
            InboundGameControlEvent::Settings { settings } => {
                self.keybinds.set_mapping(settings.keybinds);
            },
            InboundGameControlEvent::SetTimeOfDay { hours, minutes, seconds: _ } => {
                if self.game != Game::DarkSouls3 {
                    actions.push(AgentAction::RequestTimeOfDay { hours, minutes, seconds: 0 });
                }
            },
            InboundGameControlEvent::SetCharacterNoDead { enabled } => {
                self.player.no_dead = enabled;
            },
            InboundGameControlEvent::SetCharacterNoMove { enabled } => {
                self.player.no_move = enabled;
            },
            InboundGameControlEvent::SetCameraMode { mode } => {
                if !camera_available {
                    return actions;
                }
                match mode {
                    CameraMode::Game => {
                        self.input_block = InputBlockMode::Unblocked;
                    },
                    CameraMode::Freecam => {
                        self.input_block = InputBlockMode::KeyboardAndMouse;
                        actions.push(AgentAction::ResetFreecamFromGameCamera { announce_fov: true });
                    },
                    CameraMode::Playback => {
                        if self.playback_settings.unpause_on_playback {
                            self.debug_pause_enabled = false;
                        }
                        self.input_block = InputBlockMode::Unblocked;
                    },
                }
                self.camera_mode = mode;
            },
            InboundGameControlEvent::SetFreecamMovementSpeed { value_bits } => {
                actions.push(AgentAction::SetFreecamMovementSpeed { value_bits });
            },
            InboundGameControlEvent::SetFreecamRotationSpeed { value_bits } => {
                actions.push(AgentAction::SetFreecamRotationSpeed { value_bits });
            },
            InboundGameControlEvent::SetFreecamSpeedModifiers { slow_bits, fast_bits } => {
                actions.push(AgentAction::SetFreecamSpeedModifiers { slow_bits, fast_bits });
            },
            InboundGameControlEvent::SetFreecamFov { fov_bits } => {
                actions.push(AgentAction::SetFreecamTargetFov { fov_bits });
            },
            InboundGameControlEvent::SetHudDisabled { disabled } => {
                self.hud_disabled = disabled;
            },
            InboundGameControlEvent::SetDebugPauseEnabled { enabled } => {
                self.debug_pause_enabled = enabled;
            },
            InboundGameControlEvent::SetFreecamLocked { locked } => {
                actions.push(AgentAction::SetFreecamLocked { locked });
            },
            InboundGameControlEvent::SetGameSpeedMultiplier { value_bits } => {
                self.gamespeed.set_multiplier(value_bits);
            },
            InboundGameControlEvent::SetGameSpeedMultiplierEnabled { enabled } => {
                self.gamespeed.set_multiplier_enabled(enabled);
            },
            InboundGameControlEvent::SetKeyframes { keyframes } => {
                actions.push(AgentAction::SetKeyframes { keyframes });
            },
            InboundGameControlEvent::SetPlaybackState { playing, time_bits } => {
                actions.push(AgentAction::SetPlaybackState { playing, time_bits });
                if !camera_available {
                    return actions;
                }
                if self.camera_mode != CameraMode::Playback {
                    self.input_block = InputBlockMode::Unblocked;
                    self.camera_mode = CameraMode::Playback;
                    if self.playback_settings.unpause_on_playback {
                        self.debug_pause_enabled = false;
                    }
                } else if !playing {
                    self.input_block = InputBlockMode::KeyboardAndMouse;
                    self.camera_mode = CameraMode::Freecam;
                    actions.push(AgentAction::ResetFreecamFromGameCamera { announce_fov: false });
                }
            },
            InboundGameControlEvent::SetPlaybackSettings { settings } => {
                self.gamespeed.set_playback_multiplier(settings.gamespeed_multiplier_bits);
                self.playback_settings = settings;
            },
        }
        actions
    }

    /// Per-frame game speed update: enables the playback multiplier while a
    /// path plays with the playback game speed override on, and returns the
    /// multiplier to write into a game currently running with `current_bits`
    /// (Dark Souls III keeps its own).
    pub fn frame_gamespeed(&mut self, current_bits: u32) -> (new_bits: u32)
        ensures
            *final(self) == frame_gamespeed_state(*old(self)),
            new_bits == if old(self).game == Game::DarkSouls3 {
                current_bits
            } else {
                applied_multiplier(final(self).gamespeed, current_bits)
            },
    {
        let enabled = self.playback_settings.gamespeed_enabled_on_playback
            && self.camera_mode == CameraMode::Playback;
        self.gamespeed.set_playback_multiplier_enabled(enabled);
        if self.game == Game::DarkSouls3 {
            current_bits
        } else {
            self.gamespeed.apply(current_bits)
        }
    }
}

/// Every event keeps keyboard and mouse withheld from the game exactly while
/// the freecam has the camera.
pub proof fn lemma_step_keeps_input_block<K>(
    s: AgentControl,
    e: InboundGameControlEvent<K>,
    camera_available: bool,
)
    requires
        input_block_follows_mode(s),
    ensures
        input_block_follows_mode(agent_step(s, e, camera_available).0),
{
}

/// With a game camera, a request for a camera mode switches to that mode.
pub proof fn lemma_set_camera_mode_enters_mode<K>(s: AgentControl, mode: CameraMode)
    ensures
        agent_step::<K>(s, InboundGameControlEvent::SetCameraMode { mode }, true).0.camera_mode
            == mode,
{
}

/// With a game camera, starting a path always ends in playback mode, and
/// stopping a path that plays hands the camera to the freecam.
pub proof fn lemma_playback_state_modes<K>(s: AgentControl, time_bits: u32)
    ensures
        agent_step::<K>(
            s,
            InboundGameControlEvent::SetPlaybackState { playing: true, time_bits },
            true,
        ).0.camera_mode == CameraMode::Playback,
        s.camera_mode == CameraMode::Playback ==> agent_step::<K>(
            s,
            InboundGameControlEvent::SetPlaybackState { playing: false, time_bits },
            true,
        ).0.camera_mode == CameraMode::Freecam,
{
}

/// Without a game camera, the agent keeps its camera mode and input block.
pub proof fn lemma_no_camera_keeps_mode<K>(s: AgentControl, e: InboundGameControlEvent<K>)
    ensures
        agent_step(s, e, false).0.camera_mode == s.camera_mode,
        agent_step(s, e, false).0.input_block == s.input_block,
{
}

/// The character cheat requests each set their own cheat to the requested
/// value and leave the other cheat, and the rest of the agent's state, as
/// they were; they ask no work of the game.
pub proof fn lemma_character_cheats_set_their_own_flag<K>(
    s: AgentControl,
    enabled: bool,
    camera_available: bool,
)
    ensures
        ({
            let (t, acts) = agent_step::<K>(
                s,
                InboundGameControlEvent::SetCharacterNoDead { enabled },
                camera_available,
            );
            &&& t.player.no_dead == enabled
            &&& t.player.no_move == s.player.no_move
            &&& t.camera_mode == s.camera_mode
            &&& t.input_block == s.input_block
            &&& t.gamespeed == s.gamespeed
            &&& t.keybinds == s.keybinds
            &&& t.hud_disabled == s.hud_disabled
            &&& t.debug_pause_enabled == s.debug_pause_enabled
            &&& acts.len() == 0
        }),
        ({
            let (t, acts) = agent_step::<K>(
                s,
                InboundGameControlEvent::SetCharacterNoMove { enabled },
                camera_available,
            );
            &&& t.player.no_move == enabled
            &&& t.player.no_dead == s.player.no_dead
            &&& t.camera_mode == s.camera_mode
            &&& t.input_block == s.input_block
            &&& t.gamespeed == s.gamespeed
            &&& t.keybinds == s.keybinds
            &&& t.hud_disabled == s.hud_disabled
            &&& t.debug_pause_enabled == s.debug_pause_enabled
            &&& acts.len() == 0
        }),
{
}

/// The HUD, debug pause and game speed requests each set their own setting to
/// the requested value and keep the camera, the cheats and the other settings.
pub proof fn lemma_world_settings_set_their_own_value<K>(
    s: AgentControl,
    flag: bool,
    value_bits: u32,
    camera_available: bool,
)
    ensures
        ({
            let t = agent_step::<K>(
                s,
                InboundGameControlEvent::SetHudDisabled { disabled: flag },
                camera_available,
            ).0;
            &&& t.hud_disabled == flag
            &&& t.debug_pause_enabled == s.debug_pause_enabled
            &&& t.gamespeed == s.gamespeed
            &&& t.player == s.player
            &&& t.camera_mode == s.camera_mode
        }),
        ({
            let t = agent_step::<K>(
                s,
                InboundGameControlEvent::SetDebugPauseEnabled { enabled: flag },
                camera_available,
            ).0;
            &&& t.debug_pause_enabled == flag
            &&& t.hud_disabled == s.hud_disabled
            &&& t.gamespeed == s.gamespeed
            &&& t.player == s.player
            &&& t.camera_mode == s.camera_mode
        }),
        ({
            let t = agent_step::<K>(
                s,
                InboundGameControlEvent::SetGameSpeedMultiplierEnabled { enabled: flag },
                camera_available,
            ).0;
            &&& t.gamespeed.enabled == flag
            &&& t.gamespeed.multiplier_bits == s.gamespeed.multiplier_bits
            &&& t.gamespeed.playback_multiplier_bits == s.gamespeed.playback_multiplier_bits
            &&& t.hud_disabled == s.hud_disabled
            &&& t.debug_pause_enabled == s.debug_pause_enabled
            &&& t.player == s.player
            &&& t.camera_mode == s.camera_mode
        }),
        ({
            let t = agent_step::<K>(
                s,
                InboundGameControlEvent::SetGameSpeedMultiplier { value_bits },
                camera_available,
            ).0;
            &&& t.gamespeed.multiplier_bits == value_bits
            &&& t.gamespeed.enabled == s.gamespeed.enabled
            &&& t.gamespeed.playback_multiplier_bits == s.gamespeed.playback_multiplier_bits
            &&& t.hud_disabled == s.hud_disabled
            &&& t.debug_pause_enabled == s.debug_pause_enabled
            &&& t.player == s.player
            &&& t.camera_mode == s.camera_mode
        }),
{
}

} // verus!
