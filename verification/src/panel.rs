//! Control state of the control panel: how it reacts to the events the agent
//! sends it and to the commands of its camera path timeline.
use vstd::prelude::*;
use vstd::string::*;
use crate::protocol::{CameraMode, OutboundGameControlEvent};
use crate::text::{decimal, two_digits, u32_to_string, u32_two_digits};

verus! {

/// Bit pattern of the default freecam field of view, 48 degrees in radians
/// as an `f32`.
pub const DEFAULT_FOV_BITS: u32 = 0x3F56_7750;

/// What the timeline asks the control panel to do.
#[derive(PartialEq, Eq, Structural, Clone, Copy, Debug)]
pub enum TimelineControlCommand {
    /// The path played to its end.
    PlaybackDone,
    /// The user moved the playhead.
    Scrub,
}

/// Work the control panel does after a decision, in order: requests to the
/// agent and changes to its own timeline.
#[derive(PartialEq, Eq, Structural, Clone, Copy, Debug)]
pub enum PanelCommand {
    /// Snapshot the game camera into a new keyframe of the timeline.
    CreateKeyframe,
    /// Send the timeline's keyframes to the agent.
    PushKeyframes,
    /// Start the timeline from its beginning.
    TimelinePlay,
    /// Stop the timeline where it is.
    TimelineStop,
    SetCameraMode { mode: CameraMode },
    SetPlaybackState { playing: bool, time_bits: u32 },
    SetFreecamLocked { locked: bool },
    SetHudDisabled { disabled: bool },
    SetDebugPauseEnabled { enabled: bool },
    SetGameSpeedMultiplierEnabled { enabled: bool },
}

/// The decision state of the control panel.
#[derive(PartialEq, Eq, Structural, Clone, Copy, Debug)]
pub struct ControlPanel {
    pub camera_mode: CameraMode,
    pub hud_disabled: bool,
    pub debug_pause_enabled: bool,
    pub freecam_locked: bool,
    pub gamespeed_enabled: bool,
    /// Field of view shown for the freecam, as `f32` bits.
    pub freecam_fov_bits: u32,
}

pub open spec fn initial_panel() -> ControlPanel {
    ControlPanel {
        camera_mode: CameraMode::Game,
        hud_disabled: false,
        debug_pause_enabled: false,
        freecam_locked: false,
        gamespeed_enabled: false,
        freecam_fov_bits: DEFAULT_FOV_BITS,
    }
}

/// The mode the freecam toggle switches to.
pub open spec fn toggled_mode(mode: CameraMode) -> CameraMode {
    if mode == CameraMode::Freecam {
        CameraMode::Game
    } else {
        CameraMode::Freecam
    }
}

/// The control panel's reaction to an event of the agent: its next state and
/// the work it does, in order.
pub open spec fn panel_step(s: ControlPanel, e: OutboundGameControlEvent) -> (ControlPanel, Seq<
    PanelCommand,
>) {
    match e {
        OutboundGameControlEvent::CreateKeyframe => (
            s,
            seq![PanelCommand::CreateKeyframe, PanelCommand::PushKeyframes],
        ),
        OutboundGameControlEvent::PlayPath => (
            ControlPanel { camera_mode: CameraMode::Playback, ..s },
            seq![
                PanelCommand::TimelinePlay,
                PanelCommand::SetCameraMode { mode: CameraMode::Playback },
                PanelCommand::SetPlaybackState { playing: true, time_bits: 0 },
            ],
        ),
        OutboundGameControlEvent::ToggleFreecam => (
            ControlPanel { camera_mode: toggled_mode(s.camera_mode), ..s },
            seq![
                PanelCommand::TimelineStop,
                PanelCommand::SetCameraMode { mode: toggled_mode(s.camera_mode) },
            ],
        ),
        OutboundGameControlEvent::ToggleFreecamLock => (
            ControlPanel { freecam_locked: !s.freecam_locked, ..s },
            seq![PanelCommand::SetFreecamLocked { locked: !s.freecam_locked }],
        ),
        OutboundGameControlEvent::ToggleHud => (
            ControlPanel { hud_disabled: !s.hud_disabled, ..s },
            seq![PanelCommand::SetHudDisabled { disabled: !s.hud_disabled }],
        ),
        OutboundGameControlEvent::ToggleDebugPause => (
            ControlPanel { debug_pause_enabled: !s.debug_pause_enabled, ..s },
            seq![PanelCommand::SetDebugPauseEnabled { enabled: !s.debug_pause_enabled }],
        ),
        OutboundGameControlEvent::ToggleGameSpeed => (
            ControlPanel { gamespeed_enabled: !s.gamespeed_enabled, ..s },
            seq![PanelCommand::SetGameSpeedMultiplierEnabled { enabled: !s.gamespeed_enabled }],
        ),
        OutboundGameControlEvent::SetCameraMode { mode } => (
            ControlPanel { camera_mode: mode, ..s },
            Seq::empty(),
        ),
        OutboundGameControlEvent::UpdateFreecamFov { fov_bits } => (
            ControlPanel { freecam_fov_bits: fov_bits, ..s },
            Seq::empty(),
        ),
    }
}

/// The mode a timeline command puts the camera in.
pub open spec fn timeline_mode(c: TimelineControlCommand) -> CameraMode {
    match c {
        TimelineControlCommand::PlaybackDone => CameraMode::Freecam,
        TimelineControlCommand::Scrub => CameraMode::Playback,
    }
}

impl ControlPanel {
    pub fn new() -> (s: Self)
        ensures
            s == initial_panel(),
    {
        ControlPanel {
            camera_mode: CameraMode::Game,
            hud_disabled: false,
            debug_pause_enabled: false,
            freecam_locked: false,
            gamespeed_enabled: false,
            freecam_fov_bits: DEFAULT_FOV_BITS,
        }
    }

    /// Handles one event of the agent and returns the work to do, in order.
    pub fn handle_game_event(&mut self, event: OutboundGameControlEvent) -> (commands: Vec<
        PanelCommand,
    >)
        ensures
            *final(self) == panel_step(*old(self), event).0,
            commands@ == panel_step(*old(self), event).1,
    {
        let mut commands: Vec<PanelCommand> = Vec::new();
        match event {
            OutboundGameControlEvent::CreateKeyframe => {
                commands.push(PanelCommand::CreateKeyframe);
                commands.push(PanelCommand::PushKeyframes);
            },
            OutboundGameControlEvent::PlayPath => {
                self.camera_mode = CameraMode::Playback;
                commands.push(PanelCommand::TimelinePlay);
                commands.push(PanelCommand::SetCameraMode { mode: self.camera_mode });
                // The timeline restarts at time zero.
                commands.push(PanelCommand::SetPlaybackState { playing: true, time_bits: 0 });
            },
            OutboundGameControlEvent::ToggleFreecam => {
                if self.camera_mode == CameraMode::Freecam {
                    self.camera_mode = CameraMode::Game;
                } else {
                    self.camera_mode = CameraMode::Freecam;
                }
                commands.push(PanelCommand::TimelineStop);
                commands.push(PanelCommand::SetCameraMode { mode: self.camera_mode });
            },
            OutboundGameControlEvent::ToggleFreecamLock => {
                self.freecam_locked = !self.freecam_locked;
                commands.push(PanelCommand::SetFreecamLocked { locked: self.freecam_locked });
            },
            OutboundGameControlEvent::ToggleHud => {
                self.hud_disabled = !self.hud_disabled;
                commands.push(PanelCommand::SetHudDisabled { disabled: self.hud_disabled });
            },
            OutboundGameControlEvent::ToggleDebugPause => {
                self.debug_pause_enabled = !self.debug_pause_enabled;
                commands.push(PanelCommand::SetDebugPauseEnabled { enabled: self.debug_pause_enabled });
            },
            OutboundGameControlEvent::ToggleGameSpeed => {
                self.gamespeed_enabled = !self.gamespeed_enabled;
                commands.push(
                    PanelCommand::SetGameSpeedMultiplierEnabled { enabled: self.gamespeed_enabled },
                );
            },
            OutboundGameControlEvent::SetCameraMode { mode } => {
                self.camera_mode = mode;
            },
            OutboundGameControlEvent::UpdateFreecamFov { fov_bits } => {
                self.freecam_fov_bits = fov_bits;
            },
        }
        commands
    }

    /// Handles a command of the timeline: a path that played to its end
    /// hands the camera to the freecam, a scrub puts it in playback.
    pub fn handle_timeline_command(&mut self, command: TimelineControlCommand) -> (commands: Vec<
        PanelCommand,
    >)
        ensures
            *final(self) == (ControlPanel { camera_mode: timeline_mode(command), ..*old(self) }),
            commands@ == seq![PanelCommand::SetCameraMode { mode: timeline_mode(command) }],
    {
        match command {
            TimelineControlCommand::PlaybackDone => {
                self.camera_mode = CameraMode::Freecam;
            },
            TimelineControlCommand::Scrub => {
                self.camera_mode = CameraMode::Playback;
            },
        }
        vec![PanelCommand::SetCameraMode { mode: self.camera_mode }]
    }

    /// The user picked a camera mode; the agent is told only of a change.
    pub fn select_camera_mode(&mut self, mode: CameraMode) -> (commands: Vec<PanelCommand>)
        ensures
            final(self).camera_mode == mode,
            *final(self) == (ControlPanel { camera_mode: mode, ..*old(self) }),
            commands@ == if old(self).camera_mode != mode {
                seq![PanelCommand::SetCameraMode { mode }]
            } else {
                Seq::empty()
            },
    {
        let previous = self.camera_mode;
        self.camera_mode = mode;
        if previous != mode {
            vec![PanelCommand::SetCameraMode { mode }]
        } else {
            Vec::new()
        }
    }

    /// Requests to start the path from its beginning, in order; the agent is
    /// asked to keep the current mode first.
    pub fn play_requests(&self) -> (commands: Vec<PanelCommand>)
        ensures
            commands@ == seq![
                PanelCommand::SetCameraMode { mode: self.camera_mode },
                PanelCommand::SetPlaybackState { playing: true, time_bits: 0 },
            ],
    {
        vec![
            PanelCommand::SetCameraMode { mode: self.camera_mode },
            PanelCommand::SetPlaybackState { playing: true, time_bits: 0 },
        ]
    }

    /// The agent accepted a start or stop request of the path: the camera is
    /// in playback.
    pub fn playback_requests_accepted(&mut self)
        ensures
            *final(self) == (ControlPanel { camera_mode: CameraMode::Playback, ..*old(self) }),
    {
        self.camera_mode = CameraMode::Playback;
    }
}

/// Latest minute of the day the time of day control offers.
pub const LAST_MINUTE_OF_DAY: u32 = 23 * 60 + 59;

/// Minute of the day the time of day control starts at.
pub const DEFAULT_TIME_OF_DAY: u32 = 6 * 60;

/// The time of day request for a minute of the day: hours and minutes, each
/// truncated to a byte, and zero seconds.
pub open spec fn time_request(minute_of_day: u32) -> (u8, u8, u8) {
    ((minute_of_day / 60) as u8, (minute_of_day % 60) as u8, 0u8)
}

/// The time of day request for a minute of the day.
pub fn time_of_day_request(minute_of_day: u32) -> (r: (u8, u8, u8))
    ensures
        r == time_request(minute_of_day),
{
    let hours = minute_of_day / 60;
    let minutes = minute_of_day % 60;
    (hours as u8, minutes as u8, 0)
}

/// Label of a minute of the day as hours and minutes, each of at least two
/// digits.
pub open spec fn time_label(minute_of_day: u32) -> Seq<char> {
    two_digits((minute_of_day / 60) as nat) + ":"@ + two_digits((minute_of_day % 60) as nat)
}

/// Label of a minute of the day, such as `06:00`.
pub fn time_of_day_label(minute_of_day: u32) -> (s: String)
    ensures
        s@ == time_label(minute_of_day),
{
    let mut s = u32_two_digits(minute_of_day / 60);
    s.append(":");
    let minutes = u32_two_digits(minute_of_day % 60);
    s.append(minutes.as_str());
    s
}

/// Label of a second marker of the timeline: minutes, then seconds of at
/// least two digits.
pub open spec fn marker_label(second: u32) -> Seq<char> {
    decimal((second / 60) as nat) + ":"@ + two_digits((second % 60) as nat)
}

/// Label of the timeline marker at a second, such as `1:05`.
pub fn timeline_marker_label(second: u32) -> (s: String)
    ensures
        s@ == marker_label(second),
{
    let mut s = u32_to_string(second / 60);
    s.append(":");
    let seconds = u32_two_digits(second % 60);
    s.append(seconds.as_str());
    s
}

/// Seconds between labelled timeline markers: every 5 seconds on paths
/// shorter than two minutes, else every 10.
pub fn marker_interval(shorter_than_two_minutes: bool) -> (n: u32)
    ensures
        n == if shorter_than_two_minutes {
            5u32
        } else {
            10u32
        },
{
    if shorter_than_two_minutes {
        5
    } else {
        10
    }
}

/// Toggling the HUD, the debug pause, the game speed or the freecam lock twice
/// restores the state, and the agent is told both values in turn.
pub proof fn lemma_toggle_twice_restores(s: ControlPanel, e: OutboundGameControlEvent)
    requires
        e == OutboundGameControlEvent::ToggleHud || e == OutboundGameControlEvent::ToggleDebugPause
            || e == OutboundGameControlEvent::ToggleGameSpeed || e
            == OutboundGameControlEvent::ToggleFreecamLock,
    ensures
        panel_step(panel_step(s, e).0, e).0 == s,
        panel_step(s, e).1.len() == 1,
        panel_step(panel_step(s, e).0, e).1.len() == 1,
        panel_step(s, e).1[0] != panel_step(panel_step(s, e).0, e).1[0],
{
}

/// Toggling the freecam twice, outside playback, restores the camera mode.
pub proof fn lemma_toggle_freecam_twice(s: ControlPanel)
    requires
        s.camera_mode != CameraMode::Playback,
    ensures
        panel_step(panel_step(s, OutboundGameControlEvent::ToggleFreecam).0, OutboundGameControlEvent::ToggleFreecam).0 == s,
{
}

/// The freecam toggle leaves the freecam for the game camera, and enters
/// the freecam from any other mode.
pub proof fn lemma_toggle_freecam_target(s: ControlPanel)
    ensures
        panel_step(s, OutboundGameControlEvent::ToggleFreecam).0.camera_mode == if s.camera_mode
            == CameraMode::Freecam {
            CameraMode::Game
        } else {
            CameraMode::Freecam
        },
{
}

/// Each toggle flips its own setting, leaves every other setting and the
/// camera mode as they were, and sends the agent exactly the new value of
/// that setting.
pub proof fn lemma_toggles_flip_their_own_setting(s: ControlPanel)
    ensures
        ({
            let (t, cmds) = panel_step(s, OutboundGameControlEvent::ToggleDebugPause);
            &&& t.debug_pause_enabled == !s.debug_pause_enabled
            &&& t.hud_disabled == s.hud_disabled
            &&& t.freecam_locked == s.freecam_locked
            &&& t.gamespeed_enabled == s.gamespeed_enabled
            &&& t.camera_mode == s.camera_mode
            &&& t.freecam_fov_bits == s.freecam_fov_bits
            &&& cmds == seq![PanelCommand::SetDebugPauseEnabled { enabled: t.debug_pause_enabled }]
        }),
        ({
            let (t, cmds) = panel_step(s, OutboundGameControlEvent::ToggleHud);
            &&& t.hud_disabled == !s.hud_disabled
            &&& t.debug_pause_enabled == s.debug_pause_enabled
            &&& t.freecam_locked == s.freecam_locked
            &&& t.gamespeed_enabled == s.gamespeed_enabled
            &&& t.camera_mode == s.camera_mode
            &&& t.freecam_fov_bits == s.freecam_fov_bits
            &&& cmds == seq![PanelCommand::SetHudDisabled { disabled: t.hud_disabled }]
        }),
        ({
            let (t, cmds) = panel_step(s, OutboundGameControlEvent::ToggleGameSpeed);
            &&& t.gamespeed_enabled == !s.gamespeed_enabled
            &&& t.hud_disabled == s.hud_disabled
            &&& t.debug_pause_enabled == s.debug_pause_enabled
            &&& t.freecam_locked == s.freecam_locked
            &&& t.camera_mode == s.camera_mode
            &&& t.freecam_fov_bits == s.freecam_fov_bits
            &&& cmds == seq![
                PanelCommand::SetGameSpeedMultiplierEnabled { enabled: t.gamespeed_enabled },
            ]
        }),
        ({
            let (t, cmds) = panel_step(s, OutboundGameControlEvent::ToggleFreecamLock);
            &&& t.freecam_locked == !s.freecam_locked
            &&& t.hud_disabled == s.hud_disabled
            &&& t.debug_pause_enabled == s.debug_pause_enabled
            &&& t.gamespeed_enabled == s.gamespeed_enabled
            &&& t.camera_mode == s.camera_mode
            &&& t.freecam_fov_bits == s.freecam_fov_bits
            &&& cmds == seq![PanelCommand::SetFreecamLocked { locked: t.freecam_locked }]
        }),
{
}

} // verus!
