use camera_tool::panel::{ControlPanel, PanelCommand, TimelineControlCommand, DEFAULT_FOV_BITS};
use camera_tool::protocol::{CameraMode, OutboundGameControlEvent};

#[test]
fn default_fov_is_48_degrees() {
    assert_eq!(DEFAULT_FOV_BITS, 48.0f32.to_radians().to_bits());
    assert_eq!(ControlPanel::new().freecam_fov_bits, DEFAULT_FOV_BITS);
}

#[test]
fn create_keyframe_then_push() {
    let mut p = ControlPanel::new();
    let before = p;
    let c = p.handle_game_event(OutboundGameControlEvent::CreateKeyframe);
    assert_eq!(c, vec![PanelCommand::CreateKeyframe, PanelCommand::PushKeyframes]);
    assert_eq!(p, before);
}

#[test]
fn play_path_restarts_the_timeline_in_playback() {
    let mut p = ControlPanel::new();
    let c = p.handle_game_event(OutboundGameControlEvent::PlayPath);
    assert_eq!(p.camera_mode, CameraMode::Playback);
    assert_eq!(
        c,
        vec![
            PanelCommand::TimelinePlay,
            PanelCommand::SetCameraMode { mode: CameraMode::Playback },
            PanelCommand::SetPlaybackState { playing: true, time_bits: 0.0f32.to_bits() },
        ]
    );
}

#[test]
fn toggle_freecam() {
    let mut p = ControlPanel::new();
    let c = p.handle_game_event(OutboundGameControlEvent::ToggleFreecam);
    assert_eq!(p.camera_mode, CameraMode::Freecam);
    assert_eq!(c, vec![PanelCommand::TimelineStop, PanelCommand::SetCameraMode { mode: CameraMode::Freecam }]);
    p.handle_game_event(OutboundGameControlEvent::ToggleFreecam);
    assert_eq!(p.camera_mode, CameraMode::Game);
    // From playback the toggle enters the freecam, and a second toggle leaves for the game.
    p.handle_game_event(OutboundGameControlEvent::SetCameraMode { mode: CameraMode::Playback });
    p.handle_game_event(OutboundGameControlEvent::ToggleFreecam);
    assert_eq!(p.camera_mode, CameraMode::Freecam);
    p.handle_game_event(OutboundGameControlEvent::ToggleFreecam);
    assert_eq!(p.camera_mode, CameraMode::Game);
}

#[test]
fn toggles_twice_restore() {
    for e in [
        OutboundGameControlEvent::ToggleHud,
        OutboundGameControlEvent::ToggleDebugPause,
        OutboundGameControlEvent::ToggleGameSpeed,
        OutboundGameControlEvent::ToggleFreecamLock,
    ] {
        let mut p = ControlPanel::new();
        let start = p;
        let first = p.handle_game_event(e);
        let second = p.handle_game_event(e);
        assert_eq!(p, start);
        assert_eq!(first.len(), 1);
        assert_ne!(first, second);
    }
    let mut p = ControlPanel::new();
    assert_eq!(
        p.handle_game_event(OutboundGameControlEvent::ToggleHud),
        vec![PanelCommand::SetHudDisabled { disabled: true }]
    );
}

#[test]
fn agent_reports_update_state() {
    let mut p = ControlPanel::new();
    assert!(p.handle_game_event(OutboundGameControlEvent::UpdateFreecamFov { fov_bits: 42 }).is_empty());
    assert_eq!(p.freecam_fov_bits, 42);
    assert!(p
        .handle_game_event(OutboundGameControlEvent::SetCameraMode { mode: CameraMode::Playback })
        .is_empty());
    assert_eq!(p.camera_mode, CameraMode::Playback);
}

#[test]
fn timeline_commands() {
    let mut p = ControlPanel::new();
    assert_eq!(
        p.handle_timeline_command(TimelineControlCommand::PlaybackDone),
        vec![PanelCommand::SetCameraMode { mode: CameraMode::Freecam }]
    );
    assert_eq!(p.camera_mode, CameraMode::Freecam);
    assert_eq!(
        p.handle_timeline_command(TimelineControlCommand::Scrub),
        vec![PanelCommand::SetCameraMode { mode: CameraMode::Playback }]
    );
    assert_eq!(p.camera_mode, CameraMode::Playback);
}

#[test]
fn mode_selection_and_play_requests() {
    let mut p = ControlPanel::new();
    assert!(p.select_camera_mode(CameraMode::Game).is_empty());
    assert_eq!(
        p.select_camera_mode(CameraMode::Freecam),
        vec![PanelCommand::SetCameraMode { mode: CameraMode::Freecam }]
    );
    assert_eq!(
        p.play_requests(),
        vec![
            PanelCommand::SetCameraMode { mode: CameraMode::Freecam },
            PanelCommand::SetPlaybackState { playing: true, time_bits: 0 },
        ]
    );
    p.playback_requests_accepted();
    assert_eq!(p.camera_mode, CameraMode::Playback);
}

use camera_tool::panel::{
    marker_interval, time_of_day_label, time_of_day_request, timeline_marker_label,
    DEFAULT_TIME_OF_DAY, LAST_MINUTE_OF_DAY,
};

#[test]
fn time_of_day() {
    assert_eq!(time_of_day_request(DEFAULT_TIME_OF_DAY), (6, 0, 0));
    assert_eq!(time_of_day_request(LAST_MINUTE_OF_DAY), (23, 59, 0));
    assert_eq!(time_of_day_label(DEFAULT_TIME_OF_DAY), "06:00");
    assert_eq!(time_of_day_label(13 * 60 + 7), "13:07");
    assert_eq!(time_of_day_label(0), "00:00");
}

#[test]
fn timeline_markers() {
    assert_eq!(timeline_marker_label(0), "0:00");
    assert_eq!(timeline_marker_label(65), "1:05");
    assert_eq!(timeline_marker_label(600), "10:00");
    assert_eq!(marker_interval(true), 5);
    assert_eq!(marker_interval(false), 10);
}
