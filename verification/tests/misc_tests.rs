use camera_tool::game::{get_offsets, supported_executable, Game, GameOffsets, ProductVersion};
use camera_tool::gamespeed::GameSpeed;
use camera_tool::path::{get_catmull_neighbors, segment_neighbors};
use camera_tool::player::{CharacterFlags, Player};
use camera_tool::process::{running_games, GameProcess};
use camera_tool::protocol::RemoteError;
use camera_tool::timeline::KeyframeList;

fn v(major: u16, minor: u16, patch: u16, build: u16) -> ProductVersion {
    ProductVersion { major, minor, patch, build }
}

#[test]
fn offsets_of_known_versions() {
    let p = || Some("ELDEN RING NIGHTREIGN".to_string());
    assert_eq!(
        get_offsets(p(), Some(v(1, 2, 4, 0))).unwrap(),
        GameOffsets { move_map_step: 0xbf0260, scaleform_update_b: 0x56be3af, no_dead_flag: 0x3b9ab24 }
    );
    assert_eq!(
        get_offsets(p(), Some(v(1, 1, 5, 0))).unwrap(),
        GameOffsets { move_map_step: 0xba8a70, scaleform_update_b: 0xe26460, no_dead_flag: 0x3b045c4 }
    );
    assert!(matches!(get_offsets(p(), Some(v(1, 3, 0, 0))), Err(RemoteError::UnknownGame)));
    assert!(matches!(
        get_offsets(Some("ELDEN RING".to_string()), Some(v(1, 2, 4, 0))),
        Err(RemoteError::UnknownGame)
    ));
    assert!(matches!(get_offsets(None, Some(v(1, 2, 4, 0))), Err(RemoteError::UnknownGame)));
    assert!(matches!(get_offsets(p(), None), Err(RemoteError::UnknownGame)));
}

#[test]
fn executables() {
    assert_eq!(supported_executable(Game::EldenRing), "eldenring.exe");
    assert_eq!(supported_executable(Game::Nightreign), "nightreign.exe");
    assert_eq!(supported_executable(Game::DarkSouls3), "DarkSoulsIII.exe");
}

#[test]
fn running_games_are_filtered_and_newest_first() {
    let procs = vec![
        (10, "eldenring.exe".to_string()),
        (3, "explorer.exe".to_string()),
        (42, "eldenring.exe".to_string()),
        (7, "eldenring.exe".to_string()),
        (50, "nightreign.exe".to_string()),
    ];
    let games = running_games(Game::EldenRing, &procs);
    let pids: Vec<u32> = games.iter().map(|g| g.pid).collect();
    assert_eq!(pids, vec![42, 10, 7]);
    assert!(games.iter().all(|g| g.name == "eldenring.exe"));
    assert!(running_games(Game::DarkSouls3, &procs).is_empty());
}

#[test]
fn processes_compare_by_id_and_show_name_and_id() {
    let a = GameProcess { pid: 5, name: "eldenring.exe".to_string() };
    let b = GameProcess { pid: 5, name: "other".to_string() };
    let c = GameProcess { pid: 6, name: "eldenring.exe".to_string() };
    assert!(a == b);
    assert!(a != c);
    assert_eq!(a.label(), "eldenring.exe (5)");
    assert_eq!(GameProcess { pid: 1234567, name: "x".to_string() }.label(), "x (1234567)");
    assert_eq!(GameProcess { pid: 0, name: "x".to_string() }.label(), "x (0)");
}

#[test]
fn elden_ring_cheats() {
    let mut p = Some(CharacterFlags { movement_flags: 0x1_0000, debug_flags: 0b1010 });
    Player { no_dead: true, no_move: true }.apply(Game::EldenRing, &mut p);
    assert_eq!(p, Some(CharacterFlags { movement_flags: 0x1_0020, debug_flags: 0b1011 }));
    Player { no_dead: false, no_move: false }.apply(Game::EldenRing, &mut p);
    // No death off keeps only the no death bit of the data flags.
    assert_eq!(p, Some(CharacterFlags { movement_flags: 0x1_0000, debug_flags: 0b0001 }));
    let mut none: Option<CharacterFlags> = None;
    Player { no_dead: true, no_move: true }.apply(Game::EldenRing, &mut none);
    assert_eq!(none, None);
}

#[test]
fn nightreign_and_ds3_cheats() {
    let mut p = Some(CharacterFlags { movement_flags: 0x01, debug_flags: 0x11 });
    Player { no_dead: true, no_move: true }.apply(Game::Nightreign, &mut p);
    assert_eq!(p, Some(CharacterFlags { movement_flags: 0x21, debug_flags: 0x15 }));
    Player { no_dead: false, no_move: false }.apply(Game::Nightreign, &mut p);
    assert_eq!(p, Some(CharacterFlags { movement_flags: 0x21, debug_flags: 0x04 }));
    let mut p = Some(CharacterFlags { movement_flags: 0x01, debug_flags: 0x11 });
    Player { no_dead: false, no_move: true }.apply(Game::DarkSouls3, &mut p);
    assert_eq!(p, Some(CharacterFlags { movement_flags: 0x81, debug_flags: 0x00 }));
    Player { no_dead: false, no_move: false }.apply(Game::DarkSouls3, &mut p);
    assert_eq!(p, Some(CharacterFlags { movement_flags: 0x80, debug_flags: 0x00 }));
}

#[test]
fn cheats_twice_same_as_once() {
    for game in [Game::EldenRing, Game::Nightreign, Game::DarkSouls3] {
        for (no_dead, no_move) in [(false, false), (true, false), (false, true), (true, true)] {
            let player = Player { no_dead, no_move };
            let mut once = Some(CharacterFlags { movement_flags: 0xABCD, debug_flags: 0x5A });
            player.apply(game, &mut once);
            let mut twice = once;
            player.apply(game, &mut twice);
            assert_eq!(once, twice);
        }
    }
}

#[test]
fn game_speed_choice() {
    let one = 1.0f32.to_bits();
    let mut g = GameSpeed::default();
    assert_eq!(g.apply(one), one);
    assert_eq!(g.apply(2.0f32.to_bits()), one);
    g.set_multiplier(0.5f32.to_bits());
    g.set_multiplier_enabled(true);
    assert_eq!(g.apply(one), 0.5f32.to_bits());
    g.set_playback_multiplier(3.0f32.to_bits());
    g.set_playback_multiplier_enabled(true);
    assert_eq!(g.apply(one), 3.0f32.to_bits());
}

#[test]
fn neighbor_indices() {
    assert_eq!(get_catmull_neighbors(4, 0), (0, 0, 1, 2));
    assert_eq!(get_catmull_neighbors(4, 1), (0, 1, 2, 3));
    assert_eq!(get_catmull_neighbors(4, 2), (1, 2, 3, 3));
    assert_eq!(get_catmull_neighbors(2, 0), (0, 0, 1, 1));
    assert_eq!(segment_neighbors(5, 0, 1), (0, 2));
    assert_eq!(segment_neighbors(5, 3, 4), (2, 4));
    assert_eq!(segment_neighbors(1, 0, 0), (0, 0));
}

#[test]
fn keyframe_list_selection() {
    let mut l: KeyframeList<char> = KeyframeList::new();
    assert_eq!(l.remove_selected(), None);
    l.push_selected('a');
    l.push_selected('b');
    l.push_selected('c');
    assert_eq!(l.selected_index(), Some(2));
    l.select(0);
    assert_eq!(l.remove_selected(), Some('a'));
    assert_eq!(l.keyframes(), &vec!['b', 'c']);
    // The last keyframe left is selected after a removal.
    assert_eq!(l.selected_index(), Some(1));
    l.remove_selected();
    l.remove_selected();
    assert_eq!(l.len(), 0);
    assert_eq!(l.selected_index(), None);
}

#[test]
fn keyframe_list_edits_keep_selection() {
    let mut l: KeyframeList<u32> = KeyframeList::new();
    l.push_selected(5);
    l.push_selected(9);
    l.select(0);
    l.set(1, 10);
    assert_eq!(*l.get(1), 10);
    l.replace_all(vec![10, 5]);
    assert_eq!(l.selected_index(), Some(0));
    assert_eq!(l.keyframes(), &vec![10, 5]);
    l.start_drag(1);
    assert!(l.is_dragging(1));
    assert!(!l.is_dragging(0));
}
