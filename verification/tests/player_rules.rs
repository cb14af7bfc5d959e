use alloy::app_state::{
    Action, App, Key, PlayerState, Screen, ThemeMode, MAX_DURATION_NANOS, NANOS_PER_SEC,
    SEEK_STEP_NANOS, STATUS_NANOS, TICK_NANOS,
};
use alloy::song::Song;

fn song(title: &str) -> Song {
    Song {
        title: title.to_string(),
        artist: "Artist".to_string(),
        path: format!("data/{}.mp3", title),
        duration_sec: 0,
    }
}

fn library(n: usize) -> Vec<Song> {
    (0..n).map(|i| song(&format!("track{}", i))).collect()
}

fn secs(s: u128) -> u128 {
    s * NANOS_PER_SEC
}

/// A player that plays the first song of a three-song library, 200 s long.
fn playing_app() -> App {
    let mut app = App::new(library(3));
    let act = app.handle_key(Key::Enter, 0);
    assert_eq!(act, Action::Play(song("track0")));
    app.apply_play_outcome(Ok(secs(200)), 0);
    app
}

#[test]
fn new_app_selects_first_row() {
    let app = App::new(library(2));
    assert_eq!(app.selected, Some(0));
    assert_eq!(app.screen, Screen::SongList);
    assert_eq!(app.player_state, PlayerState::Paused);
    assert_eq!(app.theme, ThemeMode::Dark);
    assert!(!app.has_sink);
    assert_eq!(app.current_pos, 0);
    assert_eq!(app.status_msg, "");
}

#[test]
fn new_app_over_empty_library_selects_nothing() {
    let app = App::new(Vec::new());
    assert_eq!(app.selected, None);
    assert_eq!(app.selected_index(), 0);
}

#[test]
fn list_next_wraps_to_first_row() {
    let mut app = App::new(library(3));
    app.list_next();
    assert_eq!(app.selected, Some(1));
    app.list_next();
    app.list_next();
    assert_eq!(app.selected, Some(0));
}

#[test]
fn list_prev_wraps_to_last_row() {
    let mut app = App::new(library(3));
    app.list_prev();
    assert_eq!(app.selected, Some(2));
    app.list_prev();
    assert_eq!(app.selected, Some(1));
}

#[test]
fn list_next_then_prev_returns_to_row() {
    let mut app = App::new(library(4));
    app.selected = Some(3);
    app.list_next();
    app.list_prev();
    assert_eq!(app.selected, Some(3));
    app.list_prev();
    app.list_next();
    assert_eq!(app.selected, Some(3));
}

#[test]
fn list_moves_on_empty_library_do_nothing() {
    let mut app = App::new(Vec::new());
    app.list_next();
    app.list_prev();
    assert_eq!(app.selected, None);
}

#[test]
fn toggle_theme_twice_restores_theme() {
    let mut app = App::new(library(1));
    app.toggle_theme(10);
    assert_eq!(app.theme, ThemeMode::Light);
    assert_eq!(app.status_msg, "☀️  Light Mode Enabled");
    assert_eq!(app.status_until, Some(10 + STATUS_NANOS));
    app.toggle_theme(20);
    assert_eq!(app.theme, ThemeMode::Dark);
    assert_eq!(app.status_msg, "🌙  Dark Mode Enabled");
}

#[test]
fn toggle_pause_without_output_does_nothing() {
    let mut app = App::new(library(1));
    assert_eq!(app.toggle_pause(0), Action::Nothing);
    assert_eq!(app.player_state, PlayerState::Paused);
    assert_eq!(app.status_msg, "");
}

#[test]
fn toggle_pause_twice_restores_playback() {
    let mut app = playing_app();
    assert_eq!(app.toggle_pause(1), Action::Pause);
    assert_eq!(app.player_state, PlayerState::Paused);
    assert_eq!(app.status_msg, "⏸  Paused");
    assert_eq!(app.toggle_pause(2), Action::Resume);
    assert_eq!(app.player_state, PlayerState::Playing);
    assert_eq!(app.status_msg, "▶  Resumed");
}

#[test]
fn play_selected_shows_title_and_starts_at_zero() {
    let mut app = App::new(library(3));
    app.list_next();
    app.current_pos = secs(7);
    let s = app.play_selected();
    assert_eq!(s, song("track1"));
    assert_eq!(app.current_title, "track1");
    assert_eq!(app.current_pos, 0);
}

#[test]
fn play_outcome_success_switches_to_player() {
    let app = playing_app();
    assert_eq!(app.screen, Screen::Player);
    assert_eq!(app.player_state, PlayerState::Playing);
    assert!(app.has_sink);
    assert_eq!(app.current_duration, secs(200));
    assert_eq!(app.current_title, "track0");
    assert_eq!(app.status_msg, "▶  Now Playing");
}

#[test]
fn play_outcome_error_reports_it() {
    let mut app = App::new(library(1));
    let _ = app.play_selected();
    app.apply_play_outcome(Err("no device".to_string()), 5);
    assert_eq!(app.status_msg, "Error: no device");
    assert_eq!(app.status_until, Some(5 + STATUS_NANOS));
    assert!(!app.has_sink);
    assert_eq!(app.player_state, PlayerState::Paused);
}

#[test]
fn enter_on_library_goes_to_player_even_when_playback_fails() {
    let mut app = App::new(library(2));
    let act = app.handle_key(Key::Enter, 0);
    assert_eq!(act, Action::Play(song("track0")));
    assert_eq!(app.screen, Screen::Player);
}

#[test]
fn seek_forward_moves_five_seconds() {
    let mut app = playing_app();
    app.current_pos = secs(10);
    let req = app.seek_forward().expect("an output is attached");
    assert_eq!(req.target, secs(15));
    assert_eq!(req.song, song("track0"));
    assert!(!app.has_sink);
    let paused = app.apply_seek_outcome(req.target, Ok(()), 0);
    assert!(!paused);
    assert!(app.has_sink);
    assert_eq!(app.current_pos, secs(15));
    assert_eq!(app.status_msg, "🎯 Seeked to 0:15");
}

#[test]
fn seek_forward_stops_at_track_end() {
    let mut app = playing_app();
    app.current_pos = secs(198);
    let req = app.seek_forward().unwrap();
    assert_eq!(req.target, secs(200));
    app.apply_seek_outcome(req.target, Ok(()), 0);
    assert_eq!(app.status_msg, "🎯 Seeked to 3:20");
}

#[test]
fn seek_forward_past_unknown_length_is_not_cut() {
    let mut app = App::new(library(1));
    let _ = app.play_selected();
    app.apply_play_outcome(Ok(0), 0);
    app.current_pos = secs(600);
    let req = app.seek_forward().unwrap();
    assert_eq!(req.target, secs(605));
}

#[test]
fn seek_backward_stops_at_start() {
    let mut app = playing_app();
    app.current_pos = secs(3);
    let req = app.seek_backward().unwrap();
    assert_eq!(req.target, 0);
    app.apply_seek_outcome(req.target, Ok(()), 0);
    assert_eq!(app.status_msg, "🎯 Seeked to 0:00");
}

#[test]
fn seek_backward_moves_five_seconds() {
    let mut app = playing_app();
    app.current_pos = secs(65) + 5;
    let req = app.seek_backward().unwrap();
    assert_eq!(req.target, secs(60) + 5);
}

#[test]
fn seek_without_output_does_nothing() {
    let mut app = App::new(library(1));
    assert!(app.seek_forward().is_none());
    assert!(app.seek_backward().is_none());
}

#[test]
fn paused_seek_restarts_paused() {
    let mut app = playing_app();
    app.toggle_pause(0);
    let req = app.seek_forward().unwrap();
    assert!(app.apply_seek_outcome(req.target, Ok(()), 0));
}

#[test]
fn failed_seek_leaves_no_output() {
    let mut app = playing_app();
    app.current_pos = secs(20);
    let req = app.seek_backward().unwrap();
    let paused = app.apply_seek_outcome(req.target, Err("gone".to_string()), 0);
    assert!(!paused);
    assert!(!app.has_sink);
    assert_eq!(app.current_pos, secs(20));
    assert_eq!(app.status_msg, "Error seeking: gone");
    assert!(app.seek_forward().is_none());
}

#[test]
fn tick_advances_playing_track() {
    let mut app = playing_app();
    app.tick(1);
    assert_eq!(app.current_pos, TICK_NANOS);
    assert_eq!(app.wave_tick, 1);
}

#[test]
fn tick_stops_at_track_end() {
    let mut app = playing_app();
    app.current_pos = secs(200) - 1;
    app.tick(1);
    assert_eq!(app.current_pos, secs(200));
    assert_eq!(app.player_state, PlayerState::Paused);
}

#[test]
fn tick_leaves_paused_track_in_place() {
    let mut app = App::new(library(1));
    app.current_pos = secs(4);
    app.tick(1);
    assert_eq!(app.current_pos, secs(4));
    assert_eq!(app.wave_tick, 1);
}

#[test]
fn wave_tick_wraps_around() {
    let mut app = App::new(library(1));
    app.wave_tick = usize::MAX;
    app.tick(0);
    assert_eq!(app.wave_tick, 0);
}

#[test]
fn status_message_expires_after_three_seconds() {
    let mut app = App::new(library(1));
    app.set_status("hello", secs(1));
    app.tick(secs(4));
    assert_eq!(app.status_msg, "hello");
    assert_eq!(app.status_until, Some(secs(4)));
    app.tick(secs(4) + 1);
    assert_eq!(app.status_msg, "");
    assert_eq!(app.status_until, None);
}

#[test]
fn quit_keys_on_both_screens() {
    let mut app = App::new(library(1));
    assert_eq!(app.handle_key(Key::Char('q'), 0), Action::Quit);
    assert_eq!(app.handle_key(Key::Char('Q'), 0), Action::Quit);
    let mut app = playing_app();
    assert_eq!(app.handle_key(Key::Char('q'), 0), Action::Quit);
}

#[test]
fn theme_key_works_on_both_screens() {
    let mut app = App::new(library(1));
    assert_eq!(app.handle_key(Key::Char('t'), 0), Action::Nothing);
    assert_eq!(app.theme, ThemeMode::Light);
    let mut app = playing_app();
    app.handle_key(Key::Char('T'), 0);
    assert_eq!(app.theme, ThemeMode::Light);
}

#[test]
fn arrows_on_library_move_highlight() {
    let mut app = App::new(library(3));
    app.handle_key(Key::Down, 0);
    assert_eq!(app.selected, Some(1));
    app.handle_key(Key::Up, 0);
    app.handle_key(Key::Up, 0);
    assert_eq!(app.selected, Some(2));
}

#[test]
fn player_keys_map_to_actions() {
    let mut app = playing_app();
    assert_eq!(app.handle_key(Key::Up, 0), Action::VolumeUp);
    assert_eq!(app.handle_key(Key::Char('+'), 0), Action::VolumeUp);
    assert_eq!(app.handle_key(Key::Down, 0), Action::VolumeDown);
    assert_eq!(app.handle_key(Key::Char('-'), 0), Action::VolumeDown);
    assert_eq!(app.handle_key(Key::Char('p'), 0), Action::Pause);
    assert_eq!(app.handle_key(Key::Char('P'), 0), Action::Resume);
    assert_eq!(app.handle_key(Key::Char('x'), 0), Action::Nothing);
    assert_eq!(app.handle_key(Key::Other, 0), Action::Nothing);
    match app.handle_key(Key::Right, 0) {
        Action::Seek(q) => assert_eq!(q.target, secs(5)),
        other => panic!("expected a seek, got {:?}", other),
    }
    app.apply_seek_outcome(secs(5), Ok(()), 0);
    match app.handle_key(Key::Left, 0) {
        Action::Seek(q) => assert_eq!(q.target, 0),
        other => panic!("expected a seek, got {:?}", other),
    }
}

#[test]
fn back_key_returns_to_library() {
    let mut app = playing_app();
    app.handle_key(Key::Char('b'), 0);
    assert_eq!(app.screen, Screen::SongList);
    assert!(app.has_sink);
}

#[test]
fn volume_prompt_takes_three_digits() {
    let mut app = playing_app();
    app.handle_key(Key::Char('v'), 0);
    assert!(app.show_volume_input);
    for c in ['4', 'x', '2', 't', '7', '9'] {
        assert_eq!(app.handle_key(Key::Char(c), 0), Action::Nothing);
    }
    assert_eq!(app.volume_input_buf, "427");
    assert_eq!(app.theme, ThemeMode::Dark);
    app.handle_key(Key::Backspace, 0);
    assert_eq!(app.volume_input_buf, "42");
    assert_eq!(app.handle_key(Key::Enter, 7), Action::SetVolume(42));
    assert_eq!(app.status_msg, "VOL SET TO 42%");
    assert!(!app.show_volume_input);
    assert_eq!(app.volume_input_buf, "");
}

#[test]
fn volume_prompt_cuts_to_one_hundred() {
    let mut app = playing_app();
    app.handle_key(Key::Char('V'), 0);
    for c in ['9', '9', '9'] {
        app.handle_key(Key::Char(c), 0);
    }
    assert_eq!(app.handle_key(Key::Enter, 0), Action::SetVolume(100));
    assert_eq!(app.status_msg, "VOL SET TO 100%");
}

#[test]
fn volume_prompt_reads_leading_zeros() {
    let mut app = playing_app();
    app.handle_key(Key::Char('v'), 0);
    app.handle_key(Key::Char('0'), 0);
    app.handle_key(Key::Char('0'), 0);
    app.handle_key(Key::Char('5'), 0);
    assert_eq!(app.handle_key(Key::Enter, 0), Action::SetVolume(5));
    assert_eq!(app.status_msg, "VOL SET TO 5%");
}

#[test]
fn empty_volume_prompt_sets_nothing() {
    let mut app = playing_app();
    app.handle_key(Key::Char('v'), 0);
    app.handle_key(Key::Backspace, 0);
    assert_eq!(app.handle_key(Key::Enter, 0), Action::Nothing);
    assert!(!app.show_volume_input);
    assert_eq!(app.status_msg, "▶  Now Playing");
}

#[test]
fn escape_closes_volume_prompt() {
    let mut app = playing_app();
    app.handle_key(Key::Char('v'), 0);
    app.handle_key(Key::Char('3'), 0);
    assert_eq!(app.handle_key(Key::Esc, 0), Action::Nothing);
    assert!(!app.show_volume_input);
    assert_eq!(app.volume_input_buf, "");
    assert_eq!(app.handle_key(Key::Char('q'), 0), Action::Quit);
}

#[test]
fn longest_duration_is_representable() {
    assert_eq!(MAX_DURATION_NANOS, std::time::Duration::MAX.as_nanos());
    assert_eq!(SEEK_STEP_NANOS, std::time::Duration::from_secs(5).as_nanos());
}

#[test]
fn prompt_and_theme_keys_skip_the_tick() {
    let mut app = playing_app();
    assert!(app.key_skips_tick(Key::Char('t')));
    assert!(app.key_skips_tick(Key::Char('T')));
    assert!(!app.key_skips_tick(Key::Char('p')));
    app.handle_key(Key::Char('v'), 0);
    assert!(app.key_skips_tick(Key::Char('5')));
    assert!(app.key_skips_tick(Key::Enter));
}
