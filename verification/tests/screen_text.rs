use alloy::app_state::{PlayerState, ThemeMode, NANOS_PER_SEC};
use alloy::display::{
    key_color, key_label, list_number_label, player_colors, player_header, progress_label,
    song_list_colors, status_line, volume_color, volume_label, wave_color, waveform, UiColor,
    VolumeBand, PAUSED_GLYPH, WAVE_WIDTH,
};

const PATTERN: [char; 22] = [
    '▁', '▁', '▂', '▂', '▃', '▃', '▄', '▄', '▅', '▅', '▆', '▆', '▇', '▇', '█', '▇', '▆', '▅',
    '▄', '▃', '▂', '▁',
];

#[test]
fn progress_label_shows_minutes_and_seconds() {
    let l = progress_label(65 * NANOS_PER_SEC + 999_999_999, 200 * NANOS_PER_SEC);
    assert_eq!(l, " 01:05 / 03:20 ");
    assert_eq!(progress_label(0, 0), " 00:00 / 00:00 ");
    assert_eq!(progress_label(6000 * NANOS_PER_SEC, 0), " 100:00 / 00:00 ");
}

#[test]
fn list_numbers_are_right_aligned() {
    assert_eq!(list_number_label(0), "  1. ");
    assert_eq!(list_number_label(9), " 10. ");
    assert_eq!(list_number_label(122), " 123. ");
}

#[test]
fn header_shows_play_or_pause_sign() {
    assert_eq!(player_header(PlayerState::Playing), "  ▶  A L L O Y   P L A Y E R  ");
    assert_eq!(player_header(PlayerState::Paused), "  ⏸  A L L O Y   P L A Y E R  ");
}

#[test]
fn small_labels() {
    assert_eq!(key_label("Enter"), "[Enter]");
    assert_eq!(status_line("hi"), "  hi");
    assert_eq!(volume_label(55), " 55% ");
    assert_eq!(volume_label(0), " 0% ");
}

#[test]
fn waveform_playing_follows_pattern() {
    let bars = waveform(3, PlayerState::Playing);
    assert_eq!(bars.len(), WAVE_WIDTH);
    for (i, b) in bars.iter().enumerate() {
        assert_eq!(b.glyph, PATTERN[(i + 3) % 22]);
    }
    assert_eq!(bars[0].glyph, '▂');
    assert_eq!(bars[0].level, 0);
    assert_eq!(bars[11].glyph, '█');
    assert_eq!(bars[11].level, 3);
}

#[test]
fn waveform_paused_is_flat() {
    let a = waveform(5, PlayerState::Paused);
    let b = waveform(17, PlayerState::Paused);
    assert!(a.iter().all(|x| x.glyph == PAUSED_GLYPH));
    assert!(b.iter().all(|x| x.glyph == PAUSED_GLYPH));
    assert!(a.iter().all(|x| x.level == 0));
    assert_eq!(a, b);
    assert_eq!(waveform(0, PlayerState::Paused), waveform(4, PlayerState::Paused));
}

#[test]
fn waveform_repeats_every_22_steps() {
    assert_eq!(waveform(1, PlayerState::Playing), waveform(23, PlayerState::Playing));
}

#[test]
fn theme_colours() {
    assert_eq!(song_list_colors(ThemeMode::Dark).background, UiColor::Rgb(10, 10, 20));
    assert_eq!(song_list_colors(ThemeMode::Light).highlight_fg, UiColor::Rgb(180, 60, 0));
    assert_eq!(player_colors(ThemeMode::Dark).text_main, UiColor::White);
    assert_eq!(player_colors(ThemeMode::Light).text_main, UiColor::Rgb(30, 30, 30));
    assert_eq!(player_colors(ThemeMode::Light).prompt_border, UiColor::Rgb(200, 200, 0));
    assert_eq!(key_color(ThemeMode::Light), UiColor::Rgb(190, 90, 0));
    assert_eq!(wave_color(2, ThemeMode::Dark), UiColor::Rgb(100, 200, 255));
    assert_eq!(wave_color(3, ThemeMode::Light), UiColor::Rgb(0, 80, 200));
    assert_eq!(volume_color(VolumeBand::Mid, ThemeMode::Light), UiColor::Rgb(30, 160, 50));
    assert_eq!(volume_color(VolumeBand::High, ThemeMode::Dark), UiColor::Rgb(255, 100, 80));
}
