//! What the two screens show, apart from drawing it: colours of each theme,
//! the waveform, and the text of labels.

use vstd::prelude::*;

use crate::app_state::{PlayerState, ThemeMode, NANOS_PER_SEC, MAX_DURATION_NANOS, whole_secs};
use crate::text::{decimal, padded_decimal, push_char, push_decimal, push_padded_decimal};

verus! {

/// A terminal colour: a true colour, or the terminal's own white.
#[derive(Clone, Copy, Debug, PartialEq, Eq, Structural)]
pub enum UiColor {
    Rgb(u8, u8, u8),
    White,
}

/// The colours of the library screen.
#[derive(Clone, Copy, Debug, PartialEq, Eq, Structural)]
pub struct SongListColors {
    pub background: UiColor,
    pub accent: UiColor,
    pub title: UiColor,
    pub border: UiColor,
    pub text: UiColor,
    pub muted: UiColor,
    pub highlight_bg: UiColor,
    pub highlight_fg: UiColor,
    pub line: UiColor,
    pub footer_border: UiColor,
    pub library_title: UiColor,
}

/// The colours of the player screen.
#[derive(Clone, Copy, Debug, PartialEq, Eq, Structural)]
pub struct PlayerColors {
    pub background: UiColor,
    pub accent: UiColor,
    pub text_main: UiColor,
    pub border: UiColor,
    pub wave_border: UiColor,
    pub status: UiColor,
    pub gauge_bg: UiColor,
    pub icon: UiColor,
    pub footer_border: UiColor,
    pub muted: UiColor,
    pub section_title: UiColor,
    pub progress: UiColor,
    pub prompt: UiColor,
    pub prompt_cursor: UiColor,
    pub prompt_border: UiColor,
}

/// How loud the output is, as the volume gauge colours it: above 70 %,
/// above 40 %, or lower.
#[derive(Clone, Copy, Debug, PartialEq, Eq, Structural)]
pub enum VolumeBand {
    High,
    Mid,
    Low,
}

/// The colours of the library screen in `theme`.
pub open spec fn song_list_colors_of(theme: ThemeMode) -> SongListColors {
    match theme {
        ThemeMode::Dark => SongListColors {
            background: UiColor::Rgb(10, 10, 20),
            accent: UiColor::Rgb(255, 180, 50),
            title: UiColor::Rgb(255, 220, 100),
            border: UiColor::Rgb(60, 60, 100),
            text: UiColor::Rgb(200, 200, 220),
            muted: UiColor::Rgb(100, 100, 130),
            highlight_bg: UiColor::Rgb(40, 40, 80),
            highlight_fg: UiColor::Rgb(255, 200, 80),
            line: UiColor::Rgb(60, 60, 80),
            footer_border: UiColor::Rgb(40, 40, 60),
            library_title: UiColor::Rgb(150, 150, 200),
        },
        ThemeMode::Light => SongListColors {
            background: UiColor::Rgb(240, 242, 245),
            accent: UiColor::Rgb(210, 100, 0),
            title: UiColor::Rgb(150, 70, 0),
            border: UiColor::Rgb(170, 170, 190),
            text: UiColor::Rgb(40, 40, 50),
            muted: UiColor::Rgb(130, 130, 150),
            highlight_bg: UiColor::Rgb(215, 230, 250),
            highlight_fg: UiColor::Rgb(180, 60, 0),
            line: UiColor::Rgb(190, 190, 210),
            footer_border: UiColor::Rgb(200, 200, 210),
            library_title: UiColor::Rgb(100, 100, 150),
        },
    }
}

/// The colours of the player screen in `theme`.
pub open spec fn player_colors_of(theme: ThemeMode) -> PlayerColors {
    match theme {
        ThemeMode::Dark => PlayerColors {
            background: UiColor::Rgb(8, 8, 18),
            accent: UiColor::Rgb(255, 200, 60),
            text_main: UiColor::White,
            border: UiColor::Rgb(40, 40, 70),
            wave_border: UiColor::Rgb(30, 40, 70),
            status: UiColor::Rgb(150, 255, 150),
            gauge_bg: UiColor::Rgb(20, 20, 40),
            icon: UiColor::Rgb(255, 150, 50),
            footer_border: UiColor::Rgb(40, 40, 60),
            muted: UiColor::Rgb(100, 100, 130),
            section_title: UiColor::Rgb(150, 150, 200),
            progress: UiColor::Rgb(0, 210, 140),
            prompt: UiColor::Rgb(200, 200, 100),
            prompt_cursor: UiColor::Rgb(255, 200, 0),
            prompt_border: UiColor::Rgb(200, 200, 0),
        },
        ThemeMode::Light => PlayerColors {
            background: UiColor::Rgb(245, 245, 247),
            accent: UiColor::Rgb(190, 90, 0),
            text_main: UiColor::Rgb(30, 30, 30),
            border: UiColor::Rgb(180, 180, 200),
            wave_border: UiColor::Rgb(190, 200, 220),
            status: UiColor::Rgb(0, 130, 50),
            gauge_bg: UiColor::Rgb(220, 220, 230),
            icon: UiColor::Rgb(230, 90, 0),
            footer_border: UiColor::Rgb(200, 200, 210),
            muted: UiColor::Rgb(130, 130, 150),
            section_title: UiColor::Rgb(100, 100, 150),
            progress: UiColor::Rgb(0, 140, 90),
            prompt: UiColor::Rgb(140, 120, 0),
            prompt_cursor: UiColor::Rgb(255, 200, 0),
            prompt_border: UiColor::Rgb(200, 200, 0),
        },
    }
}

/// The colours of the library screen in `theme`.
pub fn song_list_colors(theme: ThemeMode) -> (c: SongListColors)
    ensures
        c == song_list_colors_of(theme),
{
    match theme {
        ThemeMode::Dark => SongListColors {
            background: UiColor::Rgb(10, 10, 20),
            accent: UiColor::Rgb(255, 180, 50),
            title: UiColor::Rgb(255, 220, 100),
            border: UiColor::Rgb(60, 60, 100),
            text: UiColor::Rgb(200, 200, 220),
            muted: UiColor::Rgb(100, 100, 130),
            highlight_bg: UiColor::Rgb(40, 40, 80),
            highlight_fg: UiColor::Rgb(255, 200, 80),
            line: UiColor::Rgb(60, 60, 80),
            footer_border: UiColor::Rgb(40, 40, 60),
            library_title: UiColor::Rgb(150, 150, 200),
        },
        ThemeMode::Light => SongListColors {
            background: UiColor::Rgb(240, 242, 245),
            accent: UiColor::Rgb(210, 100, 0),
            title: UiColor::Rgb(150, 70, 0),
            border: UiColor::Rgb(170, 170, 190),
            text: UiColor::Rgb(40, 40, 50),
            muted: UiColor::Rgb(130, 130, 150),
            highlight_bg: UiColor::Rgb(215, 230, 250),
            highlight_fg: UiColor::Rgb(180, 60, 0),
            line: UiColor::Rgb(190, 190, 210),
            footer_border: UiColor::Rgb(200, 200, 210),
            library_title: UiColor::Rgb(100, 100, 150),
        },
    }
}

/// The colours of the player screen in `theme`.
pub fn player_colors(theme: ThemeMode) -> (c: PlayerColors)
    ensures
        c == player_colors_of(theme),
{
    match theme {
        ThemeMode::Dark => PlayerColors {
            background: UiColor::Rgb(8, 8, 18),
            accent: UiColor::Rgb(255, 200, 60),
            text_main: UiColor::White,
            border: UiColor::Rgb(40, 40, 70),
            wave_border: UiColor::Rgb(30, 40, 70),
            status: UiColor::Rgb(150, 255, 150),
            gauge_bg: UiColor::Rgb(20, 20, 40),
            icon: UiColor::Rgb(255, 150, 50),
            footer_border: UiColor::Rgb(40, 40, 60),
            muted: UiColor::Rgb(100, 100, 130),
            section_title: UiColor::Rgb(150, 150, 200),
            progress: UiColor::Rgb(0, 210, 140),
            prompt: UiColor::Rgb(200, 200, 100),
            prompt_cursor: UiColor::Rgb(255, 200, 0),
            prompt_border: UiColor::Rgb(200, 200, 0),
        },
        ThemeMode::Light => PlayerColors {
            background: UiColor::Rgb(245, 245, 247),
            accent: UiColor::Rgb(190, 90, 0),
            text_main: UiColor::Rgb(30, 30, 30),
            border: UiColor::Rgb(180, 180, 200),
            wave_border: UiColor::Rgb(190, 200, 220),
            status: UiColor::Rgb(0, 130, 50),
            gauge_bg: UiColor::Rgb(220, 220, 230),
            icon: UiColor::Rgb(230, 90, 0),
            footer_border: UiColor::Rgb(200, 200, 210),
            muted: UiColor::Rgb(130, 130, 150),
            section_title: UiColor::Rgb(100, 100, 150),
            progress: UiColor::Rgb(0, 140, 90),
            prompt: UiColor::Rgb(140, 120, 0),
            prompt_cursor: UiColor::Rgb(255, 200, 0),
            prompt_border: UiColor::Rgb(200, 200, 0),
        },
    }
}

/// The colour of a key name in the help lines.
pub fn key_color(theme: ThemeMode) -> (c: UiColor)
    ensures
        c == (match theme {
            ThemeMode::Dark => UiColor::Rgb(255, 200, 60),
            ThemeMode::Light => UiColor::Rgb(190, 90, 0),
        }),
{
    match theme {
        ThemeMode::Dark => UiColor::Rgb(255, 200, 60),
        ThemeMode::Light => UiColor::Rgb(190, 90, 0),
    }
}

/// The colour of the volume gauge.
pub fn volume_color(band: VolumeBand, theme: ThemeMode) -> (c: UiColor)
    ensures
        c == (match band {
            VolumeBand::High => UiColor::Rgb(255, 100, 80),
            VolumeBand::Mid => match theme {
                ThemeMode::Dark => UiColor::Rgb(100, 220, 120),
                ThemeMode::Light => UiColor::Rgb(30, 160, 50),
            },
            VolumeBand::Low => UiColor::Rgb(80, 160, 255),
        }),
{
    match band {
        VolumeBand::High => UiColor::Rgb(255, 100, 80),
        VolumeBand::Mid => match theme {
            ThemeMode::Dark => UiColor::Rgb(100, 220, 120),
            ThemeMode::Light => UiColor::Rgb(30, 160, 50),
        },
        VolumeBand::Low => UiColor::Rgb(80, 160, 255),
    }
}

/// Bars in the waveform's repeating pattern.
pub const WAVE_PATTERN_LEN: usize = 22;

/// Bars shown across the waveform.
pub const WAVE_WIDTH: usize = 36;

/// The repeating pattern of the waveform.
pub open spec fn wave_pattern() -> Seq<char> {
    seq![
        '▁', '▁', '▂', '▂', '▃', '▃', '▄', '▄', '▅', '▅', '▆', '▆', '▇', '▇', '█', '▇', '▆', '▅',
        '▄', '▃', '▂', '▁',
    ]
}

/// The height class of a bar glyph, from 0 (lowest) to 3, which picks its colour.
pub open spec fn glyph_level(c: char) -> u8 {
    if c == '▁' || c == '▂' {
        0
    } else if c == '▃' || c == '▄' {
        1
    } else if c == '▅' || c == '▆' {
        2
    } else {
        3
    }
}

/// One bar of the waveform: the glyph shown and the height class that
/// colours it.
#[derive(Clone, Copy, Debug, PartialEq, Eq, Structural)]
pub struct WaveBar {
    pub glyph: char,
    pub level: u8,
}

/// The glyph the waveform shows at every bar while paused.
pub const PAUSED_GLYPH: char = '▂';

/// Bar `i` of the waveform at animation step `tick`: the pattern shifted by
/// the step, coloured by its height; a paused player shows the flat glyph in
/// the flat glyph's colour at every bar, whatever the step.
pub open spec fn wave_bar(tick: usize, paused: bool, i: int) -> WaveBar {
    let g = wave_pattern()[(i + (tick as int) % 22) % 22];
    if paused {
        WaveBar { glyph: PAUSED_GLYPH, level: glyph_level(PAUSED_GLYPH) }
    } else {
        WaveBar { glyph: g, level: glyph_level(g) }
    }
}

fn pattern_glyph(k: usize) -> (c: char)
    requires
        k < WAVE_PATTERN_LEN,
    ensures
        c == wave_pattern()[k as int],
{
    let bars: [char; 22] = [
        '▁', '▁', '▂', '▂', '▃', '▃', '▄', '▄', '▅', '▅', '▆', '▆', '▇', '▇', '█', '▇', '▆', '▅',
        '▄', '▃', '▂', '▁',
    ];
    assert(bars@ =~= wave_pattern());
    bars[k]
}

fn level_of(c: char) -> (l: u8)
    ensures
        l == glyph_level(c),
{
    if c == '▁' || c == '▂' {
        0
    } else if c == '▃' || c == '▄' {
        1
    } else if c == '▅' || c == '▆' {
        2
    } else {
        3
    }
}

/// The waveform at animation step `wave_tick`, left to right.
pub fn waveform(wave_tick: usize, state: PlayerState) -> (bars: Vec<WaveBar>)
    ensures
        bars@.len() == WAVE_WIDTH,
        forall|i: int|
            0 <= i < WAVE_WIDTH ==> #[trigger] bars@[i] == wave_bar(
                wave_tick,
                state == PlayerState::Paused,
                i,
            ),
{
    let offset = wave_tick % WAVE_PATTERN_LEN;
    let paused = state == PlayerState::Paused;
    let mut bars: Vec<WaveBar> = Vec::new();
    let mut i: usize = 0;
    while i < WAVE_WIDTH
        invariant
            i <= WAVE_WIDTH,
            offset == wave_tick % WAVE_PATTERN_LEN,
            paused == (state == PlayerState::Paused),
            bars@.len() == i,
            forall|j: int| 0 <= j < i ==> #[trigger] bars@[j] == wave_bar(wave_tick, paused, j),
        decreases WAVE_WIDTH - i,
    {
        let g = pattern_glyph((i + offset) % WAVE_PATTERN_LEN);
        let shown = if paused {
            PAUSED_GLYPH
        } else {
            g
        };
        bars.push(WaveBar { glyph: shown, level: level_of(shown) });
        i = i + 1;
    }
    bars
}

/// The colour of a bar of height class `level`.
pub fn wave_color(level: u8, theme: ThemeMode) -> (c: UiColor)
    ensures
        c == (match theme {
            ThemeMode::Dark => if level == 0 {
                UiColor::Rgb(60, 80, 120)
            } else if level == 1 {
                UiColor::Rgb(80, 140, 200)
            } else if level == 2 {
                UiColor::Rgb(100, 200, 255)
            } else {
                UiColor::Rgb(180, 230, 255)
            },
            ThemeMode::Light => if level == 0 {
                UiColor::Rgb(140, 160, 190)
            } else if level == 1 {
                UiColor::Rgb(100, 150, 220)
            } else if level == 2 {
                UiColor::Rgb(50, 120, 240)
            } else {
                UiColor::Rgb(0, 80, 200)
            },
        }),
{
    let dark = theme == ThemeMode::Dark;
    if level == 0 {
        if dark {
            UiColor::Rgb(60, 80, 120)
        } else {
            UiColor::Rgb(140, 160, 190)
        }
    } else if level == 1 {
        if dark {
            UiColor::Rgb(80, 140, 200)
        } else {
            UiColor::Rgb(100, 150, 220)
        }
    } else if level == 2 {
        if dark {
            UiColor::Rgb(100, 200, 255)
        } else {
            UiColor::Rgb(50, 120, 240)
        }
    } else {
        if dark {
            UiColor::Rgb(180, 230, 255)
        } else {
            UiColor::Rgb(0, 80, 200)
        }
    }
}

/// A paused waveform shows the same glyphs at every animation step: it is
/// frozen, and flat.
pub proof fn lemma_paused_waveform_frozen(t1: usize, t2: usize, i: int)
    ensures
        wave_bar(t1, true, i) == wave_bar(t2, true, i),
        wave_bar(t1, true, i).glyph == PAUSED_GLYPH,
        wave_bar(t1, true, i).level == 0,
{
}

/// Every bar is coloured by the height of the glyph it shows, and a playing
/// bar shows a glyph of the pattern.
pub proof fn lemma_bar_coloured_by_its_glyph(t: usize, paused: bool, i: int)
    ensures
        wave_bar(t, paused, i).level == glyph_level(wave_bar(t, paused, i).glyph),
        !paused && 0 <= i ==> wave_pattern().contains(wave_bar(t, false, i).glyph),
{
    if !paused && 0 <= i {
        let k = (i + (t as int) % 22) % 22;
        assert(0 <= k < 22);
        assert(wave_pattern()[k] == wave_bar(t, false, i).glyph);
    }
}

/// A playing waveform shifts by one bar per animation step, and repeats
/// every 22 steps.
pub proof fn lemma_waveform_shifts(t: usize, i: int)
    requires
        t < usize::MAX,
        0 <= i,
    ensures
        wave_bar((t + 1) as usize, false, i) == wave_bar(t, false, i + 1),
{
    let a = (t as int) % 22;
    let b = ((t + 1) as int) % 22;
    assert(b == (a + 1) % 22);
    assert((i + b) % 22 == (i + 1 + a) % 22) by (nonlinear_arith)
        requires
            b == (a + 1) % 22,
            0 <= a < 22,
            i >= 0,
    ;
}

/// The time of a duration as `MM:SS`, minutes in at least two digits.
pub open spec fn clock_text(nanos: u128) -> Seq<char> {
    padded_decimal(whole_secs(nanos) / 60, 2, '0') + ":"@ + padded_decimal(
        whole_secs(nanos) % 60,
        2,
        '0',
    )
}

/// The label of the progress bar: ` MM:SS / MM:SS `.
pub open spec fn progress_text(pos: u128, total: u128) -> Seq<char> {
    " "@ + clock_text(pos) + " / "@ + clock_text(total) + " "@
}

fn push_clock(s: &mut String, nanos: u128)
    requires
        nanos <= MAX_DURATION_NANOS,
    ensures
        final(s)@ == old(s)@ + clock_text(nanos),
{
    let secs: u64 = (nanos / NANOS_PER_SEC) as u64;
    assert(secs as nat == whole_secs(nanos));
    push_padded_decimal(s, secs / 60, 2, '0');
    push_char(s, ':');
    push_padded_decimal(s, secs % 60, 2, '0');
    proof {
        reveal_strlit(":");
    }
    assert(final(s)@ =~= old(s)@ + clock_text(nanos));
}

/// The label of the progress bar for position `pos` in a track of length `total`.
pub fn progress_label(pos: u128, total: u128) -> (s: String)
    requires
        pos <= MAX_DURATION_NANOS,
        total <= MAX_DURATION_NANOS,
    ensures
        s@ == progress_text(pos, total),
{
    let mut s = " ".to_owned();
    push_clock(&mut s, pos);
    s.append(" / ");
    push_clock(&mut s, total);
    s.append(" ");
    assert(s@ =~= progress_text(pos, total));
    s
}

/// The number in front of row `i` of the library: ` NN. `, right-aligned in two columns.
pub fn list_number_label(i: usize) -> (s: String)
    requires
        i < usize::MAX,
        i < u64::MAX,
    ensures
        s@ == " "@ + padded_decimal((i + 1) as nat, 2, ' ') + ". "@,
{
    let mut s = " ".to_owned();
    push_padded_decimal(&mut s, (i + 1) as u64, 2, ' ');
    s.append(". ");
    s
}

/// The headline of the player screen, with a play or pause sign.
pub fn player_header(state: PlayerState) -> (s: String)
    ensures
        s@ == "  "@ + (if state == PlayerState::Playing {
            "▶"@
        } else {
            "⏸"@
        }) + "  A L L O Y   P L A Y E R  "@,
{
    let mut s = "  ".to_owned();
    if state == PlayerState::Playing {
        s.append("▶");
    } else {
        s.append("⏸");
    }
    s.append("  A L L O Y   P L A Y E R  ");
    s
}

/// A key name as the help lines show it: `[k]`.
pub fn key_label(k: &str) -> (s: String)
    ensures
        s@ == "["@ + k@ + "]"@,
{
    let mut s = "[".to_owned();
    s.append(k);
    s.append("]");
    s
}

/// The status line as shown under the gauges: indented by two spaces.
pub fn status_line(msg: &str) -> (s: String)
    ensures
        s@ == "  "@ + msg@,
{
    let mut s = "  ".to_owned();
    s.append(msg);
    s
}

/// The label of the volume gauge: ` N% `.
pub fn volume_label(percent: u16) -> (s: String)
    ensures
        s@ == " "@ + decimal(percent as nat) + "% "@,
{
    let mut s = " ".to_owned();
    push_decimal(&mut s, percent as u64);
    s.append("% ");
    s
}

} // verus!
