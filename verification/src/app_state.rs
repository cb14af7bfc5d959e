//! The player's state and the rules by which keys, ticks and playback
//! outcomes change it.
//!
//! Durations and clock readings are whole nanoseconds. The clock is the time
//! elapsed since the program started; playback and status timers read it.

use vstd::prelude::*;

use crate::song::Song;
pub use crate::text::digits_value;
use crate::text::{decimal, padded_decimal, pop_char, push_char, push_decimal, push_padded_decimal};

verus! {

/// Nanoseconds in a second.
pub const NANOS_PER_SEC: u128 = 1_000_000_000;

/// How far one tick of the event loop moves the play position (80 ms).
pub const TICK_NANOS: u128 = 80_000_000;

/// How far one seek moves the play position (5 s).
pub const SEEK_STEP_NANOS: u128 = 5_000_000_000;

/// How long a status message stays on screen (3 s).
pub const STATUS_NANOS: u128 = 3_000_000_000;

/// The longest duration that can be represented: 2^64 - 1 seconds and
/// 999 999 999 nanoseconds.
pub const MAX_DURATION_NANOS: u128 = 18_446_744_073_709_551_615_999_999_999;

/// The most digits the volume prompt accepts.
pub const VOLUME_INPUT_MAX: usize = 3;

/// The highest volume, in percent.
pub const VOLUME_MAX_PERCENT: u32 = 100;

/// Which screen is shown.
#[derive(Clone, Copy, Debug, PartialEq, Eq, Structural)]
pub enum Screen {
    SongList,
    Player,
}

/// Whether the current track plays.
#[derive(Clone, Copy, Debug, PartialEq, Eq, Structural)]
pub enum PlayerState {
    Playing,
    Paused,
}

/// The colour theme.
#[derive(Clone, Copy, Debug, PartialEq, Eq, Structural)]
pub enum ThemeMode {
    Dark,
    Light,
}

/// A key press, as far as the player tells keys apart.
#[derive(Clone, Copy, Debug, PartialEq, Eq, Structural)]
pub enum Key {
    Char(char),
    Up,
    Down,
    Left,
    Right,
    Enter,
    Esc,
    Backspace,
    Other,
}

/// A request to restart playback of `song` at `target` nanoseconds.
#[derive(Clone, Debug, PartialEq, Eq)]
pub struct SeekRequest {
    pub song: Song,
    pub target: u128,
}

/// What the caller has to do with the audio output after a key.
#[derive(Clone, Debug, PartialEq, Eq)]
pub enum Action {
    /// Nothing beyond redrawing.
    Nothing,
    /// Leave the program.
    Quit,
    /// Play the song from its start, then report with `apply_play_outcome`.
    Play(Song),
    /// Play the song from the target, then report with `apply_seek_outcome`.
    Seek(SeekRequest),
    /// Pause the output.
    Pause,
    /// Resume the output.
    Resume,
    /// Raise the volume by one step.
    VolumeUp,
    /// Lower the volume by one step.
    VolumeDown,
    /// Set the volume to the given percentage (at most 100).
    SetVolume(u32),
}

/// Whether `c` is a decimal digit (`char::is_digit(10)`).
pub open spec fn is_digit_char(c: char) -> bool {
    48 <= (c as u32) <= 57
}

/// The smaller of two numbers.
pub open spec fn min_nat(a: nat, b: nat) -> nat {
    if a <= b {
        a
    } else {
        b
    }
}

/// The status line after the volume was typed in.
pub open spec fn volume_set_message(percent: nat) -> Seq<char> {
    "VOL SET TO "@ + decimal(percent) + "%"@
}

/// Whole seconds in a duration.
pub open spec fn whole_secs(nanos: u128) -> nat {
    (nanos / NANOS_PER_SEC) as nat
}

/// The status line after a successful seek: minutes, then seconds in two digits.
pub open spec fn seek_message(target: u128) -> Seq<char> {
    "🎯 Seeked to "@ + decimal(whole_secs(target) / 60) + ":"@ + padded_decimal(
        whole_secs(target) % 60,
        2,
        '0',
    )
}

/// The abstract state of the player.
#[verifier::ext_equal]
pub struct AppView {
    pub screen: Screen,
    pub songs: Seq<Song>,
    pub selected: Option<usize>,
    pub player_state: PlayerState,
    pub current_title: Seq<char>,
    pub has_sink: bool,
    pub wave_tick: usize,
    pub show_volume_input: bool,
    pub volume_input: Seq<char>,
    pub status_msg: Seq<char>,
    pub status_until: Option<u128>,
    pub current_pos: u128,
    pub current_duration: u128,
    pub theme: ThemeMode,
}

impl AppView {
    /// The state every operation keeps: a selection inside the library, an
    /// output only for a non-empty library, a prompt of at most three digits,
    /// and representable durations.
    pub open spec fn wf(self) -> bool {
        &&& self.songs.len() <= usize::MAX
        &&& (self.selected matches Some(i) ==> i < self.songs.len())
        &&& (self.has_sink ==> self.songs.len() > 0)
        &&& self.volume_input.len() <= VOLUME_INPUT_MAX
        &&& forall|i: int| 0 <= i < self.volume_input.len() ==> is_digit_char(#[trigger] self.volume_input[i])
        &&& self.current_pos <= MAX_DURATION_NANOS
        &&& self.current_duration <= MAX_DURATION_NANOS
    }

    /// The play position stays within a track of known length.
    pub open spec fn position_within_track(self) -> bool {
        self.current_duration > 0 ==> self.current_pos <= self.current_duration
    }

    /// The highlighted row, row 0 when nothing is selected.
    pub open spec fn selected_index(self) -> int {
        match self.selected {
            Some(i) => i as int,
            None => 0,
        }
    }

    /// Shows `msg` for three seconds from `now`.
    pub open spec fn with_status(self, msg: Seq<char>, now: u128) -> AppView {
        AppView { status_msg: msg, status_until: Some((now + STATUS_NANOS) as u128), ..self }
    }

    /// Moves the highlight one row down, from the last row to the first.
    pub open spec fn after_list_next(self) -> AppView {
        if self.songs.len() == 0 {
            self
        } else {
            AppView {
                selected: Some(((self.selected_index() + 1) % (self.songs.len() as int)) as usize),
                ..self
            }
        }
    }

    /// Moves the highlight one row up, from the first row to the last.
    pub open spec fn after_list_prev(self) -> AppView {
        if self.songs.len() == 0 {
            self
        } else {
            let cur = self.selected_index();
            let prev = if cur == 0 {
                self.songs.len() - 1
            } else {
                cur - 1
            };
            AppView { selected: Some(prev as usize), ..self }
        }
    }

    /// The other theme, announced on the status line.
    pub open spec fn after_toggle_theme(self, now: u128) -> AppView {
        match self.theme {
            ThemeMode::Dark => AppView { theme: ThemeMode::Light, ..self }.with_status(
                "☀️  Light Mode Enabled"@,
                now,
            ),
            ThemeMode::Light => AppView { theme: ThemeMode::Dark, ..self }.with_status(
                "🌙  Dark Mode Enabled"@,
                now,
            ),
        }
    }

    /// Pausing or resuming; nothing happens while no output is attached.
    pub open spec fn after_toggle_pause(self, now: u128) -> (AppView, Action) {
        if !self.has_sink {
            (self, Action::Nothing)
        } else if self.player_state == PlayerState::Playing {
            (
                AppView { player_state: PlayerState::Paused, ..self }.with_status("⏸  Paused"@, now),
                Action::Pause,
            )
        } else {
            (
                AppView { player_state: PlayerState::Playing, ..self }.with_status(
                    "▶  Resumed"@,
                    now,
                ),
                Action::Resume,
            )
        }
    }

    /// One tick: the waveform moves on, a playing track advances by 80 ms and
    /// stops at its end, and an expired status message disappears.
    pub open spec fn after_tick(self, now: u128) -> AppView {
        let wave = if self.wave_tick == usize::MAX {
            0
        } else {
            (self.wave_tick + 1) as usize
        };
        let moved = if self.player_state == PlayerState::Playing {
            let pos = self.current_pos + TICK_NANOS;
            if self.current_duration > 0 && pos >= self.current_duration {
                AppView {
                    wave_tick: wave,
                    current_pos: self.current_duration,
                    player_state: PlayerState::Paused,
                    ..self
                }
            } else {
                AppView { wave_tick: wave, current_pos: pos as u128, ..self }
            }
        } else {
            AppView { wave_tick: wave, ..self }
        };
        match self.status_until {
            Some(until) => if now > until {
                AppView { status_msg: Seq::empty(), status_until: None, ..moved }
            } else {
                moved
            },
            None => moved,
        }
    }

    /// The song under the highlight.
    pub open spec fn selected_song(self) -> Song {
        self.songs[self.selected_index()]
    }

    /// Starting the highlighted song: its title is shown and the position is 0.
    pub open spec fn after_play_selected(self) -> AppView {
        AppView { current_title: self.selected_song().title@, current_pos: 0, ..self }
    }

    /// The state once playback started (with the track's length) or failed.
    pub open spec fn after_play_outcome(self, outcome: Result<u128, Seq<char>>, now: u128) -> AppView {
        match outcome {
            Ok(total) => AppView {
                has_sink: true,
                current_duration: total,
                player_state: PlayerState::Playing,
                screen: Screen::Player,
                ..self
            }.with_status("▶  Now Playing"@, now),
            Err(e) => self.with_status("Error: "@ + e, now),
        }
    }

    /// Where a seek to `new_pos` lands: never past the end of a track of known length.
    pub open spec fn seek_target(self, new_pos: int) -> int {
        if self.current_duration > 0 && new_pos > self.current_duration {
            self.current_duration as int
        } else {
            new_pos
        }
    }

    /// A seek to `new_pos`: while an output is attached it is detached and
    /// the highlighted song is requested at the target.
    pub open spec fn after_seek_request(self, new_pos: int) -> (AppView, Option<SeekRequest>) {
        if !self.has_sink {
            (self, None)
        } else {
            (
                AppView { has_sink: false, ..self },
                Some(
                    SeekRequest {
                        song: self.selected_song(),
                        target: self.seek_target(new_pos) as u128,
                    },
                ),
            )
        }
    }

    /// Five seconds forward.
    pub open spec fn after_seek_forward(self) -> (AppView, Option<SeekRequest>) {
        self.after_seek_request(self.current_pos + SEEK_STEP_NANOS)
    }

    /// Five seconds back, not before the start.
    pub open spec fn after_seek_backward(self) -> (AppView, Option<SeekRequest>) {
        self.after_seek_request(
            if self.current_pos >= SEEK_STEP_NANOS {
                self.current_pos - SEEK_STEP_NANOS
            } else {
                0
            },
        )
    }

    /// The state once playback restarted at `target` or failed.
    pub open spec fn after_seek_outcome(
        self,
        target: u128,
        outcome: Result<(), Seq<char>>,
        now: u128,
    ) -> AppView {
        match outcome {
            Ok(_) => AppView { has_sink: true, current_pos: target, ..self }.with_status(
                seek_message(target),
                now,
            ),
            Err(e) => self.with_status("Error seeking: "@ + e, now),
        }
    }

    /// The prompt closed and emptied.
    pub open spec fn volume_prompt_closed(self) -> AppView {
        AppView { show_volume_input: false, volume_input: Seq::empty(), ..self }
    }

    /// A key while the volume prompt is open.
    pub open spec fn after_volume_key(self, key: Key, now: u128) -> (AppView, Action) {
        match key {
            Key::Char(c) => if is_digit_char(c) && self.volume_input.len() < VOLUME_INPUT_MAX {
                (AppView { volume_input: self.volume_input.push(c), ..self }, Action::Nothing)
            } else {
                (self, Action::Nothing)
            },
            Key::Backspace => if self.volume_input.len() == 0 {
                (self, Action::Nothing)
            } else {
                (AppView { volume_input: self.volume_input.drop_last(), ..self }, Action::Nothing)
            },
            Key::Esc => (self.volume_prompt_closed(), Action::Nothing),
            Key::Enter => if self.volume_input.len() == 0 {
                (self.volume_prompt_closed(), Action::Nothing)
            } else {
                let p = min_nat(digits_value(self.volume_input), VOLUME_MAX_PERCENT as nat);
                (
                    self.volume_prompt_closed().with_status(volume_set_message(p), now),
                    Action::SetVolume(p as u32),
                )
            },
            _ => (self, Action::Nothing),
        }
    }

    /// A key on the library screen.
    pub open spec fn after_song_list_key(self, key: Key) -> (AppView, Action) {
        match key {
            Key::Char(c) => if c == 'q' || c == 'Q' {
                (self, Action::Quit)
            } else {
                (self, Action::Nothing)
            },
            Key::Up => (self.after_list_prev(), Action::Nothing),
            Key::Down => (self.after_list_next(), Action::Nothing),
            Key::Enter => (
                AppView { screen: Screen::Player, ..self.after_play_selected() },
                Action::Play(self.selected_song()),
            ),
            _ => (self, Action::Nothing),
        }
    }

    /// A seek as a key's action.
    pub open spec fn seek_action(r: (AppView, Option<SeekRequest>)) -> (AppView, Action) {
        match r.1 {
            Some(q) => (r.0, Action::Seek(q)),
            None => (r.0, Action::Nothing),
        }
    }

    /// A key on the player screen.
    pub open spec fn after_player_key(self, key: Key, now: u128) -> (AppView, Action) {
        match key {
            Key::Char(c) => if c == 'q' || c == 'Q' {
                (self, Action::Quit)
            } else if c == 'p' || c == 'P' {
                self.after_toggle_pause(now)
            } else if c == 'b' || c == 'B' {
                (AppView { screen: Screen::SongList, ..self }, Action::Nothing)
            } else if c == 'v' || c == 'V' {
                (
                    AppView { show_volume_input: true, volume_input: Seq::empty(), ..self },
                    Action::Nothing,
                )
            } else if c == '+' {
                (self, Action::VolumeUp)
            } else if c == '-' {
                (self, Action::VolumeDown)
            } else {
                (self, Action::Nothing)
            },
            Key::Up => (self, Action::VolumeUp),
            Key::Down => (self, Action::VolumeDown),
            Key::Right => Self::seek_action(self.after_seek_forward()),
            Key::Left => Self::seek_action(self.after_seek_backward()),
            _ => (self, Action::Nothing),
        }
    }

    /// Whether `key` toggles the theme.
    pub open spec fn is_theme_key(key: Key) -> bool {
        key == Key::Char('t') || key == Key::Char('T')
    }

    /// The effect of one key press: the prompt takes every key while open,
    /// then `t` toggles the theme on either screen, then the screen decides.
    pub open spec fn after_key(self, key: Key, now: u128) -> (AppView, Action) {
        if self.show_volume_input {
            self.after_volume_key(key, now)
        } else if Self::is_theme_key(key) {
            (self.after_toggle_theme(now), Action::Nothing)
        } else {
            match self.screen {
                Screen::SongList => self.after_song_list_key(key),
                Screen::Player => self.after_player_key(key, now),
            }
        }
    }

    /// The keys on which the player cannot go on: starting a song of an
    /// empty library, and seeking past the longest representable duration.
    pub open spec fn key_allowed(self, key: Key) -> bool {
        !self.show_volume_input && !Self::is_theme_key(key) ==> match self.screen {
            Screen::SongList => key == Key::Enter ==> self.songs.len() > 0,
            Screen::Player => key == Key::Right && self.has_sink ==> self.current_pos
                + SEEK_STEP_NANOS <= MAX_DURATION_NANOS,
        }
    }
}

/// The player: the library, the highlighted row, what plays and how it is shown.
pub struct App {
    pub screen: Screen,
    pub songs: Vec<Song>,
    /// The highlighted row of the library.
    pub selected: Option<usize>,
    pub player_state: PlayerState,
    pub current_title: String,
    /// Whether an audio output is attached.
    pub has_sink: bool,
    pub wave_tick: usize,
    pub show_volume_input: bool,
    pub volume_input_buf: String,
    pub status_msg: String,
    /// When the status message expires, on the program's clock.
    pub status_until: Option<u128>,
    /// The play position.
    pub current_pos: u128,
    /// The length of the current track, 0 when unknown.
    pub current_duration: u128,
    pub theme: ThemeMode,
}

impl View for App {
    type V = AppView;

    open spec fn view(&self) -> AppView {
        AppView {
            screen: self.screen,
            songs: self.songs@,
            selected: self.selected,
            player_state: self.player_state,
            current_title: self.current_title@,
            has_sink: self.has_sink,
            wave_tick: self.wave_tick,
            show_volume_input: self.show_volume_input,
            volume_input: self.volume_input_buf@,
            status_msg: self.status_msg@,
            status_until: self.status_until,
            current_pos: self.current_pos,
            current_duration: self.current_duration,
            theme: self.theme,
        }
    }
}

/// The state of a new player over `songs`.
pub open spec fn initial_view(songs: Seq<Song>) -> AppView {
    AppView {
        screen: Screen::SongList,
        songs: songs,
        selected: if songs.len() > 0 {
            Some(0)
        } else {
            None
        },
        player_state: PlayerState::Paused,
        current_title: Seq::empty(),
        has_sink: false,
        wave_tick: 0,
        show_volume_input: false,
        volume_input: Seq::empty(),
        status_msg: Seq::empty(),
        status_until: None,
        current_pos: 0,
        current_duration: 0,
        theme: ThemeMode::Dark,
    }
}

impl App {
    /// A player over `songs`, on the library screen, paused, dark, with the
    /// first row highlighted when there is one.
    pub fn new(songs: Vec<Song>) -> (app: App)
        ensures
            app@ == initial_view(songs@),
            app@.wf(),
    {
        let selected = if songs.len() > 0 {
            Some(0)
        } else {
            None
        };
        App {
            screen: Screen::SongList,
            songs,
            selected,
            player_state: PlayerState::Paused,
            current_title: String::new(),
            has_sink: false,
            wave_tick: 0,
            show_volume_input: false,
            volume_input_buf: String::new(),
            status_msg: String::new(),
            status_until: None,
            current_pos: 0,
            current_duration: 0,
            theme: ThemeMode::Dark,
        }
    }

    /// The highlighted row, 0 when nothing is selected.
    pub fn selected_index(&self) -> (i: usize)
        ensures
            i == self@.selected_index(),
    {
        match self.selected {
            Some(i) => i,
            None => 0,
        }
    }

    fn set_status_text(&mut self, msg: String, now: u128)
        requires
            old(self)@.wf(),
            now <= MAX_DURATION_NANOS,
        ensures
            final(self)@.wf(),
            final(self)@ == old(self)@.with_status(msg@, now),
    {
        self.status_msg = msg;
        self.status_until = Some(now + STATUS_NANOS);
    }

    /// Shows `msg` on the status line until three seconds after `now`.
    pub fn set_status(&mut self, msg: &str, now: u128)
        requires
            old(self)@.wf(),
            now <= MAX_DURATION_NANOS,
        ensures
            final(self)@.wf(),
            final(self)@ == old(self)@.with_status(msg@, now),
    {
        self.set_status_text(msg.to_owned(), now);
    }

    /// Switches between the dark and the light theme.
    pub fn toggle_theme(&mut self, now: u128)
        requires
            old(self)@.wf(),
            now <= MAX_DURATION_NANOS,
        ensures
            final(self)@.wf(),
            final(self)@ == old(self)@.after_toggle_theme(now),
    {
        if self.theme == ThemeMode::Dark {
            self.theme = ThemeMode::Light;
            self.set_status("☀️  Light Mode Enabled", now);
        } else {
            self.theme = ThemeMode::Dark;
            self.set_status("🌙  Dark Mode Enabled", now);
        }
    }

    /// Pauses a playing track or resumes a paused one, and says which output
    /// command goes with it; does nothing while no output is attached.
    pub fn toggle_pause(&mut self, now: u128) -> (act: Action)
        requires
            old(self)@.wf(),
            now <= MAX_DURATION_NANOS,
        ensures
            final(self)@.wf(),
            (final(self)@, act) == old(self)@.after_toggle_pause(now),
    {
        if self.has_sink {
            if self.player_state == PlayerState::Playing {
                self.player_state = PlayerState::Paused;
                self.set_status("⏸  Paused", now);
                Action::Pause
            } else {
                self.player_state = PlayerState::Playing;
                self.set_status("▶  Resumed", now);
                Action::Resume
            }
        } else {
            Action::Nothing
        }
    }

    /// Highlights the next row, wrapping from the last to the first.
    pub fn list_next(&mut self)
        requires
            old(self)@.wf(),
        ensures
            final(self)@.wf(),
            final(self)@ == old(self)@.after_list_next(),
    {
        let len = self.songs.len();
        if len == 0 {
            return ;
        }
        let next = (self.selected_index() + 1) % len;
        self.selected = Some(next);
    }

    /// Highlights the previous row, wrapping from the first to the last.
    pub fn list_prev(&mut self)
        requires
            old(self)@.wf(),
        ensures
            final(self)@.wf(),
            final(self)@ == old(self)@.after_list_prev(),
    {
        let len = self.songs.len();
        if len == 0 {
            return ;
        }
        let cur = self.selected_index();
        let prev = if cur == 0 {
            len - 1
        } else {
            cur - 1
        };
        self.selected = Some(prev);
    }

    /// Advances the clock of the player by one tick.
    pub fn tick(&mut self, now: u128)
        requires
            old(self)@.wf(),
            old(self).player_state == PlayerState::Playing ==> old(self).current_pos + TICK_NANOS
                <= MAX_DURATION_NANOS,
        ensures
            final(self)@.wf(),
            final(self)@ == old(self)@.after_tick(now),
    {
        self.wave_tick = self.wave_tick.wrapping_add(1);
        if self.player_state == PlayerState::Playing {
            self.current_pos = self.current_pos + TICK_NANOS;
            if self.current_duration > 0 && self.current_pos >= self.current_duration {
                self.current_pos = self.current_duration;
                self.player_state = PlayerState::Paused;
            }
        }
        if let Some(until) = self.status_until {
            if now > until {
                self.status_msg = String::new();
                self.status_until = None;
            }
        }
    }

    /// Starts the highlighted song: shows its title, sets the position to 0
    /// and hands back the song for the caller to play.
    pub fn play_selected(&mut self) -> (song: Song)
        requires
            old(self)@.wf(),
            old(self).songs.len() > 0,
        ensures
            final(self)@.wf(),
            final(self)@ == old(self)@.after_play_selected(),
            song == old(self)@.selected_song(),
    {
        let idx = self.selected_index();
        let song = self.songs[idx].clone();
        self.current_title = song.title.clone();
        self.current_pos = 0;
        song
    }

    /// Records how playback of the started song went: its length on success,
    /// the error text otherwise.
    pub fn apply_play_outcome(&mut self, outcome: Result<u128, String>, now: u128)
        requires
            old(self)@.wf(),
            now <= MAX_DURATION_NANOS,
            outcome matches Ok(total) ==> total <= MAX_DURATION_NANOS && old(self).songs.len() > 0,
        ensures
            final(self)@.wf(),
            final(self)@ == old(self)@.after_play_outcome(
                match outcome {
                    Ok(total) => Ok(total),
                    Err(e) => Err(e@),
                },
                now,
            ),
    {
        match outcome {
            Ok(total) => {
                self.has_sink = true;
                self.current_duration = total;
                self.player_state = PlayerState::Playing;
                self.screen = Screen::Player;
                self.set_status("▶  Now Playing", now);
            },
            Err(e) => {
                let mut msg = "Error: ".to_owned();
                msg.append(e.as_str());
                self.set_status_text(msg, now);
            },
        }
    }

    fn seek_to(&mut self, new_pos: u128) -> (req: SeekRequest)
        requires
            old(self)@.wf(),
            old(self).has_sink,
        ensures
            (final(self)@, Some(req)) == old(self)@.after_seek_request(new_pos as int),
    {
        let mut target = new_pos;
        if self.current_duration > 0 && target > self.current_duration {
            target = self.current_duration;
        }
        let idx = self.selected_index();
        let song = self.songs[idx].clone();
        self.has_sink = false;
        SeekRequest { song, target }
    }

    /// Asks to restart the track five seconds further on (not past its end);
    /// `None` while no output is attached.
    pub fn seek_forward(&mut self) -> (req: Option<SeekRequest>)
        requires
            old(self)@.wf(),
            old(self).has_sink ==> old(self).current_pos + SEEK_STEP_NANOS <= MAX_DURATION_NANOS,
        ensures
            final(self)@.wf(),
            (final(self)@, req) == old(self)@.after_seek_forward(),
    {
        if self.has_sink {
            let new_pos = self.current_pos + SEEK_STEP_NANOS;
            Some(self.seek_to(new_pos))
        } else {
            None
        }
    }

    /// Asks to restart the track five seconds earlier (not before its start);
    /// `None` while no output is attached.
    pub fn seek_backward(&mut self) -> (req: Option<SeekRequest>)
        requires
            old(self)@.wf(),
        ensures
            final(self)@.wf(),
            (final(self)@, req) == old(self)@.after_seek_backward(),
    {
        if self.has_sink {
            let new_pos = self.current_pos.saturating_sub(SEEK_STEP_NANOS);
            Some(self.seek_to(new_pos))
        } else {
            None
        }
    }

    /// Records how restarting at `target` went, and says whether the new
    /// output must start paused.
    pub fn apply_seek_outcome(&mut self, target: u128, outcome: Result<(), String>, now: u128) -> (start_paused: bool)
        requires
            old(self)@.wf(),
            now <= MAX_DURATION_NANOS,
            target <= MAX_DURATION_NANOS,
            outcome is Ok ==> old(self).songs.len() > 0,
        ensures
            final(self)@.wf(),
            final(self)@ == old(self)@.after_seek_outcome(
                target,
                match outcome {
                    Ok(u) => Ok(u),
                    Err(e) => Err(e@),
                },
                now,
            ),
            start_paused == (outcome is Ok && old(self).player_state == PlayerState::Paused),
    {
        match outcome {
            Ok(_) => {
                self.has_sink = true;
                self.current_pos = target;
                let msg = seek_status(target);
                self.set_status_text(msg, now);
                self.player_state == PlayerState::Paused
            },
            Err(e) => {
                let mut msg = "Error seeking: ".to_owned();
                msg.append(e.as_str());
                self.set_status_text(msg, now);
                false
            },
        }
    }

    /// The number typed into the volume prompt.
    fn volume_input_value(&self) -> (v: u32)
        requires
            self@.wf(),
        ensures
            v == digits_value(self.volume_input_buf@),
    {
        let s = self.volume_input_buf.as_str();
        let n = s.unicode_len();
        let mut acc: u32 = 0;
        let mut i: usize = 0;
        while i < n
            invariant
                n == self.volume_input_buf@.len(),
                s@ == self.volume_input_buf@,
                self@.wf(),
                i <= n,
                acc == digits_value(self.volume_input_buf@.subrange(0, i as int)),
                i == 0 ==> acc == 0,
                i == 1 ==> acc < 10,
                i == 2 ==> acc < 100,
                i == 3 ==> acc < 1000,
            decreases n - i,
        {
            let c = s.get_char(i);
            assert(is_digit_char(self.volume_input_buf@[i as int]));
            let d: u32 = (c as u32) - 48;
            assert(self.volume_input_buf@.subrange(0, i + 1).drop_last() =~= self.volume_input_buf@.subrange(
                0,
                i as int,
            ));
            acc = acc * 10 + d;
            i = i + 1;
        }
        assert(self.volume_input_buf@.subrange(0, n as int) =~= self.volume_input_buf@);
        acc
    }

    fn close_volume_prompt(&mut self)
        requires
            old(self)@.wf(),
        ensures
            final(self)@.wf(),
            final(self)@ == old(self)@.volume_prompt_closed(),
    {
        self.show_volume_input = false;
        self.volume_input_buf = String::new();
    }

    fn volume_key(&mut self, key: Key, now: u128) -> (act: Action)
        requires
            old(self)@.wf(),
            now <= MAX_DURATION_NANOS,
        ensures
            final(self)@.wf(),
            (final(self)@, act) == old(self)@.after_volume_key(key, now),
    {
        match key {
            Key::Char(c) => {
                let u = c as u32;
                if 48 <= u && u <= 57 && self.volume_input_buf.as_str().unicode_len() < VOLUME_INPUT_MAX {
                    push_char(&mut self.volume_input_buf, c);
                }
                Action::Nothing
            },
            Key::Backspace => {
                let _ = pop_char(&mut self.volume_input_buf);
                Action::Nothing
            },
            Key::Esc => {
                self.close_volume_prompt();
                Action::Nothing
            },
            Key::Enter => {
                if self.volume_input_buf.as_str().unicode_len() == 0 {
                    self.close_volume_prompt();
                    Action::Nothing
                } else {
                    let val = self.volume_input_value();
                    let clamped = if val <= VOLUME_MAX_PERCENT {
                        val
                    } else {
                        VOLUME_MAX_PERCENT
                    };
                    let msg = volume_status(clamped);
                    self.set_status_text(msg, now);
                    self.close_volume_prompt();
                    Action::SetVolume(clamped)
                }
            },
            _ => Action::Nothing,
        }
    }

    fn song_list_key(&mut self, key: Key) -> (act: Action)
        requires
            old(self)@.wf(),
            key == Key::Enter ==> old(self).songs.len() > 0,
        ensures
            final(self)@.wf(),
            (final(self)@, act) == old(self)@.after_song_list_key(key),
    {
        match key {
            Key::Char(c) => {
                if c == 'q' || c == 'Q' {
                    Action::Quit
                } else {
                    Action::Nothing
                }
            },
            Key::Up => {
                self.list_prev();
                Action::Nothing
            },
            Key::Down => {
                self.list_next();
                Action::Nothing
            },
            Key::Enter => {
                let song = self.play_selected();
                self.screen = Screen::Player;
                Action::Play(song)
            },
            _ => Action::Nothing,
        }
    }

    fn player_key(&mut self, key: Key, now: u128) -> (act: Action)
        requires
            old(self)@.wf(),
            now <= MAX_DURATION_NANOS,
            key == Key::Right && old(self).has_sink ==> old(self).current_pos + SEEK_STEP_NANOS
                <= MAX_DURATION_NANOS,
        ensures
            final(self)@.wf(),
            (final(self)@, act) == old(self)@.after_player_key(key, now),
    {
        match key {
            Key::Char(c) => {
                if c == 'q' || c == 'Q' {
                    Action::Quit
                } else if c == 'p' || c == 'P' {
                    self.toggle_pause(now)
                } else if c == 'b' || c == 'B' {
                    self.screen = Screen::SongList;
                    Action::Nothing
                } else if c == 'v' || c == 'V' {
                    self.show_volume_input = true;
                    self.volume_input_buf = String::new();
                    Action::Nothing
                } else if c == '+' {
                    Action::VolumeUp
                } else if c == '-' {
                    Action::VolumeDown
                } else {
                    Action::Nothing
                }
            },
            Key::Up => Action::VolumeUp,
            Key::Down => Action::VolumeDown,
            Key::Right => match self.seek_forward() {
                Some(q) => Action::Seek(q),
                None => Action::Nothing,
            },
            Key::Left => match self.seek_backward() {
                Some(q) => Action::Seek(q),
                None => Action::Nothing,
            },
            _ => Action::Nothing,
        }
    }

    /// Whether the event loop leaves out its tick after `key`: it does after
    /// a key taken by the volume prompt and after a theme key.
    pub fn key_skips_tick(&self, key: Key) -> (skip: bool)
        ensures
            skip == (self.show_volume_input || AppView::is_theme_key(key)),
    {
        self.show_volume_input || key == Key::Char('t') || key == Key::Char('T')
    }

    /// Applies one key press and says what the caller has to do with the
    /// audio output.
    pub fn handle_key(&mut self, key: Key, now: u128) -> (act: Action)
        requires
            old(self)@.wf(),
            old(self)@.key_allowed(key),
            now <= MAX_DURATION_NANOS,
        ensures
            final(self)@.wf(),
            (final(self)@, act) == old(self)@.after_key(key, now),
    {
        if self.show_volume_input {
            self.volume_key(key, now)
        } else if key == Key::Char('t') || key == Key::Char('T') {
            self.toggle_theme(now);
            Action::Nothing
        } else {
            match self.screen {
                Screen::SongList => self.song_list_key(key),
                Screen::Player => self.player_key(key, now),
            }
        }
    }
}

/// The status line after a seek to `target`.
fn seek_status(target: u128) -> (s: String)
    requires
        target <= MAX_DURATION_NANOS,
    ensures
        s@ == seek_message(target),
{
    assert(target / NANOS_PER_SEC <= u64::MAX);
    let secs: u64 = (target / NANOS_PER_SEC) as u64;
    assert(secs as nat == whole_secs(target));
    let mut s = "🎯 Seeked to ".to_owned();
    push_decimal(&mut s, secs / 60);
    push_char(&mut s, ':');
    push_padded_decimal(&mut s, secs % 60, 2, '0');
    proof {
        reveal_strlit(":");
    }
    assert(s@ =~= seek_message(target));
    s
}

/// The status line after the volume was typed in.
fn volume_status(percent: u32) -> (s: String)
    ensures
        s@ == volume_set_message(percent as nat),
{
    let mut s = "VOL SET TO ".to_owned();
    push_decimal(&mut s, percent as u64);
    s.append("%");
    s
}


/// Toggling the theme twice gives back the theme one started with.
pub proof fn lemma_theme_toggle_twice(v: AppView, t1: u128, t2: u128)
    ensures
        v.after_toggle_theme(t1).after_toggle_theme(t2).theme == v.theme,
        v.after_toggle_theme(t1).theme != v.theme,
{
}

/// With an output attached, pause then resume (or resume then pause) gives
/// back the playback state, and the two output commands are opposite.
pub proof fn lemma_pause_toggle_twice(v: AppView, t1: u128, t2: u128)
    requires
        v.has_sink,
    ensures
        v.after_toggle_pause(t1).0.after_toggle_pause(t2).0.player_state == v.player_state,
        v.player_state == PlayerState::Playing ==> v.after_toggle_pause(t1).1 == Action::Pause
            && v.after_toggle_pause(t1).0.after_toggle_pause(t2).1 == Action::Resume,
        v.player_state == PlayerState::Paused ==> v.after_toggle_pause(t1).1 == Action::Resume
            && v.after_toggle_pause(t1).0.after_toggle_pause(t2).1 == Action::Pause,
{
}

/// Moving the highlight down and back up, or up and back down, returns to
/// the row one started from.
pub proof fn lemma_list_next_prev_inverse(v: AppView)
    requires
        v.wf(),
        v.selected is Some,
    ensures
        v.after_list_next().after_list_prev().selected == v.selected,
        v.after_list_prev().after_list_next().selected == v.selected,
{
    let len = v.songs.len() as int;
    let i = v.selected_index();
    assert(0 <= i < len);
    let next = if i + 1 < len {
        i + 1
    } else {
        0
    };
    if i + 1 < len {
        assert((i + 1) % len == i + 1) by (nonlinear_arith)
            requires
                0 <= i + 1 < len,
        ;
    } else {
        assert((i + 1) % len == 0) by (nonlinear_arith)
            requires
                i + 1 == len,
                len > 0,
        ;
    }
    let n = v.after_list_next();
    assert(n.selected == Some(next as usize));
    assert(n.selected_index() == next);
    assert(n.songs.len() == len);
    let p = if i == 0 {
        len - 1
    } else {
        i - 1
    };
    if p + 1 < len {
        assert((p + 1) % len == p + 1) by (nonlinear_arith)
            requires
                0 <= p + 1 < len,
        ;
    } else {
        assert((p + 1) % len == 0) by (nonlinear_arith)
            requires
                p + 1 == len,
                len > 0,
        ;
    }
    let q = v.after_list_prev();
    assert(q.selected == Some(p as usize));
    assert(q.selected_index() == p);
}

/// Moving the highlight keeps it inside the library.
pub proof fn lemma_list_moves_stay_inside(v: AppView)
    requires
        v.wf(),
        v.songs.len() > 0,
    ensures
        v.after_list_next().wf(),
        v.after_list_prev().wf(),
        v.after_list_next().selected is Some,
        v.after_list_prev().selected is Some,
{
    let len = v.songs.len() as int;
    let i = v.selected_index();
    assert(0 <= (i + 1) % len < len) by (nonlinear_arith)
        requires
            len > 0,
            i >= 0,
    ;
}

/// A message put on the status line stays there on every tick up to three
/// seconds later and is gone on the first tick after that.
pub proof fn lemma_status_expires_after_three_seconds(v: AppView, msg: Seq<char>, now: u128, later: u128)
    requires
        now <= MAX_DURATION_NANOS,
    ensures
        later <= now + STATUS_NANOS ==> v.with_status(msg, now).after_tick(later).status_msg == msg,
        later > now + STATUS_NANOS ==> v.with_status(msg, now).after_tick(later).status_msg
            == Seq::<char>::empty() && v.with_status(msg, now).after_tick(later).status_until is None,
{
}

/// A paused track stays where it is when the clock ticks.
pub proof fn lemma_paused_track_does_not_move(v: AppView, now: u128)
    requires
        v.player_state == PlayerState::Paused,
    ensures
        v.after_tick(now).current_pos == v.current_pos,
        v.after_tick(now).player_state == PlayerState::Paused,
{
}

/// Ticks never carry the position past the end of a track of known length.
pub proof fn lemma_tick_keeps_position_within_track(v: AppView, now: u128)
    requires
        v.position_within_track(),
    ensures
        v.after_tick(now).position_within_track(),
{
}

/// Keys never carry the position past the end of a track of known length.
pub proof fn lemma_key_keeps_position_within_track(v: AppView, key: Key, now: u128)
    requires
        v.wf(),
        v.position_within_track(),
    ensures
        v.after_key(key, now).0.position_within_track(),
{
}

/// A seek lands five seconds forward or back from the current position, but
/// never before the start nor past the end of a track of known length; once
/// the output restarts there, the position is the target.
pub proof fn lemma_seek_lands_within_track(v: AppView, now: u128)
    requires
        v.wf(),
        v.has_sink,
        v.position_within_track(),
    ensures
        ({
            let q = v.after_seek_forward().1.unwrap();
            &&& q.target >= v.current_pos
            &&& q.target == if v.current_duration > 0 && v.current_pos + SEEK_STEP_NANOS
                > v.current_duration {
                v.current_duration as int
            } else {
                v.current_pos + SEEK_STEP_NANOS
            }
            &&& v.after_seek_outcome(q.target, Ok(()), now).current_pos == q.target
            &&& v.after_seek_outcome(q.target, Ok(()), now).position_within_track()
        }),
        ({
            let q = v.after_seek_backward().1.unwrap();
            &&& q.target <= v.current_pos
            &&& q.target == if v.current_pos >= SEEK_STEP_NANOS {
                v.current_pos - SEEK_STEP_NANOS
            } else {
                0
            }
            &&& v.after_seek_outcome(q.target, Ok(()), now).position_within_track()
        }),
{
}

/// Starting a song puts the position at its start, whether the output
/// starts or not.
pub proof fn lemma_play_starts_at_zero(v: AppView, outcome: Result<u128, Seq<char>>, now: u128)
    requires
        v.wf(),
        v.songs.len() > 0,
    ensures
        v.after_play_selected().after_play_outcome(outcome, now).current_pos == 0,
        v.after_play_selected().after_play_outcome(outcome, now).position_within_track(),
        v.after_play_selected().current_title == v.selected_song().title@,
{
}

/// A volume typed into the prompt is at most 100 percent: larger numbers
/// are cut to 100.
pub proof fn lemma_typed_volume_at_most_100(v: AppView, key: Key, now: u128)
    requires
        v.wf(),
    ensures
        v.after_key(key, now).1 matches Action::SetVolume(p) ==> p <= VOLUME_MAX_PERCENT
            && p == min_nat(digits_value(v.volume_input), VOLUME_MAX_PERCENT as nat),
{
}

/// Every key keeps the player's invariant.
pub proof fn lemma_key_keeps_wf(v: AppView, key: Key, now: u128)
    requires
        v.wf(),
        v.key_allowed(key),
    ensures
        v.after_key(key, now).0.wf(),
{
    if !v.show_volume_input && !AppView::is_theme_key(key) && v.songs.len() > 0 {
        lemma_list_moves_stay_inside(v);
    }
    if v.show_volume_input {
        match key {
            Key::Char(c) => {
                let n = v.after_volume_key(key, now).0;
                assert forall|i: int| 0 <= i < n.volume_input.len() implies is_digit_char(
                    #[trigger] n.volume_input[i],
                ) by {
                    if i < v.volume_input.len() {
                        assert(v.volume_input.push(c)[i] == v.volume_input[i]);
                    }
                }
            },
            Key::Backspace => {
                let n = v.after_volume_key(key, now).0;
                assert forall|i: int| 0 <= i < n.volume_input.len() implies is_digit_char(
                    #[trigger] n.volume_input[i],
                ) by {
                    assert(v.volume_input.drop_last()[i] == v.volume_input[i]);
                }
            },
            _ => {},
        }
    }
}


/// A playing track of unknown length (0) keeps playing and advances by one
/// tick; a track of known length advances by one tick until it reaches its
/// end, where it stops exactly at the end, paused.
pub proof fn lemma_tick_advances_playing_track(v: AppView, now: u128)
    requires
        v.player_state == PlayerState::Playing,
        v.current_pos + TICK_NANOS <= MAX_DURATION_NANOS,
    ensures
        v.current_duration == 0 ==> v.after_tick(now).current_pos == v.current_pos + TICK_NANOS
            && v.after_tick(now).player_state == PlayerState::Playing,
        v.current_duration > 0 && v.current_pos + TICK_NANOS < v.current_duration ==> v.after_tick(
            now,
        ).current_pos == v.current_pos + TICK_NANOS && v.after_tick(now).player_state
            == PlayerState::Playing,
        v.current_duration > 0 && v.current_pos + TICK_NANOS >= v.current_duration ==> v.after_tick(
            now,
        ).current_pos == v.current_duration && v.after_tick(now).player_state
            == PlayerState::Paused,
        v.after_tick(now).songs == v.songs,
        v.after_tick(now).selected == v.selected,
        v.after_tick(now).current_duration == v.current_duration,
        v.after_tick(now).wave_tick == (if v.wave_tick == usize::MAX {
            0
        } else {
            v.wave_tick + 1
        }),
{
}

/// With the volume prompt open, a digit is appended while fewer than three
/// are typed (a leading zero too), and ignored once three are; any other
/// character is ignored; Backspace removes the last digit; Esc closes and
/// empties the prompt without setting anything.
pub proof fn lemma_volume_prompt_keys(v: AppView, c: char, now: u128)
    requires
        v.show_volume_input,
    ensures
        48 <= (c as u32) <= 57 && v.volume_input.len() < 3 ==> v.after_key(Key::Char(c), now).0.volume_input
            == v.volume_input.push(c) && v.after_key(Key::Char(c), now).0.show_volume_input
            && v.after_key(Key::Char(c), now).1 == Action::Nothing,
        !(48 <= (c as u32) <= 57 && v.volume_input.len() < 3) ==> v.after_key(Key::Char(c), now).0
            == v && v.after_key(Key::Char(c), now).1 == Action::Nothing,
        v.volume_input.len() > 0 ==> v.after_key(Key::Backspace, now).0.volume_input
            == v.volume_input.subrange(0, v.volume_input.len() - 1),
        v.after_key(Key::Esc, now).0.volume_input.len() == 0,
        !v.after_key(Key::Esc, now).0.show_volume_input,
        v.after_key(Key::Esc, now).1 == Action::Nothing,
        v.after_key(Key::Esc, now).0.theme == v.theme,
{
}

/// Typing digits and Enter sets the volume to the typed number, or to 100
/// when it is larger; every such volume is between 0 and 100. An empty
/// prompt sets nothing. Either way the prompt closes.
pub proof fn lemma_volume_prompt_enter(v: AppView, d: char, now: u128)
    requires
        v.show_volume_input,
        48 <= (d as u32) <= 57,
    ensures
        v.volume_input.len() == 0 ==> v.after_key(Key::Enter, now).1 == Action::Nothing,
        !v.after_key(Key::Enter, now).0.show_volume_input,
        v.after_key(Key::Enter, now).0.volume_input.len() == 0,
        ({
            let one = AppView { volume_input: seq![d], ..v };
            let n = ((d as u32) - 48) as u32;
            one.after_key(Key::Enter, now).1 == Action::SetVolume(n)
        }),
        ({
            let two = AppView { volume_input: seq!['1', d], ..v };
            let n = (10 + (d as u32) - 48) as u32;
            two.after_key(Key::Enter, now).1 == Action::SetVolume(n)
        }),
        ({
            let three = AppView { volume_input: seq!['1', '0', d], ..v };
            three.after_key(Key::Enter, now).1 == Action::SetVolume(100)
        }),
        ({
            let three = AppView { volume_input: seq!['0', '9', d], ..v };
            let n = (90 + (d as u32) - 48) as u32;
            three.after_key(Key::Enter, now).1 == Action::SetVolume(n)
        }),
{
    let e = Seq::<char>::empty();
    assert(digits_value(e) == 0);
    let one = seq![d];
    assert(one.drop_last() =~= e);
    assert(one.last() == d);
    assert(digits_value(one) == (d as u32) - 48);
    let s1 = seq!['1'];
    assert(s1.drop_last() =~= e);
    assert(('1' as u32) == 49);
    assert(digits_value(s1) == 1);
    let two = seq!['1', d];
    assert(two.drop_last() =~= s1);
    assert(digits_value(two) == 10 + (d as u32) - 48);
    let s10 = seq!['1', '0'];
    assert(s10.drop_last() =~= s1);
    assert(('0' as u32) == 48);
    assert(digits_value(s10) == 10);
    let t1 = seq!['1', '0', d];
    assert(t1.drop_last() =~= s10);
    assert(digits_value(t1) >= 100);
    let s0 = seq!['0'];
    assert(s0.drop_last() =~= e);
    assert(digits_value(s0) == 0);
    let s09 = seq!['0', '9'];
    assert(s09.drop_last() =~= s0);
    assert(('9' as u32) == 57);
    assert(digits_value(s09) == 9);
    let t2 = seq!['0', '9', d];
    assert(t2.drop_last() =~= s09);
    assert(digits_value(t2) == 90 + (d as u32) - 48);
}

/// With the prompt closed, `q` and `Q` quit on both screens and change nothing.
pub proof fn lemma_quit_keys(v: AppView, now: u128)
    requires
        !v.show_volume_input,
    ensures
        v.after_key(Key::Char('q'), now).1 == Action::Quit,
        v.after_key(Key::Char('Q'), now).1 == Action::Quit,
        v.after_key(Key::Char('q'), now).0 == v,
        v.after_key(Key::Char('Q'), now).0 == v,
{
}

/// With the prompt closed, `t` and `T` switch the theme on both screens;
/// with the prompt open they are ignored.
pub proof fn lemma_theme_keys(v: AppView, now: u128)
    ensures
        !v.show_volume_input ==> v.after_key(Key::Char('t'), now).0.theme != v.theme
            && v.after_key(Key::Char('T'), now).0.theme != v.theme
            && v.after_key(Key::Char('t'), now).0.screen == v.screen,
        v.show_volume_input ==> v.after_key(Key::Char('t'), now).0 == v && v.after_key(
            Key::Char('T'),
            now,
        ).0 == v,
{
}

/// The keys of the player screen with the prompt closed: `p`/`P` pause a
/// playing track and resume a paused one while sound is attached, `b`/`B`
/// go back to the library, `v`/`V` open an empty prompt, Up and `+` raise the
/// volume, Down and `-` lower it.
pub proof fn lemma_player_screen_keys(v: AppView, now: u128)
    requires
        !v.show_volume_input,
        v.screen == Screen::Player,
    ensures
        v.has_sink && v.player_state == PlayerState::Playing ==> v.after_key(Key::Char('p'), now).1
            == Action::Pause && v.after_key(Key::Char('P'), now).0.player_state
            == PlayerState::Paused,
        v.has_sink && v.player_state == PlayerState::Paused ==> v.after_key(Key::Char('P'), now).1
            == Action::Resume && v.after_key(Key::Char('p'), now).0.player_state
            == PlayerState::Playing,
        !v.has_sink ==> v.after_key(Key::Char('p'), now).1 == Action::Nothing && v.after_key(
            Key::Char('p'),
            now,
        ).0 == v,
        v.after_key(Key::Char('b'), now).0.screen == Screen::SongList,
        v.after_key(Key::Char('B'), now).0.screen == Screen::SongList,
        v.after_key(Key::Char('b'), now).0.has_sink == v.has_sink,
        v.after_key(Key::Char('v'), now).0.show_volume_input,
        v.after_key(Key::Char('V'), now).0.show_volume_input,
        v.after_key(Key::Char('v'), now).0.volume_input.len() == 0,
        v.after_key(Key::Up, now).1 == Action::VolumeUp,
        v.after_key(Key::Char('+'), now).1 == Action::VolumeUp,
        v.after_key(Key::Down, now).1 == Action::VolumeDown,
        v.after_key(Key::Char('-'), now).1 == Action::VolumeDown,
        v.after_key(Key::Up, now).0 == v,
        v.after_key(Key::Down, now).0 == v,
{
}

/// On the library screen with the prompt closed, Enter plays the song under
/// the highlight from its start and shows the player; Down and Up move the
/// highlight one row, wrapping at the ends.
pub proof fn lemma_song_list_keys(v: AppView, now: u128)
    requires
        v.wf(),
        !v.show_volume_input,
        v.screen == Screen::SongList,
        v.songs.len() > 0,
    ensures
        ({
            let r = v.after_key(Key::Enter, now);
            &&& r.1 == Action::Play(
                match v.selected {
                    Some(i) => v.songs[i as int],
                    None => v.songs[0],
                },
            )
            &&& r.0.screen == Screen::Player
            &&& r.0.current_pos == 0
            &&& r.0.current_title == (match v.selected {
                Some(i) => v.songs[i as int],
                None => v.songs[0],
            }).title@
        }),
        v.selected matches Some(i) ==> (i + 1 < v.songs.len() ==> v.after_key(Key::Down, now).0.selected
            == Some((i + 1) as usize)) && (i + 1 == v.songs.len() ==> v.after_key(
            Key::Down,
            now,
        ).0.selected == Some(0usize)) && (i > 0 ==> v.after_key(Key::Up, now).0.selected == Some(
            (i - 1) as usize,
        )) && (i == 0 ==> v.after_key(Key::Up, now).0.selected == Some(
            (v.songs.len() - 1) as usize,
        )),
{
    let len = v.songs.len() as int;
    if let Some(i) = v.selected {
        if i + 1 < len {
            assert((i + 1) % len == i + 1) by (nonlinear_arith)
                requires
                    0 <= i + 1 < len,
            ;
        } else {
            assert((i + 1) % len == 0) by (nonlinear_arith)
                requires
                    i + 1 == len,
            ;
        }
    }
}

/// A seek restarts the song under the highlight (the first row when none
/// is highlighted), and only while sound is attached; it detaches the sound.
pub proof fn lemma_seek_restarts_highlighted_song(v: AppView, new_pos: int)
    ensures
        v.after_seek_request(new_pos).1 matches Some(q) ==> q.song == (match v.selected {
            Some(i) => v.songs[i as int],
            None => v.songs[0],
        }),
        v.after_seek_request(new_pos).1 is Some <==> v.has_sink,
        v.after_seek_request(new_pos).1 is Some ==> !v.after_seek_request(new_pos).0.has_sink,
        v.after_seek_forward().1 matches Some(q) ==> q.song == (match v.selected {
            Some(i) => v.songs[i as int],
            None => v.songs[0],
        }),
        v.after_seek_backward().1 matches Some(q) ==> q.song == (match v.selected {
            Some(i) => v.songs[i as int],
            None => v.songs[0],
        }),
{
}


/// A new player shows the library, highlights the first row exactly when
/// there is one, plays nothing, and starts dark with no status message.
pub proof fn lemma_new_player(songs: Seq<Song>)
    ensures
        initial_view(songs).songs == songs,
        initial_view(songs).screen == Screen::SongList,
        songs.len() > 0 <==> initial_view(songs).selected == Some(0usize),
        songs.len() == 0 <==> initial_view(songs).selected is None,
        !initial_view(songs).has_sink,
        initial_view(songs).player_state == PlayerState::Paused,
        initial_view(songs).current_pos == 0 && initial_view(songs).current_duration == 0,
        initial_view(songs).theme == ThemeMode::Dark,
        initial_view(songs).status_msg.len() == 0 && initial_view(songs).status_until is None,
        !initial_view(songs).show_volume_input,
{
}

/// Once playback starts, sound is attached, the track plays on the player
/// screen with the length reported, and the message lasts three seconds;
/// when it fails, only the status line changes, to a message that ends with
/// the error.
pub proof fn lemma_play_outcome(v: AppView, total: u128, e: Seq<char>, now: u128)
    requires
        now <= MAX_DURATION_NANOS,
    ensures
        ({
            let w = v.after_play_outcome(Ok(total), now);
            &&& w.has_sink
            &&& w.player_state == PlayerState::Playing
            &&& w.screen == Screen::Player
            &&& w.current_duration == total
            &&& w.current_pos == v.current_pos
            &&& w.songs == v.songs && w.selected == v.selected
            &&& w.status_until == Some((now + 3_000_000_000) as u128)
        }),
        ({
            let w = v.after_play_outcome(Err(e), now);
            &&& w == AppView { status_msg: w.status_msg, status_until: w.status_until, ..v }
            &&& w.status_msg.len() >= e.len()
            &&& w.status_msg.subrange(w.status_msg.len() - e.len(), w.status_msg.len() as int) == e
            &&& w.status_until == Some((now + 3_000_000_000) as u128)
        }),
{
    let w = v.after_play_outcome(Err(e), now);
    assert(w.status_msg.subrange(w.status_msg.len() - e.len(), w.status_msg.len() as int) =~= e);
}

/// Once a seek restarts, sound is attached again at the target, and the
/// output starts paused exactly when the player was paused; when it fails,
/// the position and playback state stay and the message ends with the error.
pub proof fn lemma_seek_outcome(v: AppView, target: u128, e: Seq<char>, now: u128)
    requires
        now <= MAX_DURATION_NANOS,
    ensures
        ({
            let w = v.after_seek_outcome(target, Ok(()), now);
            &&& w.has_sink
            &&& w.current_pos == target
            &&& w.player_state == v.player_state
            &&& w.current_duration == v.current_duration
            &&& w.screen == v.screen
        }),
        ({
            let w = v.after_seek_outcome(target, Err(e), now);
            &&& w == AppView { status_msg: w.status_msg, status_until: w.status_until, ..v }
            &&& w.status_msg.len() >= e.len()
            &&& w.status_msg.subrange(w.status_msg.len() - e.len(), w.status_msg.len() as int) == e
        }),
{
    let w = v.after_seek_outcome(target, Err(e), now);
    assert(w.status_msg.subrange(w.status_msg.len() - e.len(), w.status_msg.len() as int) =~= e);
}

/// A key the player does not know changes nothing, with the prompt open or
/// closed, on either screen.
pub proof fn lemma_unknown_key_changes_nothing(v: AppView, now: u128)
    ensures
        v.after_key(Key::Other, now).0 == v,
        v.after_key(Key::Other, now).1 == Action::Nothing,
{
}

} // verus!
