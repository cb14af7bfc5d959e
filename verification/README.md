# Alloy

A terminal music player. The library (`src/`) holds the player's state and
rules, verified with Verus; `app/` runs the terminal, the audio output and the
clock around it.

- `src/app_state.rs`: the player state (`App`), its abstract view
  (`AppView`), the effect of every key, tick and playback outcome, and the
  properties they keep.
- `src/playlist.rs`: named playlists (`PlayList`).
- `src/loader.rs`: songs from ID3 tags and file names, the start-up library.
- `src/display.rs`: colours, waveform and label text of the two screens.
- `src/text.rs`: decimal numerals and string edits.
- `src/song.rs`: the `Song` record.

Durations and clock readings are whole nanoseconds (`u128`). The volume is a
floating-point value and lives in `app/`, together with everything that talks
to the audio device, the file system and the terminal.
