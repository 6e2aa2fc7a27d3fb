# chiplay

A terminal music player with internet radio. The library in `src/` holds
its logic, each function with a proved contract; `app/` holds the program around
it: the terminal, the audio output, the network, the file system and the
desktop media controls.

## Layout

- `src/app.rs`: the player state (tracks, search filter, cursor, playing
  track, shuffle and repeat modes) and its operations.
- `src/control.rs`: the main loop's decisions: from the state and an input
  event, the end of a track, a media key or the outcome of loading a file or
  stream, to the next state and the commands for the outside.
- `src/events.rs`: input events and key bindings.
- `src/stations.rs`: built-in stations and the custom stations file.
- `src/playlist.rs`: M3U playlists and the audio file kinds.
- `src/track.rs`: tracks and the line shown for them.
- `src/stream.rs`: the buffer between a radio download and its decoder.
- `src/playback.rs`: seek steps within a track.
- `src/spectrum.rs`: the sample bookkeeping of the visualiser.
- `src/screen.rs`: the text on screen.
- `src/text.rs`, `src/paths.rs`: characters, lines, fields and paths.
- `src/laws.rs`: properties that span several operations.
- `tests/`: tests of the library.
- `app/`: the program.
