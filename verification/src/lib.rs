//! Library core of a terminal music player with internet radio: the
//! player state and its transitions, key mapping, station and playlist
//! parsing, the radio stream buffer and the text shown on screen.

pub mod text;
pub mod stations;
pub mod paths;
pub mod playlist;
pub mod track;
pub mod app;
pub mod laws;
pub mod events;
pub mod control;
pub mod stream;
pub mod playback;
pub mod screen;
pub mod spectrum;
