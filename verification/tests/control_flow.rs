use chiplay::app::{App, RepeatMode, Tab};
use chiplay::control::{error_message, scan_roots, Command, MediaEvent, MediaState};
use chiplay::events::{key_event, AppEvent, Key, KeyInput};
use chiplay::track::Track;

fn key(k: Key) -> KeyInput {
    KeyInput { key: k, ctrl: false, release: false }
}

fn app3() -> App {
    App::new(
        ["/m/a.mp3", "/m/b.mp3", "/m/c.mp3"]
            .iter()
            .map(|p| Track { path: p.to_string(), title: p[3..4].to_string(), artist: None })
            .collect(),
    )
}

fn names(cmds: &[Command]) -> Vec<String> {
    cmds.iter().map(|c| format!("{:?}", c)).collect()
}

#[test]
fn key_bindings() {
    assert_eq!(key_event(false, key(Key::Char(' '))), AppEvent::TogglePause);
    assert_eq!(key_event(false, key(Key::Char('n'))), AppEvent::NextTrack);
    assert_eq!(key_event(false, key(Key::Char('p'))), AppEvent::PrevTrack);
    assert_eq!(key_event(false, key(Key::Char('='))), AppEvent::VolumeUp);
    assert_eq!(key_event(false, key(Key::Char('_'))), AppEvent::VolumeDown);
    assert_eq!(key_event(false, key(Key::Left)), AppEvent::SeekBackward);
    assert_eq!(key_event(false, key(Key::Char('l'))), AppEvent::SeekForward);
    assert_eq!(key_event(false, key(Key::Char('s'))), AppEvent::ToggleShuffle);
    assert_eq!(key_event(false, key(Key::Char('r'))), AppEvent::ToggleRepeat);
    assert_eq!(key_event(false, key(Key::Char('/'))), AppEvent::StartSearch);
    assert_eq!(key_event(false, key(Key::Tab)), AppEvent::SwitchTab);
    assert_eq!(key_event(false, key(Key::Enter)), AppEvent::Enter);
    assert_eq!(key_event(false, key(Key::Char('k'))), AppEvent::ScrollUp);
    assert_eq!(key_event(false, key(Key::Down)), AppEvent::ScrollDown);
    assert_eq!(key_event(false, key(Key::Esc)), AppEvent::Quit);
    assert_eq!(key_event(false, key(Key::Char('x'))), AppEvent::Idle);
    assert_eq!(key_event(false, key(Key::Other)), AppEvent::Idle);
    assert_eq!(key_event(true, key(Key::Char('q'))), AppEvent::SearchChar('q'));
    assert_eq!(key_event(true, key(Key::Enter)), AppEvent::SearchConfirm);
    assert_eq!(key_event(true, key(Key::Esc)), AppEvent::SearchCancel);
    assert_eq!(key_event(true, key(Key::Backspace)), AppEvent::SearchBackspace);
    assert_eq!(key_event(true, key(Key::Up)), AppEvent::Idle);
    let ctrl_c = KeyInput { key: Key::Char('c'), ctrl: true, release: false };
    assert_eq!(key_event(true, ctrl_c), AppEvent::Quit);
    let released = KeyInput { key: Key::Char('q'), ctrl: false, release: true };
    assert_eq!(key_event(false, released), AppEvent::Idle);
}

#[test]
fn next_track_loads_it() {
    let mut app = app3();
    let c = app.on_event(AppEvent::NextTrack, 9);
    assert_eq!(app.playing_index, Some(0));
    assert_eq!(names(&c), vec!["StopRadio", "LoadTrack(\"/m/a.mp3\")"]);
    let c = app.on_track_loaded(Err("bad file".to_string()));
    assert_eq!(app.status_message.as_deref(), Some("Error: bad file"));
    assert_eq!(names(&c), vec!["SyncMedia"]);
    app.on_track_loaded(Ok(()));
    assert_eq!(app.status_message, None);
    let c = app.on_event(AppEvent::PrevTrack, 9);
    assert_eq!(app.playing_index, Some(2));
    assert_eq!(names(&c), vec!["StopRadio", "LoadTrack(\"/m/c.mp3\")"]);
}

#[test]
fn pause_volume_seek_follow_the_source() {
    let mut app = app3();
    assert_eq!(names(&app.on_event(AppEvent::TogglePause, 0)), vec!["TogglePlayerPause", "SyncMedia"]);
    assert_eq!(names(&app.on_event(AppEvent::VolumeUp, 0)), vec!["PlayerVolumeUp"]);
    assert_eq!(names(&app.on_event(AppEvent::SeekForward, 0)), vec!["SeekForward(5)"]);
    assert_eq!(names(&app.on_event(AppEvent::SeekBackward, 0)), vec!["SeekBackward(5)"]);
    app.radio_playing = true;
    assert_eq!(names(&app.on_event(AppEvent::TogglePause, 0)), vec!["ToggleRadioPause"]);
    assert_eq!(names(&app.on_event(AppEvent::VolumeDown, 0)), vec!["RadioVolumeDown"]);
    assert!(app.on_event(AppEvent::SeekForward, 0).is_empty());
}

#[test]
fn enter_plays_track_or_station() {
    let mut app = app3();
    app.on_event(AppEvent::ScrollDown, 5);
    let c = app.on_event(AppEvent::Enter, 5);
    assert_eq!(app.playing_index, Some(1));
    assert_eq!(names(&c), vec!["StopRadio", "LoadTrack(\"/m/b.mp3\")"]);
    app.on_event(AppEvent::SwitchTab, 5);
    assert_eq!(app.tab, Tab::Radio);
    app.on_event(AppEvent::ScrollDown, 5);
    let c = app.on_event(AppEvent::Enter, 5);
    assert!(app.radio_playing);
    assert_eq!(app.status_message.as_deref(), Some("Connecting..."));
    assert_eq!(names(&c), vec!["StopPlayer", "Redraw", "PlayStation(1)"]);
    let c = app.on_stream_result(Err("timeout".to_string()), true);
    assert!(!app.radio_playing);
    assert_eq!(app.status_message.as_deref(), Some("Radio error: timeout"));
    assert_eq!(names(&c), vec!["MediaStopped"]);
    // no station at the index
    assert!(app.on_event(AppEvent::Enter, 1).is_empty());
}

#[test]
fn search_events_and_quit() {
    let mut app = app3();
    app.on_event(AppEvent::StartSearch, 0);
    assert!(app.search_mode);
    app.on_event(AppEvent::SearchChar('b'), 0);
    assert_eq!(app.filtered, vec![1]);
    app.on_event(AppEvent::SearchBackspace, 0);
    assert_eq!(app.filtered, vec![0, 1, 2]);
    app.on_event(AppEvent::SearchChar('c'), 0);
    app.on_event(AppEvent::SearchCancel, 0);
    assert!(!app.search_mode);
    assert_eq!(app.query, "");
    app.on_event(AppEvent::ToggleShuffle, 0);
    assert!(app.shuffle);
    app.on_event(AppEvent::ToggleRepeat, 0);
    assert_eq!(app.repeat, RepeatMode::One);
    app.on_event(AppEvent::SwitchTab, 0);
    app.on_event(AppEvent::StartSearch, 0);
    assert!(!app.search_mode);
    assert!(app.on_event(AppEvent::Quit, 0).is_empty());
    assert!(!app.running);
}

#[test]
fn track_end_follows_repeat_mode() {
    let mut app = app3();
    app.playing_index = Some(2);
    // repeat off at the last track: stop
    let c = app.on_tick(true);
    assert_eq!(app.playing_index, None);
    assert_eq!(names(&c), vec!["MediaStopped"]);
    // repeat off with a next track
    app.playing_index = Some(0);
    let c = app.on_tick(true);
    assert_eq!(app.playing_index, Some(1));
    assert_eq!(names(&c), vec!["ReplayTrack(\"/m/b.mp3\")", "SyncMedia"]);
    // still playing: nothing
    assert!(app.on_tick(false).is_empty());
    // repeat one
    app.repeat = RepeatMode::One;
    let c = app.on_tick(true);
    assert_eq!(app.playing_index, Some(1));
    assert_eq!(names(&c), vec!["ReplayTrack(\"/m/b.mp3\")"]);
    // repeat all wraps
    app.repeat = RepeatMode::All;
    app.playing_index = Some(2);
    let c = app.on_tick(true);
    assert_eq!(app.playing_index, Some(0));
    assert_eq!(app.cursor, 0);
    assert_eq!(names(&c), vec!["ReplayTrack(\"/m/a.mp3\")", "SyncMedia"]);
    // the radio is not interrupted
    app.radio_playing = true;
    assert!(app.on_tick(true).is_empty());
    assert_eq!(app.playing_index, Some(0));
}

#[test]
fn media_keys() {
    let mut app = app3();
    assert_eq!(names(&app.on_media_event(MediaEvent::Play)), vec!["PlayerPlay", "SyncMedia"]);
    assert_eq!(names(&app.on_media_event(MediaEvent::Pause)), vec!["PlayerPause", "SyncMedia"]);
    assert_eq!(names(&app.on_media_event(MediaEvent::Toggle)), vec!["TogglePlayerPause", "SyncMedia"]);
    let c = app.on_media_event(MediaEvent::Next);
    assert_eq!(app.playing_index, Some(0));
    assert_eq!(names(&c), vec!["StopRadio", "LoadTrack(\"/m/a.mp3\")"]);
    app.on_media_event(MediaEvent::Previous);
    assert_eq!(app.playing_index, Some(2));
    match app.media_state(true) {
        MediaState::Track { title, artist, playing } => {
            assert_eq!(title, "c");
            assert_eq!(artist, None);
            assert!(!playing);
        }
        MediaState::Stopped => panic!("a track plays"),
    }
    let c = app.on_media_event(MediaEvent::Stop);
    assert_eq!(app.playing_index, None);
    assert_eq!(names(&c), vec!["StopPlayer", "MediaStopped"]);
    assert!(matches!(app.media_state(false), MediaState::Stopped));
    assert!(app.on_media_event(MediaEvent::Other).is_empty());
    app.radio_playing = true;
    assert!(app.on_media_event(MediaEvent::Play).is_empty());
    assert_eq!(names(&app.on_media_event(MediaEvent::Toggle)), vec!["ToggleRadioPause"]);
}

#[test]
fn startup_choices() {
    let mut app = app3();
    let c = app.on_startup(false, Some("http://s".to_string()));
    assert_eq!(app.tab, Tab::Radio);
    assert!(app.radio_playing);
    assert_eq!(names(&c), vec!["PlayUrl(\"http://s\")"]);
    let c = app.on_stream_result(Ok(()), false);
    assert!(c.is_empty());
    assert!(app.radio_playing);
    let mut app = app3();
    assert!(app.on_startup(true, None).is_empty());
    assert_eq!(app.tab, Tab::Radio);
    assert!(!app.radio_playing);
    assert_eq!(scan_roots(vec![], false, false), vec!["."]);
    assert!(scan_roots(vec![], true, false).is_empty());
    assert_eq!(scan_roots(vec!["x".to_string()], false, false), vec!["x"]);
    assert_eq!(error_message("Error: ", "e"), "Error: e");
}
