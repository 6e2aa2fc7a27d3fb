use chiplay::app::{all_indices_vec, filter_tracks, App, RepeatMode, Tab};
use chiplay::track::Track;

fn track(path: &str, title: &str, artist: Option<&str>) -> Track {
    Track {
        path: path.to_string(),
        title: title.to_string(),
        artist: artist.map(|a| a.to_string()),
    }
}

fn sample_app() -> App {
    App::new(vec![
        track("/m/a.mp3", "Midnight Drive", Some("Neon")),
        track("/m/b.mp3", "Ocean Floor", None),
        track("/m/c.mp3", "Give Yourself A Break", Some("")),
        track("/m/d.flac", "Drive Home", Some("Ölsen")),
    ])
}

#[test]
fn repeat_mode_cycles_and_labels() {
    assert_eq!(RepeatMode::Off.next(), RepeatMode::One);
    assert_eq!(RepeatMode::One.next(), RepeatMode::All);
    assert_eq!(RepeatMode::All.next(), RepeatMode::Off);
    assert_eq!(RepeatMode::Off.label(), "Off");
    assert_eq!(RepeatMode::One.label(), "One");
    assert_eq!(RepeatMode::All.label(), "All");
    let m = RepeatMode::One;
    assert_eq!(m.next().next().next(), m);
}

#[test]
fn track_display_joins_artist_and_title() {
    assert_eq!(track("/x.mp3", "Song", Some("Band")).display(), "Band — Song");
    assert_eq!(track("/x.mp3", "Song", Some("")).display(), "Song");
    assert_eq!(track("/x.mp3", "Song", None).display(), "Song");
}

#[test]
fn track_from_path_falls_back_to_file_stem() {
    let t = Track::from_path("/music/ocean floor.mp3".to_string(), None, Some("".to_string()));
    assert_eq!(t.title, "ocean floor");
    assert_eq!(t.artist, None);
    let t = Track::from_path("/music/x.mp3".to_string(), Some("".to_string()), None);
    assert_eq!(t.title, "x");
    let t = Track::from_path("/music/x.mp3".to_string(), Some("Real".to_string()), Some("Art".to_string()));
    assert_eq!(t.title, "Real");
    assert_eq!(t.artist.as_deref(), Some("Art"));
    assert_eq!(Track::from_path("/a/b/song.tar.gz".to_string(), None, None).title, "song.tar");
    assert_eq!(Track::from_path("/".to_string(), None, None).title, "");
    let t = Track::from_tags("/p".to_string(), None, None, Some("stem".to_string()));
    assert_eq!(t.title, "stem");
    let t = Track::from_tags("/p".to_string(), Some("".to_string()), None, None);
    assert_eq!(t.title, "");
    assert_eq!(t.path, "/p");
}

#[test]
fn new_app_shows_everything() {
    let app = sample_app();
    assert_eq!(app.filtered, vec![0, 1, 2, 3]);
    assert_eq!(app.cursor, 0);
    assert_eq!(app.playing_index, None);
    assert!(!app.shuffle);
    assert_eq!(app.repeat, RepeatMode::Off);
    assert_eq!(app.tab, Tab::Tracks);
    assert!(app.running);
    assert!(app.show_viz);
    assert!(!app.search_mode);
    assert_eq!(app.query, "");
    assert_eq!(app.playing_name(), "No track");
    assert_eq!(app.playing_path(), None);
    assert_eq!(all_indices_vec(3), vec![0, 1, 2]);
}

#[test]
fn search_is_case_insensitive_and_on_display_line() {
    let mut app = sample_app();
    app.start_search();
    assert!(app.search_mode);
    app.push_query('D');
    app.push_query('r');
    app.push_query('I');
    assert_eq!(app.query, "DrI");
    assert_eq!(app.filtered, vec![0, 3]);
    app.push_query('v');
    app.push_query('e');
    app.push_query(' ');
    app.push_query('h');
    assert_eq!(app.filtered, vec![3]);
    assert_eq!(app.cursor, 0);
    // artist is part of the searched line; non-ASCII lower-casing
    let found = filter_tracks(&sample_app().tracks, "ÖLSEN");
    assert_eq!(found, vec![3]);
    let found = filter_tracks(&sample_app().tracks, "neon —");
    assert_eq!(found, vec![0]);
    let none = filter_tracks(&sample_app().tracks, "zzz");
    assert!(none.is_empty());
}

#[test]
fn pop_after_push_restores_query_and_list() {
    let mut app = sample_app();
    app.push_query('o');
    let q = app.query.clone();
    let f = app.filtered.clone();
    app.push_query('c');
    assert_eq!(app.filtered, vec![1]);
    app.pop_query();
    assert_eq!(app.query, q);
    assert_eq!(app.filtered, f);
    app.pop_query();
    app.pop_query();
    assert_eq!(app.query, "");
    assert_eq!(app.filtered, vec![0, 1, 2, 3]);
}

#[test]
fn cursor_is_clamped_by_filter() {
    let mut app = sample_app();
    app.cursor = 3;
    app.push_query('o');
    // matches: Neon — Midnight Drive, Ocean Floor, Give Yourself..., Ölsen — Drive Home
    assert_eq!(app.filtered, vec![0, 1, 2, 3]);
    app.push_query('c');
    assert_eq!(app.filtered, vec![1]);
    assert_eq!(app.cursor, 0);
    app.push_query('x');
    assert!(app.filtered.is_empty());
    assert_eq!(app.cursor, 0);
}

#[test]
fn end_search_with_and_without_clear() {
    let mut app = sample_app();
    app.start_search();
    app.push_query('o');
    app.push_query('c');
    app.end_search(false);
    assert!(!app.search_mode);
    assert_eq!(app.query, "oc");
    assert_eq!(app.filtered, vec![1]);
    app.start_search();
    app.end_search(true);
    assert_eq!(app.query, "");
    assert_eq!(app.filtered, vec![0, 1, 2, 3]);
}

#[test]
fn advance_and_retreat_wrap_around() {
    let mut app = sample_app();
    app.advance_track();
    assert_eq!(app.playing_index, Some(0));
    assert_eq!(app.cursor, 0);
    app.advance_track();
    assert_eq!(app.playing_index, Some(1));
    assert!(app.has_next());
    app.playing_index = Some(3);
    assert!(!app.has_next());
    app.advance_track();
    assert_eq!(app.playing_index, Some(0));
    app.retreat_track();
    assert_eq!(app.playing_index, Some(3));
    assert_eq!(app.cursor, 3);
    app.advance_track();
    app.retreat_track();
    assert_eq!(app.playing_index, Some(3));
    // nothing shown playing: retreat goes to the top
    app.playing_index = None;
    app.retreat_track();
    assert_eq!(app.playing_index, Some(0));
}

#[test]
fn advance_moves_within_filtered_list() {
    let mut app = sample_app();
    app.push_query('d');
    app.push_query('r');
    assert_eq!(app.filtered, vec![0, 3]);
    app.playing_index = Some(0);
    app.advance_track();
    assert_eq!(app.playing_index, Some(3));
    assert_eq!(app.cursor, 1);
    app.advance_track();
    assert_eq!(app.playing_index, Some(0));
    app.playing_index = Some(1);
    assert!(!app.has_next());
    app.advance_track();
    assert_eq!(app.playing_index, Some(0));
}

#[test]
fn shuffle_picks_a_shown_track() {
    let mut app = sample_app();
    app.toggle_shuffle();
    assert!(app.shuffle);
    for _ in 0..50 {
        app.advance_track();
        let p = app.playing_index.unwrap();
        assert!(app.filtered.contains(&p));
        assert_eq!(app.filtered[app.cursor], p);
    }
    app.advance_track_with(2);
    assert_eq!(app.playing_index, Some(2));
    assert_eq!(app.cursor, 2);
    app.toggle_shuffle();
    assert!(!app.shuffle);
}

#[test]
fn empty_list_moves_nothing() {
    let mut app = App::new(Vec::new());
    app.advance_track();
    app.retreat_track();
    app.play_at_cursor();
    assert_eq!(app.playing_index, None);
    assert!(!app.has_next());
    app.scroll_down(0);
    app.scroll_up();
    assert_eq!(app.cursor, 0);
}

#[test]
fn play_at_cursor_and_playing_info() {
    let mut app = sample_app();
    app.scroll_down(9);
    app.scroll_down(9);
    assert_eq!(app.cursor, 2);
    app.play_at_cursor();
    assert_eq!(app.playing_index, Some(2));
    assert_eq!(app.playing_name(), "Give Yourself A Break");
    assert_eq!(app.playing_path().as_deref(), Some("/m/c.mp3"));
    assert_eq!(app.playing_track().unwrap().title, "Give Yourself A Break");
    app.playing_index = Some(17);
    assert!(app.playing_track().is_none());
    assert_eq!(app.playing_name(), "No track");
    assert_eq!(app.all_paths(), vec!["/m/a.mp3", "/m/b.mp3", "/m/c.mp3", "/m/d.flac"]);
}

#[test]
fn scrolling_stops_at_the_ends() {
    let mut app = sample_app();
    app.scroll_up();
    assert_eq!(app.cursor, 0);
    for _ in 0..10 {
        app.scroll_down(3);
    }
    assert_eq!(app.cursor, 3);
    app.toggle_tab();
    assert_eq!(app.tab, Tab::Radio);
    for _ in 0..10 {
        app.scroll_down(3);
    }
    assert_eq!(app.radio_index, 2);
    assert_eq!(app.cursor, 3);
    app.scroll_up();
    assert_eq!(app.radio_index, 1);
    app.toggle_tab();
    assert_eq!(app.tab, Tab::Tracks);
}

#[test]
fn toggles_flip_back() {
    let mut app = sample_app();
    app.toggle_viz();
    assert!(!app.show_viz);
    app.toggle_viz();
    assert!(app.show_viz);
    app.toggle_repeat();
    app.toggle_repeat();
    assert_eq!(app.repeat, RepeatMode::All);
    app.toggle_repeat();
    assert_eq!(app.repeat, RepeatMode::Off);
}

#[test]
fn typing_never_adds_matches() {
    let mut app = sample_app();
    let mut before = app.filtered.clone();
    for c in "DRIVE HOME".chars() {
        app.push_query(c);
        assert!(app.filtered.iter().all(|i| before.contains(i)));
        assert!(app.filtered.windows(2).all(|w| w[0] < w[1]));
        before = app.filtered.clone();
    }
    assert_eq!(app.filtered, vec![3]);
}
