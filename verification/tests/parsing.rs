use chiplay::playlist::{path_kind, PathKind};
use chiplay::text::lowercase;
use chiplay::paths::is_absolute;
use chiplay::playlist::{is_audio, is_audio_extension, is_playlist, is_playlist_extension, entries_in, load_entries, render};
use chiplay::stations::{builtin, builtin_stations, config_path, parse_custom, Station};
use chiplay::text::{chars_of, contains, eq_ignore_ascii_case, is_whitespace, line_ranges, split_ranges, string_of, trim_range};

fn lines_of(s: &str) -> Vec<String> {
    let v = chars_of(s);
    line_ranges(&v).into_iter().map(|(a, b)| string_of(&v, a, b)).collect()
}

#[test]
fn lines_follow_str_lines() {
    for s in ["", "a", "a\n", "a\nb", "a\r\nb\r\n", "\n\n", "x\r", "a\n\nb\n"] {
        let expected: Vec<String> = s.lines().map(|l| l.to_string()).collect();
        assert_eq!(lines_of(s), expected, "input {:?}", s);
    }
}

#[test]
fn trim_follows_str_trim() {
    for s in ["", "  ", " a b ", "\u{3000}x\u{00a0}", "\t\n y \r", "z"] {
        let v = chars_of(s);
        let (a, b) = trim_range(&v, 0, v.len());
        assert_eq!(string_of(&v, a, b), s.trim());
    }
    assert!(is_whitespace('\u{2028}'));
    assert!(!is_whitespace('x'));
}

#[test]
fn split_follows_str_split() {
    for s in ["", "|", "a|b", "a||b|", "abc"] {
        let v = chars_of(s);
        let parts: Vec<String> = split_ranges(&v, 0, v.len(), '|')
            .into_iter()
            .map(|(a, b)| string_of(&v, a, b))
            .collect();
        let expected: Vec<String> = s.split('|').map(|p| p.to_string()).collect();
        assert_eq!(parts, expected);
    }
}

#[test]
fn text_helpers() {
    assert!(contains("hello world", "o w"));
    assert!(contains("abc", ""));
    assert!(!contains("abc", "abcd"));
    assert!(!contains("abc", "ac"));
    assert!(eq_ignore_ascii_case("M3u8", "m3U8"));
    assert!(!eq_ignore_ascii_case("m3u", "m3u8"));
}

#[test]
fn custom_station_lines() {
    let text = "# comment\n\n  My Station | https://example.com/stream.mp3 | Ambient \nLo-Fi Beats | https://example.com/lofi.aac\nNo Url |  \nOnly a name\nEmpty genre | http://e.x |  | extra\n";
    let st = parse_custom(text);
    assert_eq!(st.len(), 3);
    assert_eq!(st[0].name, "My Station");
    assert_eq!(st[0].url, "https://example.com/stream.mp3");
    assert_eq!(st[0].genre, "Ambient");
    assert_eq!(st[1].name, "Lo-Fi Beats");
    assert_eq!(st[1].url, "https://example.com/lofi.aac");
    assert_eq!(st[1].genre, "Custom");
    assert_eq!(st[2].name, "Empty genre");
    assert_eq!(st[2].genre, "Custom");
    assert!(parse_custom("").is_empty());
    assert!(parse_custom("#x | y").is_empty());
}

#[test]
fn builtin_station_list() {
    let b = builtin();
    assert_eq!(b.len(), 9);
    assert_eq!(b[0].name, "Европа Плюс");
    assert_eq!(b[0].genre, "Pop");
    assert_eq!(b[8].name, "Radio Paradise");
    assert_eq!(b[8].url, "https://stream.radioparadise.com/aac-128");
    let all = builtin_stations(Some("X | http://x"));
    assert_eq!(all.len(), 10);
    assert_eq!(all[9].name, "X");
    assert_eq!(builtin_stations(None).len(), 9);
    let s = Station::new("a", "b", "c");
    assert_eq!((s.name.as_str(), s.url.as_str(), s.genre.as_str()), ("a", "b", "c"));
}

#[test]
fn config_path_prefers_xdg() {
    assert_eq!(
        config_path(Some("/cfg".to_string()), Some("/home/u".to_string())).as_deref(),
        Some("/cfg/chiplay/stations.txt")
    );
    assert_eq!(
        config_path(None, Some("/home/u".to_string())).as_deref(),
        Some("/home/u/.config/chiplay/stations.txt")
    );
    assert_eq!(config_path(None, None), None);
}

#[test]
fn path_helpers() {
    assert!(is_absolute("/x"));
    assert!(!is_absolute("x/y"));
    assert!(!is_absolute(""));
    assert!(!is_playlist("/a/.m3u"));
    assert!(is_audio("/a/B.MP3"));
}

#[test]
fn playlist_and_audio_kinds() {
    assert!(is_playlist("/x/list.m3u"));
    assert!(is_playlist("list.M3U8"));
    assert!(!is_playlist("list.m3"));
    assert!(!is_playlist("m3u"));
    assert!(is_playlist_extension(Some("M3u")));
    assert!(!is_playlist_extension(None));
    assert!(is_audio("/a/song.FLAC"));
    assert!(is_audio("b.m4a"));
    assert!(!is_audio("c.txt"));
    assert!(!is_audio("mp3"));
    assert!(is_audio_extension(Some("Aac")));
    assert!(!is_audio_extension(Some("opus")));
}

#[test]
fn playlist_entries_resolve_against_its_directory() {
    let content = "#EXTM3U\n  song one.mp3  \n\n# note\n/abs/two.flac\r\nsub/three.ogg";
    let e = load_entries("/music/list.m3u", content);
    assert_eq!(e, vec!["/music/song one.mp3", "/abs/two.flac", "/music/sub/three.ogg"]);
    let e = load_entries("list.m3u", "a.mp3\n");
    assert_eq!(e, vec!["a.mp3"]);
    let e = entries_in(None, "x.mp3\n#c\n/y.mp3");
    assert_eq!(e, vec!["x.mp3", "/y.mp3"]);
    let e = entries_in(Some("/base"), " x.mp3 ");
    assert_eq!(e, vec!["/base/x.mp3"]);
}

#[test]
fn saved_playlist_reads_back() {
    let paths = vec!["/m/a.mp3".to_string(), "/m/b c.flac".to_string()];
    let text = render(&paths);
    assert_eq!(text, "#EXTM3U\n/m/a.mp3\n/m/b c.flac\n");
    assert_eq!(load_entries("/elsewhere/p.m3u", &text), paths);
    assert_eq!(render(&[]), "#EXTM3U\n");
}

#[test]
fn join_puts_one_separator() {
    assert_eq!(
        config_path(Some("/cfg/".to_string()), None).as_deref(),
        Some("/cfg/chiplay/stations.txt")
    );
    assert_eq!(config_path(Some("".to_string()), None).as_deref(), Some("chiplay/stations.txt"));
    assert_eq!(entries_in(Some(""), "x.mp3"), vec!["x.mp3"]);
    assert_eq!(entries_in(Some("/b/"), "x.mp3"), vec!["/b/x.mp3"]);
    assert_eq!(entries_in(Some("/b"), "x.mp3"), vec!["/b/x.mp3"]);
}

#[test]
fn lowercase_ascii_and_beyond() {
    assert_eq!(lowercase("Hello, WORLD 42!"), "hello, world 42!");
    assert_eq!(lowercase("ÄBC"), "äbc");
    assert_eq!(lowercase("ΣΑΣ"), "ΣΑΣ".to_lowercase());
    assert_eq!(lowercase(""), "");
}

#[test]
fn path_kinds() {
    assert_eq!(path_kind("/a/l.m3u", false, false), PathKind::Playlist);
    assert_eq!(path_kind("/a/s.mp3", true, false), PathKind::Audio);
    assert_eq!(path_kind("/a/notes.txt", true, false), PathKind::Skip);
    assert_eq!(path_kind("/a/dir", false, true), PathKind::Directory);
    assert_eq!(path_kind("/a/gone.mp3", false, false), PathKind::Skip);
}
