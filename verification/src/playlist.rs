//! M3U playlists and the file kinds the player recognises.

use vstd::prelude::*;
use vstd::string::StringExecFns;
use crate::paths::{extension, is_absolute, join, parent, is_absolute_spec, spec_extension, join_spec, spec_parent};
use crate::text::{
    chars_of, eq_ignore_ascii_case, eq_ignore_ascii_case_spec, line_ranges, lines, ranges_match,
    string_of, lowercase, lower_spec, trim, trim_range,
};

verus! {

/// Whether a file extension names a playlist: `m3u` or `m3u8` in any ASCII case.
pub open spec fn is_playlist_ext_spec(ext: Option<Seq<char>>) -> bool {
    match ext {
        Some(e) => eq_ignore_ascii_case_spec(e, "m3u"@) || eq_ignore_ascii_case_spec(e, "m3u8"@),
        None => false,
    }
}

/// Whether a file extension names a playlist.
pub fn is_playlist_extension(ext: Option<&str>) -> (r: bool)
    ensures
        r == is_playlist_ext_spec(match ext {
            Some(e) => Some(e@),
            None => None,
        }),
{
    match ext {
        Some(e) => eq_ignore_ascii_case(e, "m3u") || eq_ignore_ascii_case(e, "m3u8"),
        None => false,
    }
}

/// Whether the path names a playlist file, judged by its extension.
pub fn is_playlist(path: &str) -> (r: bool)
    ensures
        r == is_playlist_ext_spec(spec_extension(path@)),
{
    let ext = extension(path);
    match ext {
        Some(e) => is_playlist_extension(Some(e.as_str())),
        None => is_playlist_extension(None),
    }
}

/// A playlist entry resolved against the directory of the playlist: an
/// absolute entry stays as it is, a relative one is joined to that directory
/// where there is one.
pub open spec fn resolve_spec(base: Option<Seq<char>>, entry: Seq<char>) -> Seq<char> {
    if is_absolute_spec(entry) {
        entry
    } else {
        match base {
            Some(b) => join_spec(b, entry),
            None => entry,
        }
    }
}

/// The entry that one playlist line names: the trimmed line, unless it is
/// empty or a `#` comment.
pub open spec fn entry_of_line(line: Seq<char>, base: Option<Seq<char>>) -> Option<Seq<char>> {
    let t = trim(line);
    if t.len() == 0 || t[0] == '#' {
        None
    } else {
        Some(resolve_spec(base, t))
    }
}

/// The entries that a sequence of playlist lines names, in order.
pub open spec fn entries_from_lines(ls: Seq<Seq<char>>, base: Option<Seq<char>>) -> Seq<Seq<char>>
    decreases ls.len(),
{
    if ls.len() == 0 {
        seq![]
    } else {
        let prev = entries_from_lines(ls.drop_last(), base);
        match entry_of_line(ls.last(), base) {
            Some(e) => prev.push(e),
            None => prev,
        }
    }
}

/// The candidate track paths of the playlist at `path` whose text is
/// `content`.
pub open spec fn playlist_entries_spec(path: Seq<char>, content: Seq<char>) -> Seq<Seq<char>> {
    entries_from_lines(lines(content), spec_parent(path))
}

/// The view of an optional string slice.
pub open spec fn opt_slice_view(o: Option<&str>) -> Option<Seq<char>> {
    match o {
        Some(s) => Some(s@),
        None => None,
    }
}

/// The views of a list of strings.
pub open spec fn string_views(v: Seq<String>) -> Seq<Seq<char>> {
    v.map_values(|s: String| s@)
}

/// The entries of the playlist at `playlist_path`, whose text is `content`,
/// in order: every line that is not blank and not a `#` comment, trimmed
/// and resolved against the playlist's directory. Which of them name
/// existing files is for the caller to check.
pub fn load_entries(playlist_path: &str, content: &str) -> (r: Vec<String>)
    ensures
        string_views(r@) == playlist_entries_spec(playlist_path@, content@),
{
    let base = parent(playlist_path);
    match base {
        Some(b) => entries_in(Some(b.as_str()), content),
        None => entries_in(None, content),
    }
}

/// The entries of a playlist whose text is `content` and whose directory is
/// `base`, where it has one.
pub fn entries_in(base: Option<&str>, content: &str) -> (r: Vec<String>)
    ensures
        string_views(r@) == entries_from_lines(lines(content@), opt_slice_view(base)),
{
    let ghost gbase = opt_slice_view(base);
    let v = chars_of(content);
    let ls = line_ranges(v.as_slice());
    let ghost all = lines(v@);
    let mut r: Vec<String> = Vec::new();
    let mut k: usize = 0;
    while k < ls.len()
        invariant
            v@ == content@,
            all == lines(v@),
            ranges_match(v@, ls@, all),
            gbase == opt_slice_view(base),
            k <= ls@.len(),
            string_views(r@) == entries_from_lines(all.take(k as int), gbase),
        decreases ls@.len() - k,
    {
        let (a, b) = ls[k];
        assert(ls@[k as int] == (a, b));
        assert(all.take(k + 1).drop_last() == all.take(k as int));
        assert(all.take(k + 1).last() == all[k as int]);
        let (t0, t1) = trim_range(v.as_slice(), a, b);
        if t0 < t1 && v[t0] != '#' {
            let t = string_of(v.as_slice(), t0, t1);
            let e = if is_absolute(t.as_str()) {
                t
            } else {
                match base {
                    Some(d) => join(d, t.as_str()),
                    None => t,
                }
            };
            r.push(e);
            assert(string_views(r@) == string_views(r@.drop_last()).push(r@.last()@));
        }
        k += 1;
    }
    assert(all.take(k as int) == all);
    r
}

/// The lines of a saved playlist after its header: each path followed by
/// a newline.
pub open spec fn render_body(paths: Seq<Seq<char>>) -> Seq<char>
    decreases paths.len(),
{
    if paths.len() == 0 {
        seq![]
    } else {
        render_body(paths.drop_last()) + paths.last() + seq!['\n']
    }
}

/// The text of a saved playlist: the `#EXTM3U` header line, then one path
/// per line.
pub open spec fn render_spec(paths: Seq<Seq<char>>) -> Seq<char> {
    "#EXTM3U\n"@ + render_body(paths)
}

/// The text that saving `paths` as a playlist writes.
pub fn render(paths: &[String]) -> (r: String)
    ensures
        r@ == render_spec(string_views(paths@)),
{
    let mut out = "#EXTM3U\n".to_owned();
    let ghost header = "#EXTM3U\n"@;
    let mut i: usize = 0;
    while i < paths.len()
        invariant
            i <= paths@.len(),
            header == "#EXTM3U\n"@,
            out@ == header + render_body(string_views(paths@.take(i as int))),
        decreases paths@.len() - i,
    {
        out.append(paths[i].as_str());
        out.append("\n");
        proof {
            reveal_strlit("\n");
            let ps = string_views(paths@.take(i + 1));
            assert(ps.drop_last() == string_views(paths@.take(i as int)));
            assert(ps.last() == paths@[i as int]@);
        }
        i += 1;
    }
    assert(paths@.take(i as int) == paths@);
    out
}

/// The extensions of the audio files the player plays, in lower case.
pub open spec fn audio_exts() -> Seq<Seq<char>> {
    seq!["mp3"@, "flac"@, "ogg"@, "wav"@, "m4a"@, "aac"@]
}

/// Whether a lower-cased extension is one of the audio extensions.
pub fn is_audio_ext_lower(ext: &str) -> (r: bool)
    ensures
        r == audio_exts().contains(ext@),
{
    let e = ext.to_owned();
    let r = e == "mp3".to_owned() || e == "flac".to_owned() || e == "ogg".to_owned() || e
        == "wav".to_owned() || e == "m4a".to_owned() || e == "aac".to_owned();
    proof {
        if audio_exts().contains(ext@) {
            let j = choose|j: int| 0 <= j < audio_exts().len() && audio_exts()[j] == ext@;
            assert(0 <= j < 6);
        }
        if r {
            if e@ == "mp3"@ { assert(audio_exts()[0] == ext@); }
            if e@ == "flac"@ { assert(audio_exts()[1] == ext@); }
            if e@ == "ogg"@ { assert(audio_exts()[2] == ext@); }
            if e@ == "wav"@ { assert(audio_exts()[3] == ext@); }
            if e@ == "m4a"@ { assert(audio_exts()[4] == ext@); }
            if e@ == "aac"@ { assert(audio_exts()[5] == ext@); }
        }
    }
    r
}

/// Whether a file extension names an audio file: its lower-case form is
/// one of the audio extensions.
pub open spec fn is_audio_ext_spec(ext: Option<Seq<char>>) -> bool {
    match ext {
        Some(e) => audio_exts().contains(lower_spec(e)),
        None => false,
    }
}

/// Whether a file extension names an audio file.
pub fn is_audio_extension(ext: Option<&str>) -> (r: bool)
    ensures
        r == is_audio_ext_spec(match ext {
            Some(e) => Some(e@),
            None => None,
        }),
{
    match ext {
        Some(e) => {
            let lower = lowercase(e);
            is_audio_ext_lower(lower.as_str())
        },
        None => false,
    }
}

/// Whether the path names an audio file, judged by its extension.
pub fn is_audio(path: &str) -> (r: bool)
    ensures
        r == is_audio_ext_spec(spec_extension(path@)),
{
    let ext = extension(path);
    match ext {
        Some(e) => is_audio_extension(Some(e.as_str())),
        None => is_audio_extension(None),
    }
}

/// What the player does with a path it is given: read it as a playlist,
/// keep it as an audio file, list the directory, or skip it.
#[derive(Clone, Copy, PartialEq, Eq, Structural, Debug)]
pub enum PathKind {
    Playlist,
    Audio,
    Directory,
    Skip,
}

/// What the player does with a path, where `is_file` and `is_dir` say
/// what the file system holds there: a playlist by its extension comes
/// first; a file is kept where its extension names audio; a directory is
/// listed; anything else is skipped.
pub open spec fn path_kind_spec(path: Seq<char>, is_file: bool, is_dir: bool) -> PathKind {
    if is_playlist_ext_spec(spec_extension(path)) {
        PathKind::Playlist
    } else if is_file {
        if is_audio_ext_spec(spec_extension(path)) {
            PathKind::Audio
        } else {
            PathKind::Skip
        }
    } else if is_dir {
        PathKind::Directory
    } else {
        PathKind::Skip
    }
}

/// What the player does with a path it is given, where `is_file` and
/// `is_dir` say what the file system holds there.
pub fn path_kind(path: &str, is_file: bool, is_dir: bool) -> (r: PathKind)
    ensures
        r == path_kind_spec(path@, is_file, is_dir),
{
    if is_playlist(path) {
        PathKind::Playlist
    } else if is_file {
        if is_audio(path) {
            PathKind::Audio
        } else {
            PathKind::Skip
        }
    } else if is_dir {
        PathKind::Directory
    } else {
        PathKind::Skip
    }
}

} // verus!
