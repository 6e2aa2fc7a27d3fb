//! A track of the library: its file and the names shown for it.

use vstd::prelude::*;
use vstd::string::StringExecFns;
use crate::paths::{file_stem, spec_file_stem};

verus! {

/// An audio file with the title and artist read from its tags.
pub struct Track {
    pub path: String,
    pub title: String,
    pub artist: Option<String>,
}

/// A track as plain character sequences.
pub struct TrackView {
    pub path: Seq<char>,
    pub title: Seq<char>,
    pub artist: Option<Seq<char>>,
}

/// The view of an optional string.
pub open spec fn opt_str_view(o: Option<String>) -> Option<Seq<char>> {
    match o {
        Some(s) => Some(s@),
        None => None,
    }
}

impl View for Track {
    type V = TrackView;

    open spec fn view(&self) -> TrackView {
        TrackView { path: self.path@, title: self.title@, artist: opt_str_view(self.artist) }
    }
}

/// The line shown for a track: "Artist — Title" where the artist is known
/// and not empty, else the title alone.
pub open spec fn display_spec(t: TrackView) -> Seq<char> {
    match t.artist {
        Some(a) => if a.len() > 0 {
            a + " — "@ + t.title
        } else {
            t.title
        },
        None => t.title,
    }
}

/// A tag value, where it is present and not empty.
pub open spec fn nonempty_tag(tag: Option<Seq<char>>) -> Option<Seq<char>> {
    match tag {
        Some(t) => if t.len() > 0 {
            Some(t)
        } else {
            None
        },
        None => None,
    }
}

/// The track for the file at `path` whose tags hold `tag_title` and
/// `tag_artist`, where `stem` is the file name without its extension:
/// empty tags count as missing, and a missing title falls back to the stem
/// (the empty string where there is none).
pub open spec fn from_tags_spec(
    path: Seq<char>,
    tag_title: Option<Seq<char>>,
    tag_artist: Option<Seq<char>>,
    stem: Option<Seq<char>>,
) -> TrackView {
    TrackView {
        path,
        title: match nonempty_tag(tag_title) {
            Some(t) => t,
            None => match stem {
                Some(s) => s,
                None => Seq::<char>::empty(),
            },
        },
        artist: nonempty_tag(tag_artist),
    }
}

impl Track {
    /// Builds a track from its path, the title and artist tags read from
    /// the file, and the file name without its extension.
    pub fn from_tags(
        path: String,
        tag_title: Option<String>,
        tag_artist: Option<String>,
        stem: Option<String>,
    ) -> (t: Track)
        ensures
            t@ == from_tags_spec(
                path@,
                opt_str_view(tag_title),
                opt_str_view(tag_artist),
                opt_str_view(stem),
            ),
    {
        let title = match tag_title {
            Some(t) if !t.as_str().is_empty() => t,
            _ => match stem {
                Some(s) => s,
                None => String::new(),
            },
        };
        let artist = match tag_artist {
            Some(a) if !a.as_str().is_empty() => Some(a),
            _ => None,
        };
        Track { path, title, artist }
    }

    /// Builds a track from its path and the title and artist tags read
    /// from the file, falling back to the file name for the title.
    pub fn from_path(path: String, tag_title: Option<String>, tag_artist: Option<String>) -> (t:
        Track)
        ensures
            t@ == from_tags_spec(
                path@,
                opt_str_view(tag_title),
                opt_str_view(tag_artist),
                spec_file_stem(path@),
            ),
    {
        let stem = file_stem(path.as_str());
        Track::from_tags(path, tag_title, tag_artist, stem)
    }

    /// Line shown in the track list and now-playing header.
    pub fn display(&self) -> (r: String)
        ensures
            r@ == display_spec(self@),
    {
        match &self.artist {
            Some(a) if !a.as_str().is_empty() => {
                let mut s = a.clone();
                s.append(" — ");
                s.append(self.title.as_str());
                s
            },
            _ => self.title.clone(),
        }
    }
}

} // verus!
