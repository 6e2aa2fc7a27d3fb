//! The player's state: the track list, the filtered view of it that a
//! search leaves, the cursor, what is playing, and the playback modes.

use vstd::prelude::*;
use rand::Rng;
use crate::text::{contains, contains_seq, pop_char, push_char, lower_spec, lowercase};
use crate::track::{display_spec, Track, TrackView};

verus! {

/// What happens when a track ends.
#[derive(Clone, Copy, PartialEq, Eq, Structural, Debug)]
pub enum RepeatMode {
    Off,
    One,
    All,
}

/// The mode after `m` in the cycle Off, One, All.
pub open spec fn repeat_next_spec(m: RepeatMode) -> RepeatMode {
    match m {
        RepeatMode::Off => RepeatMode::One,
        RepeatMode::One => RepeatMode::All,
        RepeatMode::All => RepeatMode::Off,
    }
}

/// The name shown for a repeat mode.
pub open spec fn repeat_label_spec(m: RepeatMode) -> Seq<char> {
    match m {
        RepeatMode::Off => "Off"@,
        RepeatMode::One => "One"@,
        RepeatMode::All => "All"@,
    }
}

impl RepeatMode {
    /// The next mode in the cycle Off, One, All, Off.
    pub fn next(self) -> (r: Self)
        ensures
            r == repeat_next_spec(self),
    {
        match self {
            RepeatMode::Off => RepeatMode::One,
            RepeatMode::One => RepeatMode::All,
            RepeatMode::All => RepeatMode::Off,
        }
    }

    /// The name shown for the mode.
    pub fn label(self) -> (r: &'static str)
        ensures
            r@ == repeat_label_spec(self),
    {
        match self {
            RepeatMode::Off => "Off",
            RepeatMode::One => "One",
            RepeatMode::All => "All",
        }
    }
}

/// The two lists the player shows.
#[derive(Clone, Copy, PartialEq, Eq, Structural, Debug)]
pub enum Tab {
    Tracks,
    Radio,
}

/// The views of a list of tracks.
pub open spec fn track_views(s: Seq<Track>) -> Seq<TrackView> {
    s.map_values(|t: Track| t@)
}

/// Whether a track matches a search: its shown line, in lower case,
/// contains the query in lower case.
pub open spec fn matches_query(t: TrackView, q: Seq<char>) -> bool {
    contains_seq(lower_spec(display_spec(t)), lower_spec(q))
}

/// The indices among the first `n` tracks that match the query, in order.
pub open spec fn matching_upto(tracks: Seq<TrackView>, q: Seq<char>, n: nat) -> Seq<usize>
    decreases n,
{
    if n == 0 {
        seq![]
    } else {
        let prev = matching_upto(tracks, q, (n - 1) as nat);
        if matches_query(tracks[n - 1], q) {
            prev.push((n - 1) as usize)
        } else {
            prev
        }
    }
}

/// The indices `0..n`.
pub open spec fn all_indices(n: nat) -> Seq<usize> {
    Seq::new(n, |i: int| i as usize)
}

/// The tracks that a search for `q` shows: all of them for an empty query,
/// else those that match it, by index in order.
pub open spec fn filter_spec(tracks: Seq<TrackView>, q: Seq<char>) -> Seq<usize> {
    if q.len() == 0 {
        all_indices(tracks.len())
    } else {
        matching_upto(tracks, q, tracks.len())
    }
}

/// The indices of all `n` tracks.
pub fn all_indices_vec(n: usize) -> (r: Vec<usize>)
    ensures
        r@ == all_indices(n as nat),
{
    let mut r: Vec<usize> = Vec::new();
    for i in 0..n
        invariant
            r@ == all_indices(i as nat),
    {
        r.push(i);
    }
    r
}

/// The indices of the tracks that a search for `query` shows.
pub fn filter_tracks(tracks: &[Track], query: &str) -> (r: Vec<usize>)
    ensures
        r@ == filter_spec(track_views(tracks@), query@),
{
    if query.is_empty() {
        return all_indices_vec(tracks.len());
    }
    let q = lowercase(query);
    let ghost tv = track_views(tracks@);
    let mut r: Vec<usize> = Vec::new();
    for i in 0..tracks.len()
        invariant
            tv == track_views(tracks@),
            q@ == lower_spec(query@),
            r@ == matching_upto(tv, query@, i as nat),
    {
        let d = tracks[i].display();
        let dl = lowercase(d.as_str());
        assert(tv[i as int] == tracks@[i as int]@);
        if contains(dl.as_str(), q.as_str()) {
            r.push(i);
        }
    }
    r
}

/// The first position of `x` in `s`, if it occurs.
pub open spec fn first_index(s: Seq<usize>, x: usize) -> Option<int>
    decreases s.len(),
{
    if s.len() == 0 {
        None
    } else {
        match first_index(s.drop_last(), x) {
            Some(k) => Some(k),
            None => if s.last() == x {
                Some(s.len() - 1)
            } else {
                None
            },
        }
    }
}

/// The first position of `x` in `s` holds `x` and none before it does;
/// where there is none, `x` does not occur.
pub proof fn lemma_first_index(s: Seq<usize>, x: usize)
    ensures
        match first_index(s, x) {
            Some(k) => 0 <= k < s.len() && s[k] == x && forall|j: int| 0 <= j < k ==> s[j] != x,
            None => forall|j: int| 0 <= j < s.len() ==> s[j] != x,
        },
    decreases s.len(),
{
    if s.len() > 0 {
        lemma_first_index(s.drop_last(), x);
        assert(forall|j: int| 0 <= j < s.len() - 1 ==> s.drop_last()[j] == s[j]);
    }
}

/// The first position of `x` in `v`, as `Iterator::position` finds it.
pub fn position_of(v: &[usize], x: usize) -> (r: Option<usize>)
    ensures
        match r {
            Some(k) => first_index(v@, x) == Some(k as int),
            None => first_index(v@, x) is None,
        },
{
    let mut i: usize = 0;
    while i < v.len()
        invariant
            i <= v@.len(),
            forall|j: int| 0 <= j < i ==> v@[j] != x,
        decreases v@.len() - i,
    {
        if v[i] == x {
            proof {
                lemma_first_index(v@, x);
            }
            return Some(i);
        }
        i += 1;
    }
    proof {
        lemma_first_index(v@, x);
    }
    None
}

/// The state of the player.
pub struct App {
    pub tracks: Vec<Track>,
    pub filtered: Vec<usize>,
    pub cursor: usize,
    pub playing_index: Option<usize>,
    pub shuffle: bool,
    pub repeat: RepeatMode,
    pub tab: Tab,
    pub radio_index: usize,
    pub running: bool,
    pub radio_playing: bool,
    pub show_viz: bool,
    pub search_mode: bool,
    pub query: String,
    pub status_message: Option<String>,
}

/// The state of the player as plain values.
pub struct AppView {
    pub tracks: Seq<TrackView>,
    pub filtered: Seq<usize>,
    pub cursor: usize,
    pub playing: Option<usize>,
    pub shuffle: bool,
    pub repeat: RepeatMode,
    pub tab: Tab,
    pub radio_index: usize,
    pub running: bool,
    pub radio_playing: bool,
    pub show_viz: bool,
    pub search_mode: bool,
    pub query: Seq<char>,
    pub status: Option<Seq<char>>,
}

impl View for App {
    type V = AppView;

    open spec fn view(&self) -> AppView {
        AppView {
            tracks: track_views(self.tracks@),
            filtered: self.filtered@,
            cursor: self.cursor,
            playing: self.playing_index,
            shuffle: self.shuffle,
            repeat: self.repeat,
            tab: self.tab,
            radio_index: self.radio_index,
            running: self.running,
            radio_playing: self.radio_playing,
            show_viz: self.show_viz,
            search_mode: self.search_mode,
            query: self.query@,
            status: crate::track::opt_str_view(self.status_message),
        }
    }
}

/// The cursor kept within a list of `len` entries: moved to the last entry
/// where it is past the end, and to 0 where the list is empty.
pub open spec fn clamp_cursor(cursor: usize, len: nat) -> usize {
    if cursor >= len {
        if len == 0 {
            0
        } else {
            (len - 1) as usize
        }
    } else {
        cursor
    }
}

impl AppView {
    /// The player as it starts with the given tracks: all shown, cursor
    /// at the top, nothing playing, modes off, on the Tracks tab, running,
    /// visualiser shown.
    pub open spec fn initial(tracks: Seq<TrackView>) -> AppView {
        AppView {
            tracks,
            filtered: all_indices(tracks.len()),
            cursor: 0,
            playing: None,
            shuffle: false,
            repeat: RepeatMode::Off,
            tab: Tab::Tracks,
            radio_index: 0,
            running: true,
            radio_playing: false,
            show_viz: true,
            search_mode: false,
            query: Seq::<char>::empty(),
            status: None,
        }
    }

    /// The shown list recomputed from the query, the cursor kept within it.
    pub open spec fn with_filter(self) -> AppView {
        let f = filter_spec(self.tracks, self.query);
        AppView { filtered: f, cursor: clamp_cursor(self.cursor, f.len()), ..self }
    }

    /// The position in the shown list of the playing track, if it is shown.
    pub open spec fn playing_pos(self) -> Option<int> {
        match self.playing {
            Some(pi) => first_index(self.filtered, pi),
            None => None,
        }
    }

    /// The position after the playing one, wrapping to the top; the top
    /// where nothing shown is playing.
    pub open spec fn next_pos(self) -> int {
        match self.playing_pos() {
            Some(p) => (p + 1) % (self.filtered.len() as int),
            None => 0,
        }
    }

    /// The position before the playing one, wrapping to the bottom; the
    /// top where nothing shown is playing.
    pub open spec fn prev_pos(self) -> int {
        match self.playing_pos() {
            Some(p) => if p == 0 {
                self.filtered.len() - 1
            } else {
                p - 1
            },
            None => 0,
        }
    }

    /// Playing the shown entry at position `p`, with the cursor on it.
    pub open spec fn step_to(self, p: int) -> AppView {
        AppView { playing: Some(self.filtered[p]), cursor: p as usize, ..self }
    }

    /// The next track: a shuffled pick (`pick`) or the next shown entry.
    pub open spec fn advanced(self, pick: int) -> AppView {
        if self.filtered.len() == 0 {
            self
        } else if self.shuffle {
            self.step_to(pick)
        } else {
            self.step_to(self.next_pos())
        }
    }

    /// The previous shown entry.
    pub open spec fn retreated(self) -> AppView {
        if self.filtered.len() == 0 {
            self
        } else {
            self.step_to(self.prev_pos())
        }
    }

    /// Whether a shown entry follows the playing one.
    pub open spec fn has_next(self) -> bool {
        match self.playing_pos() {
            Some(p) => p + 1 < self.filtered.len(),
            None => false,
        }
    }

    /// The entry under the cursor made the playing one.
    pub open spec fn played_at_cursor(self) -> AppView {
        if self.cursor < self.filtered.len() {
            AppView { playing: Some(self.filtered[self.cursor as int]), ..self }
        } else {
            self
        }
    }

    /// The cursor of the current tab moved one entry up, stopping at the top.
    pub open spec fn scrolled_up(self) -> AppView {
        match self.tab {
            Tab::Tracks => if self.cursor > 0 {
                AppView { cursor: (self.cursor - 1) as usize, ..self }
            } else {
                self
            },
            Tab::Radio => if self.radio_index > 0 {
                AppView { radio_index: (self.radio_index - 1) as usize, ..self }
            } else {
                self
            },
        }
    }

    /// The cursor of the current tab moved one entry down, stopping at the
    /// last of the shown tracks or of `max_radio` stations.
    pub open spec fn scrolled_down(self, max_radio: nat) -> AppView {
        match self.tab {
            Tab::Tracks => if self.cursor + 1 < self.filtered.len() {
                AppView { cursor: (self.cursor + 1) as usize, ..self }
            } else {
                self
            },
            Tab::Radio => if self.radio_index + 1 < max_radio {
                AppView { radio_index: (self.radio_index + 1) as usize, ..self }
            } else {
                self
            },
        }
    }

    /// The other tab.
    pub open spec fn tab_toggled(self) -> AppView {
        AppView {
            tab: match self.tab {
                Tab::Tracks => Tab::Radio,
                Tab::Radio => Tab::Tracks,
            },
            ..self
        }
    }

    /// The query with `c` added, and the shown list for it.
    pub open spec fn query_pushed(self, c: char) -> AppView {
        AppView { query: self.query.push(c), ..self }.with_filter()
    }

    /// The query without its last character, and the shown list for it.
    pub open spec fn query_popped(self) -> AppView {
        AppView {
            query: if self.query.len() > 0 {
                self.query.drop_last()
            } else {
                self.query
            },
            ..self
        }.with_filter()
    }

    /// Search mode left; with `clear`, the query emptied and all tracks shown.
    pub open spec fn search_ended(self, clear: bool) -> AppView {
        let left = AppView { search_mode: false, ..self };
        if clear {
            AppView { query: Seq::<char>::empty(), ..left }.with_filter()
        } else {
            left
        }
    }

    /// The state is consistent: the track list fits in memory, the shown
    /// list is the one the query gives,
    /// the cursor is on a shown entry (at 0 where none is), and the playing
    /// track is one of the tracks.
    pub open spec fn wf(self) -> bool {
        &&& self.tracks.len() <= usize::MAX
        &&& self.filtered == filter_spec(self.tracks, self.query)
        &&& if self.filtered.len() == 0 {
            self.cursor == 0
        } else {
            self.cursor < self.filtered.len()
        }
        &&& self.playing matches Some(i) ==> i < self.tracks.len()
    }
}

/// The entries of `s` are below `n` and strictly increasing.
pub open spec fn sorted_below(s: Seq<usize>, n: nat) -> bool {
    &&& forall|i: int| 0 <= i < s.len() ==> s[i] < n
    &&& forall|i: int, j: int| 0 <= i < j < s.len() ==> s[i] < s[j]
}

/// The matching indices among the first `n` tracks are below `n` and
/// strictly increasing.
pub proof fn lemma_matching_sorted(tracks: Seq<TrackView>, q: Seq<char>, n: nat)
    requires
        n <= usize::MAX,
    ensures
        sorted_below(matching_upto(tracks, q, n), n),
    decreases n,
{
    if n > 0 {
        lemma_matching_sorted(tracks, q, (n - 1) as nat);
        let prev = matching_upto(tracks, q, (n - 1) as nat);
        if matches_query(tracks[n - 1], q) {
            let cur = prev.push((n - 1) as usize);
            assert forall|i: int, j: int| 0 <= i < j < cur.len() implies cur[i] < cur[j] by {
                if j < prev.len() {
                    assert(cur[i] == prev[i] && cur[j] == prev[j]);
                } else {
                    assert(cur[i] == prev[i]);
                }
            }
        }
    }
}

/// The shown list is strictly increasing and holds indices of tracks.
pub proof fn lemma_filter_sorted(tracks: Seq<TrackView>, q: Seq<char>)
    requires
        tracks.len() <= usize::MAX,
    ensures
        sorted_below(filter_spec(tracks, q), tracks.len()),
{
    lemma_matching_sorted(tracks, q, tracks.len());
}

/// Chooses a position among the first `n` uniformly at random.
///
/// Calls `rand::Rng::gen_range` on `rand::thread_rng()` over `0..n`, which
/// panics on an empty range; only that the result lies in the range is
/// claimed.
#[verifier::external_body]
pub(crate) fn random_below(n: usize) -> (r: usize)
    requires
        n > 0,
    ensures
        r < n,
{
    rand::thread_rng().gen_range(0..n)
}

impl App {
    /// The player as it starts with the given tracks.
    pub fn new(tracks: Vec<Track>) -> (r: App)
        ensures
            r@ == AppView::initial(track_views(tracks@)),
            r@.wf(),
    {
        let filtered = all_indices_vec(tracks.len());
        let r = App {
            tracks,
            filtered,
            cursor: 0,
            playing_index: None,
            shuffle: false,
            repeat: RepeatMode::Off,
            tab: Tab::Tracks,
            radio_index: 0,
            running: true,
            radio_playing: false,
            show_viz: true,
            search_mode: false,
            query: String::new(),
            status_message: None,
        };
        assert(r@ == AppView::initial(track_views(r.tracks@)));
        r
    }

    /// The track that is playing, if any.
    pub fn playing_track(&self) -> (r: Option<&Track>)
        ensures
            match self.playing_index {
                Some(i) => if i < self.tracks@.len() {
                    r == Some(&self.tracks@[i as int])
                } else {
                    r is None
                },
                None => r is None,
            },
    {
        match self.playing_index {
            Some(i) => if i < self.tracks.len() {
                Some(&self.tracks[i])
            } else {
                None
            },
            None => None,
        }
    }

    /// The path of the track that is playing, if any.
    pub fn playing_path(&self) -> (r: Option<String>)
        ensures
            match self.playing_index {
                Some(i) => if i < self.tracks@.len() {
                    r matches Some(p) && p@ == self.tracks@[i as int].path@
                } else {
                    r is None
                },
                None => r is None,
            },
    {
        match self.playing_track() {
            Some(t) => Some(t.path.clone()),
            None => None,
        }
    }

    /// The line shown for the track that is playing, or "No track".
    pub fn playing_name(&self) -> (r: String)
        ensures
            r@ == match self.playing_index {
                Some(i) => if i < self.tracks@.len() {
                    display_spec(self.tracks@[i as int]@)
                } else {
                    "No track"@
                },
                None => "No track"@,
            },
    {
        match self.playing_track() {
            Some(t) => t.display(),
            None => "No track".to_owned(),
        }
    }

    /// The paths of all tracks, in order.
    pub fn all_paths(&self) -> (r: Vec<String>)
        ensures
            r@.len() == self.tracks@.len(),
            forall|i: int| 0 <= i < r@.len() ==> (#[trigger] r@[i])@ == self.tracks@[i].path@,
    {
        let mut r: Vec<String> = Vec::new();
        for i in 0..self.tracks.len()
            invariant
                r@.len() == i,
                forall|j: int| 0 <= j < i ==> (#[trigger] r@[j])@ == self.tracks@[j].path@,
        {
            r.push(self.tracks[i].path.clone());
        }
        r
    }

    /// Recomputes the shown list from the query and keeps the cursor on it.
    pub fn apply_filter(&mut self)
        ensures
            final(self)@ == old(self)@.with_filter(),
            old(self)@.tracks.len() <= usize::MAX && (old(self)@.playing matches Some(i) ==> i
                < old(self)@.tracks.len()) ==> final(self)@.wf(),
    {
        self.filtered = filter_tracks(self.tracks.as_slice(), self.query.as_str());
        if self.cursor >= self.filtered.len() {
            self.cursor = if self.filtered.len() == 0 {
                0
            } else {
                self.filtered.len() - 1
            };
        }
    }

    /// The position in the shown list of the playing track, if shown.
    fn playing_pos(&self) -> (r: Option<usize>)
        ensures
            match r {
                Some(p) => self@.playing_pos() == Some(p as int),
                None => self@.playing_pos() is None,
            },
    {
        match self.playing_index {
            Some(pi) => position_of(self.filtered.as_slice(), pi),
            None => None,
        }
    }

    /// Moves to the next track: position `shuffle_pick` of the shown list in
    /// shuffle mode, else the entry after the playing one, wrapping around.
    pub fn advance_track_with(&mut self, shuffle_pick: usize)
        requires
            old(self).shuffle && old(self).filtered@.len() > 0 ==> shuffle_pick < old(self).filtered@.len(),
        ensures
            final(self)@ == old(self)@.advanced(shuffle_pick as int),
            old(self)@.wf() ==> final(self)@.wf(),
    {
        if self.filtered.len() == 0 {
            return;
        }
        let next = if self.shuffle {
            shuffle_pick
        } else {
            match self.playing_pos() {
                Some(pos) => {
                    proof {
                        lemma_first_index(self@.filtered, self@.playing->0);
                    }
                    (pos + 1) % self.filtered.len()
                },
                None => 0,
            }
        };
        self.playing_index = Some(self.filtered[next]);
        self.cursor = next;
        proof {
            if old(self)@.wf() {
                lemma_filter_sorted(old(self)@.tracks, old(self)@.query);
            }
        }
    }

    /// Moves to the next track: a random shown entry in shuffle mode, else
    /// the entry after the playing one, wrapping around.
    pub fn advance_track(&mut self)
        ensures
            exists|pick: int|
                (old(self).shuffle && old(self).filtered@.len() > 0 ==> 0 <= pick < old(self).filtered@.len()) && final(self)@ == old(self)@.advanced(pick),
            old(self)@.wf() ==> final(self)@.wf(),
    {
        let pick = if self.shuffle && self.filtered.len() > 0 {
            random_below(self.filtered.len())
        } else {
            0
        };
        self.advance_track_with(pick);
    }

    /// Moves to the shown entry before the playing one, wrapping around.
    pub fn retreat_track(&mut self)
        ensures
            final(self)@ == old(self)@.retreated(),
            old(self)@.wf() ==> final(self)@.wf(),
    {
        if self.filtered.len() == 0 {
            return;
        }
        let prev = match self.playing_pos() {
            Some(pos) => {
                proof {
                    lemma_first_index(self@.filtered, self@.playing->0);
                }
                if pos == 0 {
                    self.filtered.len() - 1
                } else {
                    pos - 1
                }
            },
            None => 0,
        };
        self.playing_index = Some(self.filtered[prev]);
        self.cursor = prev;
        proof {
            if old(self)@.wf() {
                lemma_filter_sorted(old(self)@.tracks, old(self)@.query);
            }
        }
    }

    /// Whether a shown entry follows the playing one.
    pub fn has_next(&self) -> (r: bool)
        ensures
            r == self@.has_next(),
    {
        match self.playing_pos() {
            Some(pos) => {
                proof {
                    lemma_first_index(self@.filtered, self@.playing->0);
                }
                let n = self.filtered.len();
                pos + 1 < n
            },
            None => false,
        }
    }

    /// Plays the shown entry under the cursor.
    pub fn play_at_cursor(&mut self)
        ensures
            final(self)@ == old(self)@.played_at_cursor(),
            old(self)@.wf() ==> final(self)@.wf(),
    {
        if self.cursor < self.filtered.len() {
            self.playing_index = Some(self.filtered[self.cursor]);
        }
        proof {
            if old(self)@.wf() {
                lemma_filter_sorted(old(self)@.tracks, old(self)@.query);
            }
        }
    }

    /// Turns shuffle mode on or off.
    pub fn toggle_shuffle(&mut self)
        ensures
            final(self)@ == (AppView { shuffle: !old(self)@.shuffle, ..old(self)@ }),
    {
        self.shuffle = !self.shuffle;
    }

    /// Moves to the next repeat mode.
    pub fn toggle_repeat(&mut self)
        ensures
            final(self)@ == (AppView { repeat: repeat_next_spec(old(self)@.repeat), ..old(self)@ }),
    {
        self.repeat = self.repeat.next();
    }

    /// Shows or hides the visualiser.
    pub fn toggle_viz(&mut self)
        ensures
            final(self)@ == (AppView { show_viz: !old(self)@.show_viz, ..old(self)@ }),
    {
        self.show_viz = !self.show_viz;
    }

    /// Moves the cursor of the current tab one entry up.
    pub fn scroll_up(&mut self)
        ensures
            final(self)@ == old(self)@.scrolled_up(),
            old(self)@.wf() ==> final(self)@.wf(),
    {
        match self.tab {
            Tab::Tracks => {
                if self.cursor > 0 {
                    self.cursor -= 1;
                }
            },
            Tab::Radio => {
                if self.radio_index > 0 {
                    self.radio_index -= 1;
                }
            },
        }
    }

    /// Moves the cursor of the current tab one entry down, within the
    /// shown tracks or the `max_radio` stations.
    pub fn scroll_down(&mut self, max_radio: usize)
        requires
            old(self).tab == Tab::Tracks ==> old(self).cursor < usize::MAX,
            old(self).tab == Tab::Radio ==> old(self).radio_index < usize::MAX,
        ensures
            final(self)@ == old(self)@.scrolled_down(max_radio as nat),
            old(self)@.wf() ==> final(self)@.wf(),
    {
        match self.tab {
            Tab::Tracks => {
                if self.cursor + 1 < self.filtered.len() {
                    self.cursor += 1;
                }
            },
            Tab::Radio => {
                if self.radio_index + 1 < max_radio {
                    self.radio_index += 1;
                }
            },
        }
    }

    /// Switches between the Tracks and Radio tabs.
    pub fn toggle_tab(&mut self)
        ensures
            final(self)@ == old(self)@.tab_toggled(),
    {
        self.tab = match self.tab {
            Tab::Tracks => Tab::Radio,
            Tab::Radio => Tab::Tracks,
        };
    }

    /// Enters search mode.
    pub fn start_search(&mut self)
        ensures
            final(self)@ == (AppView { search_mode: true, ..old(self)@ }),
    {
        self.search_mode = true;
    }

    /// Adds a character to the query and shows what matches it.
    pub fn push_query(&mut self, c: char)
        ensures
            final(self)@ == old(self)@.query_pushed(c),
            old(self)@.wf() ==> final(self)@.wf(),
    {
        push_char(&mut self.query, c);
        self.apply_filter();
    }

    /// Removes the last character of the query and shows what matches.
    pub fn pop_query(&mut self)
        ensures
            final(self)@ == old(self)@.query_popped(),
            old(self)@.wf() ==> final(self)@.wf(),
    {
        pop_char(&mut self.query);
        self.apply_filter();
    }

    /// Leaves search mode; with `clear`, empties the query and shows all
    /// tracks.
    pub fn end_search(&mut self, clear: bool)
        ensures
            final(self)@ == old(self)@.search_ended(clear),
            old(self)@.wf() ==> final(self)@.wf(),
    {
        self.search_mode = false;
        if clear {
            self.query = String::new();
            self.apply_filter();
        }
    }
}

} // verus!
