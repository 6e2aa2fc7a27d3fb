//! Properties of the player state that span several operations.

use vstd::prelude::*;
use crate::app::{
    all_indices, filter_spec, first_index, lemma_filter_sorted, lemma_first_index, matches_query,
    matching_upto, repeat_next_spec, sorted_below, AppView, RepeatMode, Tab,
};
use crate::track::{display_spec, TrackView};
use crate::playlist::{
    audio_exts, entries_from_lines, entry_of_line, is_audio_ext_spec, path_kind_spec,
    playlist_entries_spec, render_spec, PathKind,
};
use crate::paths::{spec_extension, spec_parent};
use crate::text::{ascii_lower, ascii_lower_char, contains_seq, is_ascii_text, lower_spec, is_ws, lemma_split_on_nonempty, lines, split_on, strip_cr, trim, trim_end, trim_start};
use crate::control::{event_spec, tick_spec, track_end_spec, CommandView};
use crate::events::{key_event_spec, AppEvent, Key, KeyInput};
use crate::stream::{read_len, seek_request, seek_result, trimmed, RingView, SeekTarget, KEEP_BEHIND};
use vstd::arithmetic::div_mod::{lemma_mod_self_0, lemma_small_mod};

verus! {

/// In a strictly increasing list, each entry is first found where it stands.
pub proof fn lemma_first_index_sorted(s: Seq<usize>, n: nat, k: int)
    requires
        sorted_below(s, n),
        0 <= k < s.len(),
    ensures
        first_index(s, s[k]) == Some(k),
{
    lemma_first_index(s, s[k]);
    match first_index(s, s[k]) {
        Some(j) => {
            if j < k {
                assert(s[j] < s[k]);
            } else if j > k {
                assert(s[k] < s[j]);
            }
        },
        None => {},
    }
}

/// Cycling the repeat mode three times gives the mode back.
pub proof fn law_repeat_cycle(m: RepeatMode)
    ensures
        repeat_next_spec(repeat_next_spec(repeat_next_spec(m))) == m,
{
}

/// Switching tabs twice gives the state back.
pub proof fn law_tab_toggle_twice(v: AppView)
    ensures
        v.tab_toggled().tab_toggled() == v,
{
}

/// A search shows exactly the tracks that match it, in order and once
/// each; the empty search shows all tracks.
pub proof fn law_search_shows_matches(tracks: Seq<TrackView>, q: Seq<char>, i: usize)
    requires
        tracks.len() <= usize::MAX,
    ensures
        filter_spec(tracks, q).contains(i) <==> (i < tracks.len() && (q.len() == 0
            || matches_query(tracks[i as int], q))),
        sorted_below(filter_spec(tracks, q), tracks.len()),
{
    lemma_filter_sorted(tracks, q);
    if q.len() == 0 {
        if i < tracks.len() {
            assert(all_indices(tracks.len())[i as int] == i);
        }
    } else {
        lemma_matching_contains(tracks, q, tracks.len(), i);
    }
}

/// An index is among the matching ones of the first `n` tracks exactly when
/// it is below `n` and its track matches.
proof fn lemma_matching_contains(tracks: Seq<TrackView>, q: Seq<char>, n: nat, i: usize)
    requires
        n <= tracks.len(),
        n <= usize::MAX,
    ensures
        matching_upto(tracks, q, n).contains(i) <==> (i < n && matches_query(tracks[i as int], q)),
    decreases n,
{
    if n > 0 {
        lemma_matching_contains(tracks, q, (n - 1) as nat, i);
        let prev = matching_upto(tracks, q, (n - 1) as nat);
        if matches_query(tracks[n - 1], q) {
            let cur = prev.push((n - 1) as usize);
            if i == n - 1 {
                assert(cur[prev.len() as int] == i);
            }
            if cur.contains(i) && i != n - 1 {
                let j = choose|j: int| 0 <= j < cur.len() && cur[j] == i;
                assert(j < prev.len());
                assert(prev[j] == i);
            }
            if prev.contains(i) {
                let j = choose|j: int| 0 <= j < prev.len() && prev[j] == i;
                assert(cur[j] == i);
            }
        }
    }
}

/// Leaving a search with `clear` empties the query and shows every track.
pub proof fn law_cleared_search_shows_all(v: AppView)
    ensures
        v.search_ended(true).query.len() == 0,
        v.search_ended(true).filtered == all_indices(v.tracks.len()),
        !v.search_ended(true).search_mode,
{
}

/// Removing the character just typed into the query gives the query and
/// the shown list back.
pub proof fn law_pop_undoes_push(v: AppView, c: char)
    requires
        v.wf(),
    ensures
        v.query_pushed(c).query_popped().query == v.query,
        v.query_pushed(c).query_popped().filtered == v.filtered,
        v.query_pushed(c).query_popped().wf(),
{
    assert(v.query.push(c).drop_last() == v.query);
}

/// The position after `p` in a list of `n` entries, wrapping to the top.
proof fn lemma_next_wraps(p: int, n: int)
    requires
        0 <= p < n,
    ensures
        p + 1 < n ==> (p + 1) % n == p + 1,
        p + 1 == n ==> (p + 1) % n == 0,
{
    if p + 1 < n {
        lemma_small_mod((p + 1) as nat, n as nat);
    } else {
        lemma_mod_self_0(n);
    }
}

/// Outside shuffle mode, going back after going forward returns to the
/// track that was playing, with the cursor on it.
pub proof fn law_retreat_undoes_advance(v: AppView, pick: int)
    requires
        v.wf(),
        !v.shuffle,
        v.playing_pos() is Some,
    ensures
        v.advanced(pick).retreated() == (AppView { cursor: v.playing_pos()->0 as usize, ..v }),
{
    let f = v.filtered;
    let pi = v.playing->0;
    lemma_filter_sorted(v.tracks, v.query);
    lemma_first_index(f, pi);
    let p = v.playing_pos()->0;
    lemma_next_wraps(p, f.len() as int);
    let q = v.next_pos();
    assert(0 <= q < f.len());
    lemma_first_index_sorted(f, v.tracks.len(), q);
    let w = v.advanced(pick);
    assert(w == v.step_to(q));
    assert(w.playing_pos() == Some(q));
    assert(w.prev_pos() == p);
    assert(w.retreated() == w.step_to(p));
}

/// Outside shuffle mode, going forward after going back returns to the
/// track that was playing, with the cursor on it.
pub proof fn law_advance_undoes_retreat(v: AppView, pick: int)
    requires
        v.wf(),
        !v.shuffle,
        v.playing_pos() is Some,
    ensures
        v.retreated().advanced(pick) == (AppView { cursor: v.playing_pos()->0 as usize, ..v }),
{
    let f = v.filtered;
    let pi = v.playing->0;
    lemma_filter_sorted(v.tracks, v.query);
    lemma_first_index(f, pi);
    let p = v.playing_pos()->0;
    let q = v.prev_pos();
    assert(0 <= q < f.len());
    lemma_first_index_sorted(f, v.tracks.len(), q);
    let w = v.retreated();
    assert(w == v.step_to(q));
    assert(w.playing_pos() == Some(q));
    lemma_next_wraps(q, f.len() as int);
    assert(w.next_pos() == p);
    assert(w.advanced(pick) == w.step_to(p));
}

/// Outside shuffle mode, where a shown track follows the playing one,
/// advancing plays that track, without wrapping to the top.
pub proof fn law_advance_follows_list(v: AppView, pick: int)
    requires
        v.wf(),
        !v.shuffle,
        v.has_next(),
    ensures
        v.advanced(pick).playing_pos() == Some(v.playing_pos()->0 + 1),
        v.advanced(pick).playing == Some(v.filtered[v.playing_pos()->0 + 1]),
{
    let f = v.filtered;
    lemma_filter_sorted(v.tracks, v.query);
    lemma_first_index(f, v.playing->0);
    let p = v.playing_pos()->0;
    lemma_next_wraps(p, f.len() as int);
    assert(v.next_pos() == p + 1);
    lemma_first_index_sorted(f, v.tracks.len(), p + 1);
    assert(v.advanced(pick) == v.step_to(p + 1));
}

/// After bytes arrive at the end of the buffer, a reader at the old end
/// gets exactly those bytes, up to what it asks for.
pub proof fn law_read_gives_back_appended(r: RingView, chunk: Seq<u8>, max: nat)
    ensures
        ({
            let after = RingView { base: r.base, bytes: r.bytes + chunk };
            let n = read_len(after, r.end(), max);
            &&& n == if max < chunk.len() {
                max
            } else {
                chunk.len()
            }
            &&& after.bytes.subrange(r.end() - after.base, r.end() - after.base + n) == chunk.take(
                n as int,
            )
        }),
{
    let after = RingView { base: r.base, bytes: r.bytes + chunk };
    let n = read_len(after, r.end(), max);
    assert(after.bytes.subrange(r.bytes.len() as int, (r.bytes.len() + n) as int) == chunk.take(n as int));
}

/// Bytes that arrive keep the offsets of the bytes already held.
pub proof fn law_append_keeps_offsets(r: RingView, chunk: Seq<u8>)
    ensures
        (RingView { base: r.base, bytes: r.bytes + chunk }).agrees_with(r),
        (RingView { base: r.base, bytes: r.bytes + chunk }).end() == r.end() + chunk.len(),
{
}

/// Dropping the bytes far behind a reader at `pos` keeps the offsets and
/// the end of what is held, keeps the reader's byte and what follows it,
/// and leaves at most `KEEP_BEHIND` bytes behind the reader.
pub proof fn law_trim_keeps_offsets(r: RingView, pos: nat)
    requires
        r.base <= pos <= r.end(),
    ensures
        trimmed(r, pos).agrees_with(r),
        trimmed(r, pos).end() == r.end(),
        trimmed(r, pos).base <= pos,
        pos - trimmed(r, pos).base <= KEEP_BEHIND,
{
}

/// Under repeat One, the end of a track plays the same track again.
pub proof fn law_repeat_one_replays(v: AppView, pick: int)
    requires
        v.repeat == RepeatMode::One,
        v.playing matches Some(i) && i < v.tracks.len(),
    ensures
        track_end_spec(v, pick).0 == v,
        track_end_spec(v, pick).1 == seq![
            CommandView::ReplayTrack(v.tracks[v.playing->0 as int].path),
        ],
{
}

/// Under repeat Off, the end of the last shown track stops playback.
pub proof fn law_repeat_off_stops_after_last(v: AppView, pick: int)
    requires
        v.repeat == RepeatMode::Off,
        !v.has_next(),
    ensures
        track_end_spec(v, pick).0.playing is None,
        track_end_spec(v, pick).1 == seq![CommandView::MediaStopped],
{
}

/// Under repeat All, outside shuffle mode, the end of the last shown track
/// starts the first shown track.
pub proof fn law_repeat_all_wraps(v: AppView, pick: int)
    requires
        v.wf(),
        v.repeat == RepeatMode::All,
        !v.shuffle,
        v.playing_pos() == Some(v.filtered.len() - 1),
    ensures
        track_end_spec(v, pick).0.playing == Some(v.filtered[0]),
        track_end_spec(v, pick).0.cursor == 0,
{
    lemma_next_wraps(v.filtered.len() - 1, v.filtered.len() as int);
}

/// While the radio plays, a check of the audio output changes nothing.
pub proof fn law_radio_not_interrupted(v: AppView, player_empty: bool, pick: int)
    requires
        v.radio_playing,
    ensures
        tick_spec(v, player_empty, pick) == (v, Seq::<CommandView>::empty()),
{
}

/// Quitting stops the main loop and changes nothing else.
pub proof fn law_quit_stops(v: AppView, station_count: nat, pick: int)
    ensures
        event_spec(v, AppEvent::Quit, station_count, pick) == (
            AppView { running: false, ..v },
            Seq::<CommandView>::empty(),
        ),
{
}

/// Appending text without the separator extends the last piece.
pub proof fn lemma_split_on_append(s: Seq<char>, t: Seq<char>, sep: char)
    requires
        !t.contains(sep),
    ensures
        split_on(s + t, sep) == split_on(s, sep).update(
            split_on(s, sep).len() - 1,
            split_on(s, sep).last() + t,
        ),
    decreases t.len(),
{
    lemma_split_on_nonempty(s, sep);
    if t.len() == 0 {
        assert(s + t == s);
        assert(split_on(s, sep).last() + t == split_on(s, sep).last());
        assert(split_on(s, sep).update(split_on(s, sep).len() - 1, split_on(s, sep).last())
            == split_on(s, sep));
    } else {
        let t0 = t.drop_last();
        assert(!t0.contains(sep)) by {
            if t0.contains(sep) {
                let j = choose|j: int| 0 <= j < t0.len() && t0[j] == sep;
                assert(t[j] == sep);
            }
        }
        assert(t.last() != sep) by {
            if t.last() == sep {
                assert(t[t.len() - 1] == sep);
            }
        }
        lemma_split_on_append(s, t0, sep);
        let pp = split_on(s, sep);
        let n = pp.len();
        let prev = split_on(s + t0, sep);
        assert(prev == pp.update(n - 1, pp.last() + t0));
        assert(prev.len() == n);
        assert(prev.last() == pp.last() + t0);
        assert((s + t).drop_last() == s + t0);
        assert((s + t).last() == t.last());
        assert(split_on(s + t, sep) == prev.update(n - 1, prev.last().push(t.last())));
        assert(prev.last().push(t.last()) == pp.last() + t);
        assert(prev.update(n - 1, pp.last() + t) == pp.update(n - 1, pp.last() + t));
    }
}

/// The paths that a playlist saves and reads back unchanged: not empty, no
/// white space at either end, absolute, and on one line.
pub open spec fn saveable_path(p: Seq<char>) -> bool {
    &&& p.len() > 0
    &&& trim(p) == p
    &&& p[0] == '/'
    &&& !p.contains('\n')
}

/// The pieces of a saved playlist between its newlines.
proof fn lemma_render_pieces(ps: Seq<Seq<char>>)
    requires
        forall|i: int| 0 <= i < ps.len() ==> saveable_path(#[trigger] ps[i]),
    ensures
        split_on(render_spec(ps), '\n') == seq!["#EXTM3U"@] + ps + seq![Seq::<char>::empty()],
    decreases ps.len(),
{
    reveal_strlit("#EXTM3U\n");
    reveal_strlit("#EXTM3U");
    if ps.len() == 0 {
        let h = "#EXTM3U"@;
        assert(!h.contains('\n')) by {
            if h.contains('\n') {
                let j = choose|j: int| 0 <= j < h.len() && h[j] == '\n';
                assert(0 <= j < 7);
            }
        }
        lemma_split_on_append(Seq::<char>::empty(), h, '\n');
        assert(Seq::<char>::empty() + h == h);
        assert(split_on(Seq::<char>::empty(), '\n') == seq![Seq::<char>::empty()]);
        assert(split_on(h, '\n') == seq![h]);
        assert(render_spec(ps) == h.push('\n'));
        assert(render_spec(ps).drop_last() == h);
    } else {
        let prev = ps.drop_last();
        let p = ps.last();
        assert(forall|i: int| 0 <= i < prev.len() ==> prev[i] == ps[i]);
        lemma_render_pieces(prev);
        assert(saveable_path(ps[ps.len() - 1]));
        let x = render_spec(prev);
        assert(render_spec(ps) == (x + p).push('\n'));
        lemma_split_on_append(x, p, '\n');
        lemma_split_on_nonempty(x, '\n');
        assert(render_spec(ps).drop_last() == x + p);
        assert(seq!["#EXTM3U"@] + ps + seq![Seq::<char>::empty()] == (seq!["#EXTM3U"@] + prev
            + seq![Seq::<char>::empty()]).update(prev.len() + 1 as int, p).push(Seq::<char>::empty()));
    }
}

/// Reading the entries of a list of lines: the header, then saveable paths.
proof fn lemma_entries_of_saved(ps: Seq<Seq<char>>, base: Option<Seq<char>>)
    requires
        forall|i: int| 0 <= i < ps.len() ==> saveable_path(#[trigger] ps[i]),
    ensures
        entries_from_lines(seq!["#EXTM3U"@] + ps, base) == ps,
    decreases ps.len(),
{
    reveal_strlit("#EXTM3U");
    if ps.len() == 0 {
        let h = "#EXTM3U"@;
        assert(seq![h] + ps == seq![h]);
        assert(seq![h].drop_last() == Seq::<Seq<char>>::empty());
        assert(trim_start(h) == h);
        assert(trim_end(h) == h);
        assert(h[0] == '#');
        assert(trim(h) == h);
        assert(entry_of_line(h, base) is None);
        assert(entries_from_lines(seq![h], base) == entries_from_lines(
            Seq::<Seq<char>>::empty(),
            base,
        ));
        assert(ps == Seq::<Seq<char>>::empty());
    } else {
        let prev = ps.drop_last();
        assert(forall|i: int| 0 <= i < prev.len() ==> prev[i] == ps[i]);
        lemma_entries_of_saved(prev, base);
        assert((seq!["#EXTM3U"@] + ps).drop_last() == seq!["#EXTM3U"@] + prev);
        assert(saveable_path(ps[ps.len() - 1]));
        assert((seq!["#EXTM3U"@] + ps).last() == ps.last());
        assert(entry_of_line(ps.last(), base) == Some(ps.last()));
        assert(prev.push(ps.last()) == ps);
    }
}

/// Reading back a saved playlist gives the saved paths, in order, where
/// each is absolute, on one line, not empty and without white space at
/// its ends.
pub proof fn law_playlist_round_trip(playlist_path: Seq<char>, ps: Seq<Seq<char>>)
    requires
        forall|i: int| 0 <= i < ps.len() ==> saveable_path(#[trigger] ps[i]),
    ensures
        playlist_entries_spec(playlist_path, render_spec(ps)) == ps,
{
    reveal_strlit("#EXTM3U");
    lemma_render_pieces(ps);
    let parts = split_on(render_spec(ps), '\n');
    let kept = seq!["#EXTM3U"@] + ps;
    assert(parts.take(parts.len() - 1) == kept);
    assert forall|i: int| 0 <= i < kept.len() implies strip_cr(#[trigger] kept[i]) == kept[i] by {
        if i > 0 {
            assert(kept[i] == ps[i - 1]);
            assert(saveable_path(ps[i - 1]));
            let p = ps[i - 1];
            assert(trim_end(trim_start(p)) == p);
            lemma_trimmed_ends(p);
        }
    }
    assert(kept.map_values(|p: Seq<char>| strip_cr(p)) == kept);
    assert(lines(render_spec(ps)) == kept);
    lemma_entries_of_saved(ps, spec_parent(playlist_path));
}

/// A trimmed, non-empty text ends with a character that is not white space.
proof fn lemma_trimmed_ends(p: Seq<char>)
    requires
        p.len() > 0,
        trim(p) == p,
    ensures
        !is_ws(p.last()),
{
    lemma_trim_end_last(trim_start(p));
}

/// Trimming the end leaves no white space last, and never lengthens.
proof fn lemma_trim_end_last(s: Seq<char>)
    ensures
        trim_end(s).len() > 0 ==> !is_ws(trim_end(s).last()),
        trim_end(s).len() <= s.len(),
    decreases s.len(),
{
    if s.len() > 0 && is_ws(s.last()) {
        lemma_trim_end_last(s.drop_last());
    }
}

/// A text that contains `m` followed by one more character contains `m`.
proof fn lemma_contains_prefix(h: Seq<char>, m: Seq<char>, x: char)
    requires
        contains_seq(h, m.push(x)),
    ensures
        contains_seq(h, m),
{
    let k = choose|k: int|
        0 <= k && k + m.push(x).len() <= h.len() && #[trigger] h.subrange(k, k + m.push(x).len())
            == m.push(x);
    assert(h.subrange(k, k + m.len()) == m.push(x).subrange(0, m.len() as int));
    assert(m.push(x).subrange(0, m.len() as int) == m);
}

/// Typing an ASCII character into an ASCII query never adds matches: the
/// query gains the character, and every track shown afterwards was shown
/// before, still in increasing order.
pub proof fn law_typing_narrows_search(v: AppView, c: char)
    requires
        v.wf(),
        is_ascii_text(v.query),
        (c as u32) < 128,
    ensures
        v.query_pushed(c).query == v.query.push(c),
        forall|i: usize| #[trigger]
            v.query_pushed(c).filtered.contains(i) ==> v.filtered.contains(i),
        sorted_below(v.query_pushed(c).filtered, v.tracks.len()),
{
    let q = v.query;
    let q2 = q.push(c);
    lemma_filter_sorted(v.tracks, q2);
    assert(is_ascii_text(q2)) by {
        assert forall|j: int| 0 <= j < q2.len() implies (#[trigger] q2[j] as u32) < 128 by {
            if j < q.len() {
                assert(q2[j] == q[j]);
            }
        }
    }
    let f = |ch: char| ascii_lower_char(ch);
    assert(lower_spec(q2) == lower_spec(q).push(ascii_lower_char(c))) by {
        assert(q2.map_values(f) == q.map_values(f).push(f(c)));
    }
    assert forall|i: usize| #[trigger]
        v.query_pushed(c).filtered.contains(i) implies v.filtered.contains(i) by {
        law_search_shows_matches(v.tracks, q2, i);
        law_search_shows_matches(v.tracks, q, i);
        if q.len() > 0 {
            let h = lower_spec(display_spec(v.tracks[i as int]));
            lemma_contains_prefix(h, lower_spec(q), ascii_lower_char(c));
        }
    }
}

/// Where the playing track stands at position `p` of the shown list, a
/// shown entry follows it exactly when `p + 1` lies within the list. So,
/// under repeat Off and outside shuffle mode, when the audio output runs
/// dry the entry at `p + 1` plays, with the cursor on it; after the last
/// shown entry playback stops.
pub proof fn law_track_end_plays_next_shown(v: AppView, p: int, pick: int)
    requires
        v.wf(),
        0 <= p < v.filtered.len(),
        v.playing == Some(v.filtered[p]),
    ensures
        v.playing_pos() == Some(p),
        v.has_next() <==> p + 1 < v.filtered.len(),
        !v.radio_playing && v.repeat == RepeatMode::Off && !v.shuffle && p + 1
            < v.filtered.len() ==> tick_spec(v, true, pick) == (
            AppView { playing: Some(v.filtered[p + 1]), cursor: (p + 1) as usize, ..v },
            seq![
                CommandView::ReplayTrack(v.tracks[v.filtered[p + 1] as int].path),
                CommandView::SyncMedia,
            ],
        ),
        !v.radio_playing && v.repeat == RepeatMode::Off && p + 1 == v.filtered.len() ==> tick_spec(
            v,
            true,
            pick,
        ) == (AppView { playing: None, ..v }, seq![CommandView::MediaStopped]),
{
    let f = v.filtered;
    lemma_filter_sorted(v.tracks, v.query);
    lemma_first_index_sorted(f, v.tracks.len(), p);
    lemma_next_wraps(p, f.len() as int);
    if p + 1 < f.len() {
        lemma_first_index_sorted(f, v.tracks.len(), p + 1);
        assert(v.next_pos() == p + 1);
        assert(f[p + 1] < v.tracks.len());
    }
}

/// On the Tracks tab, with the cursor on a shown entry, Enter plays the
/// track that entry shows: it becomes the playing track, the radio stops
/// and that track's file is loaded.
pub proof fn law_enter_plays_entry_under_cursor(v: AppView, station_count: nat, pick: int)
    requires
        v.wf(),
        v.tab == Tab::Tracks,
        v.cursor < v.filtered.len(),
    ensures
        v.played_at_cursor() == (AppView { playing: Some(v.filtered[v.cursor as int]), ..v }),
        event_spec(v, AppEvent::Enter, station_count, pick) == (
            AppView { playing: Some(v.filtered[v.cursor as int]), radio_playing: false, ..v },
            seq![
                CommandView::StopRadio,
                CommandView::LoadTrack(v.tracks[v.filtered[v.cursor as int] as int].path),
            ],
        ),
{
    lemma_filter_sorted(v.tracks, v.query);
    assert(v.filtered[v.cursor as int] < v.tracks.len());
}

/// A seek from the reader's position by `d` asks for that position plus
/// `d`, and leaves the reader there, or at the first byte held where that
/// lies before it; a seek by 0 leaves a reader on held data where it is.
/// A seek from the start to `o` likewise leaves the reader at `o`, or at
/// the first byte held.
pub proof fn law_seek_moves_from_reader(r: RingView, pos: usize, d: i64, o: u64)
    requires
        pos <= i64::MAX,
        r.base <= i64::MAX,
        r.base <= usize::MAX,
        i64::MIN <= pos + d <= i64::MAX,
        pos + d <= usize::MAX,
        o <= i64::MAX,
        o <= usize::MAX,
    ensures
        seek_request(r, pos, SeekTarget::Current(d)) == pos + d,
        seek_result(r, pos, SeekTarget::Current(d)) == if pos + d >= r.base {
            pos + d
        } else {
            r.base as int
        },
        r.base <= pos ==> seek_result(r, pos, SeekTarget::Current(0)) == pos,
        seek_result(r, pos, SeekTarget::Start(o)) == if o >= r.base {
            o as int
        } else {
            r.base as int
        },
{
}

/// Outside a search, a press of `q` or Esc quits, Control held or not;
/// Control-C quits in search mode too; a release does nothing.
pub proof fn law_quit_keys(search_mode: bool, k: KeyInput)
    ensures
        !k.release && (k.key == Key::Char('q') || k.key == Key::Esc) ==> key_event_spec(false, k)
            == AppEvent::Quit,
        !k.release && k.ctrl && k.key == Key::Char('c') ==> key_event_spec(search_mode, k)
            == AppEvent::Quit,
        k.release ==> key_event_spec(search_mode, k) == AppEvent::Idle,
{
}

/// The lower-case ASCII form of a text.
pub open spec fn ascii_lowered(e: Seq<char>) -> Seq<char> {
    e.map_values(|c: char| ascii_lower_char(c))
}

/// An ASCII extension names audio exactly when, in lower case, it is mp3,
/// flac, ogg, wav, m4a or aac.
pub proof fn law_audio_extensions(e: Seq<char>)
    requires
        is_ascii_text(e),
    ensures
        is_audio_ext_spec(Some(e)) <==> {
            let l = ascii_lowered(e);
            ||| l == "mp3"@
            ||| l == "flac"@
            ||| l == "ogg"@
            ||| l == "wav"@
            ||| l == "m4a"@
            ||| l == "aac"@
        },
{
    let l = ascii_lowered(e);
    if audio_exts().contains(l) {
        let j = choose|j: int| 0 <= j < audio_exts().len() && audio_exts()[j] == l;
        assert(0 <= j < 6);
    }
    if l == "mp3"@ { assert(audio_exts()[0] == l); }
    if l == "flac"@ { assert(audio_exts()[1] == l); }
    if l == "ogg"@ { assert(audio_exts()[2] == l); }
    if l == "wav"@ { assert(audio_exts()[3] == l); }
    if l == "m4a"@ { assert(audio_exts()[4] == l); }
    if l == "aac"@ { assert(audio_exts()[5] == l); }
}

/// An existing file whose extension is, in any ASCII case, one of mp3,
/// flac, ogg, wav, m4a and aac is kept as an audio file.
pub proof fn law_audio_file_kept(path: Seq<char>, e: Seq<char>, is_dir: bool)
    requires
        spec_extension(path) == Some(e),
        is_ascii_text(e),
        ({
            let l = ascii_lowered(e);
            ||| l == "mp3"@
            ||| l == "flac"@
            ||| l == "ogg"@
            ||| l == "wav"@
            ||| l == "m4a"@
            ||| l == "aac"@
        }),
    ensures
        is_audio_ext_spec(Some(e)),
        path_kind_spec(path, true, is_dir) == PathKind::Audio,
{
    law_audio_extensions(e);
    let l = ascii_lowered(e);
    reveal_strlit("mp3");
    reveal_strlit("flac");
    reveal_strlit("ogg");
    reveal_strlit("wav");
    reveal_strlit("m4a");
    reveal_strlit("aac");
    reveal_strlit("m3u");
    reveal_strlit("m3u8");
    assert forall|i: int| 0 <= i < e.len() implies ascii_lower(#[trigger] e[i]) == (l[i] as u32) by {
        assert(l[i] == ascii_lower_char(e[i]));
        assert((e[i] as u32) < 128);
    }
    if l.len() == 3 {
        // Every three-letter audio extension differs from `m3u` at its
        // second or third letter.
        assert(l[1] != '3' || l[2] != 'u');
        assert(ascii_lower(e[1]) == l[1] as u32 && ascii_lower(e[2]) == l[2] as u32);
        assert(ascii_lower('3') == '3' as u32 && ascii_lower('u') == 'u' as u32);
    } else {
        // `flac` differs from `m3u8` at its first letter.
        assert(l == "flac"@);
        assert(ascii_lower(e[0]) == l[0] as u32);
        assert(ascii_lower('m') == 'm' as u32);
    }
}

} // verus!
