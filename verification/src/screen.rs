//! The text that the screen shows: times, the progress line, the status
//! bar, list entries and titles.

use vstd::prelude::*;
use vstd::string::StringExecFns;
use crate::app::{repeat_label_spec, App};
use crate::stations::Station;
use crate::text::push_char;
use crate::track::display_spec;

verus! {

/// The character of a decimal digit.
pub open spec fn digit_char(d: nat) -> char {
    ((48 + d) as u8) as char
}

/// The decimal digits of `n`, without leading zeros.
pub open spec fn decimal(n: nat) -> Seq<char>
    decreases n,
{
    if n < 10 {
        seq![digit_char(n)]
    } else {
        decimal(n / 10).push(digit_char(n % 10))
    }
}

/// The decimal digits of `n`, with a leading zero below 10 (`{:02}`).
pub open spec fn pad2(n: nat) -> Seq<char> {
    if n < 10 {
        seq!['0'] + decimal(n)
    } else {
        decimal(n)
    }
}

/// A time in whole seconds as minutes and seconds, `MM:SS`.
pub open spec fn clock_spec(secs: nat) -> Seq<char> {
    pad2(secs / 60) + seq![':'] + pad2(secs % 60)
}

/// Appends the decimal digits of `n`.
pub fn push_decimal(s: &mut String, n: u64)
    ensures
        final(s)@ == old(s)@ + decimal(n as nat),
    decreases n,
{
    if n >= 10 {
        push_decimal(s, n / 10);
    }
    let d: u8 = (n % 10) as u8;
    push_char(s, (48u8 + d) as char);
    assert(digit_char((n % 10) as nat) == ((48u8 + d) as char));
}

/// Appends `n` with at least two digits.
fn push_pad2(s: &mut String, n: u64)
    ensures
        final(s)@ == old(s)@ + pad2(n as nat),
{
    if n < 10 {
        push_char(s, '0');
    }
    push_decimal(s, n);
}

/// A time in whole seconds as `MM:SS`.
pub fn format_duration(secs: u64) -> (r: String)
    ensures
        r@ == clock_spec(secs as nat),
{
    let mut s = String::new();
    push_pad2(&mut s, secs / 60);
    push_char(&mut s, ':');
    push_pad2(&mut s, secs % 60);
    s
}

/// `n` copies of `c`.
pub open spec fn repeat_char(c: char, n: nat) -> Seq<char> {
    Seq::new(n, |i: int| c)
}

/// Appends `n` copies of `c`.
fn push_repeat(s: &mut String, c: char, n: usize)
    ensures
        final(s)@ == old(s)@ + repeat_char(c, n as nat),
{
    let ghost start = s@;
    let mut i: usize = 0;
    while i < n
        invariant
            i <= n,
            s@ == start + repeat_char(c, i as nat),
        decreases n - i,
    {
        push_char(s, c);
        assert(repeat_char(c, (i + 1) as nat) == repeat_char(c, i as nat).push(c));
        i += 1;
    }
}

/// The volume meter: `bars` full cells, then empty cells up to ten.
pub open spec fn meter_spec(bars: nat) -> Seq<char> {
    repeat_char('█', bars) + repeat_char('░', if bars < 10 { (10 - bars) as nat } else { 0 })
}

/// The time part of the progress line: position and length where the
/// length is known and not zero, `LIVE` for the radio, else the position.
pub open spec fn time_part(pos_secs: nat, dur_secs: Option<u64>, radio: bool) -> Seq<char> {
    match dur_secs {
        Some(d) if d > 0 => clock_spec(pos_secs) + " / "@ + clock_spec(d as nat),
        _ => if radio {
            "LIVE"@
        } else {
            clock_spec(pos_secs)
        },
    }
}

/// The progress line: the pause or play symbol, the time part, and the
/// volume meter with the volume in percent.
pub open spec fn progress_spec(
    paused: bool,
    pos_secs: nat,
    dur_secs: Option<u64>,
    radio: bool,
    vol_bars: nat,
    vol_pct: nat,
) -> Seq<char> {
    (if paused { "⏸"@ } else { "▶"@ }) + " "@ + time_part(pos_secs, dur_secs, radio) + "  Vol ["@
        + meter_spec(vol_bars) + "] "@ + decimal(vol_pct) + "%"@
}

/// The progress line for the given state; the volume comes as the number
/// of meter cells and the percentage, already rounded.
pub fn progress_text(
    paused: bool,
    pos_secs: u64,
    dur_secs: Option<u64>,
    radio: bool,
    vol_bars: usize,
    vol_pct: u32,
) -> (r: String)
    ensures
        r@ == progress_spec(
            paused,
            pos_secs as nat,
            dur_secs,
            radio,
            vol_bars as nat,
            vol_pct as nat,
        ),
{
    let mut s = if paused {
        "⏸".to_owned()
    } else {
        "▶".to_owned()
    };
    s.append(" ");
    match dur_secs {
        Some(d) if d > 0 => {
            s.append(format_duration(pos_secs).as_str());
            s.append(" / ");
            s.append(format_duration(d).as_str());
        },
        _ => if radio {
            s.append("LIVE");
        } else {
            s.append(format_duration(pos_secs).as_str());
        },
    }
    s.append("  Vol [");
    push_repeat(&mut s, '█', vol_bars);
    push_repeat(&mut s, '░', if vol_bars < 10 { 10 - vol_bars } else { 0 });
    s.append("] ");
    push_decimal(&mut s, vol_pct as u64);
    s.append("%");
    s
}

/// The text of a list's title: ` Label (N) `.
pub open spec fn list_title_spec(label: Seq<char>, n: nat) -> Seq<char> {
    " "@ + label + " ("@ + decimal(n) + ") "@
}

/// The title of a list of `n` entries.
pub fn list_title(label: &str, n: usize) -> (r: String)
    ensures
        r@ == list_title_spec(label@, n as nat),
{
    let mut s = " ".to_owned();
    s.append(label);
    s.append(" (");
    push_decimal(&mut s, n as u64);
    s.append(") ");
    s
}

/// The mark in front of a list entry: a note for the one playing.
pub open spec fn prefix_spec(playing: bool) -> Seq<char> {
    if playing {
        "♪ "@
    } else {
        "  "@
    }
}

/// The line for a station in the Radio list: the mark, its name and its
/// genre in brackets.
pub fn station_line(s: &Station, playing: bool) -> (r: String)
    ensures
        r@ == prefix_spec(playing) + s.name@ + " ["@ + s.genre@ + "]"@,
{
    let mut out = if playing {
        "♪ ".to_owned()
    } else {
        "  ".to_owned()
    };
    out.append(s.name.as_str());
    out.append(" [");
    out.append(s.genre.as_str());
    out.append("]");
    out
}

/// The entry of a list of `len` entries that is highlighted for the cursor:
/// none in an empty list, else the cursor's, kept within the list.
pub open spec fn selection_spec(cursor: usize, len: usize) -> Option<usize> {
    if len == 0 {
        None
    } else if cursor < len - 1 {
        Some(cursor)
    } else {
        Some((len - 1) as usize)
    }
}

/// The entry highlighted for the cursor in a list of `len` entries.
pub fn selection(cursor: usize, len: usize) -> (r: Option<usize>)
    ensures
        r == selection_spec(cursor, len),
{
    if len == 0 {
        None
    } else if cursor < len - 1 {
        Some(cursor)
    } else {
        Some(len - 1)
    }
}

impl App {
    /// The line for track `i` in the Tracks list: the mark where it is the
    /// track playing (and not the radio), then its shown name.
    pub fn track_line(&self, i: usize) -> (r: String)
        requires
            i < self.tracks@.len(),
        ensures
            r@ == prefix_spec(self.playing_index == Some(i) && !self.radio_playing)
                + display_spec(self.tracks@[i as int]@),
    {
        let playing = self.playing_index == Some(i) && !self.radio_playing;
        let mut out = if playing {
            "♪ ".to_owned()
        } else {
            "  ".to_owned()
        };
        out.append(self.tracks[i].display().as_str());
        out
    }

    /// The name in the title of the progress bar: the station where the
    /// radio is playing (`radio_active`), "Radio" for a station without a
    /// name, else the playing track's line.
    pub fn now_playing(&self, radio_active: bool, station_name: &str) -> (r: String)
        ensures
            r@ == if self.radio_playing && radio_active {
                if station_name@.len() == 0 {
                    "Radio"@
                } else {
                    "📻 "@ + station_name@
                }
            } else {
                match self.playing_index {
                    Some(i) => if i < self.tracks@.len() {
                        display_spec(self.tracks@[i as int]@)
                    } else {
                        "No track"@
                    },
                    None => "No track"@,
                }
            },
    {
        if self.radio_playing && radio_active {
            if station_name.is_empty() {
                "Radio".to_owned()
            } else {
                let mut s = "📻 ".to_owned();
                s.append(station_name);
                s
            }
        } else {
            self.playing_name()
        }
    }

    /// The status bar: the message where there is one, else the shuffle
    /// and repeat modes.
    pub fn status_line(&self) -> (r: String)
        ensures
            r@ == match self.status_message {
                Some(m) => m@,
                None => "Shuffle: "@ + (if self.shuffle { "ON"@ } else { "OFF"@ })
                    + "  |  Repeat: "@ + repeat_label_spec(self.repeat),
            },
    {
        match &self.status_message {
            Some(m) => m.clone(),
            None => {
                let mut s = "Shuffle: ".to_owned();
                s.append(if self.shuffle { "ON" } else { "OFF" });
                s.append("  |  Repeat: ");
                s.append(self.repeat.label());
                s
            },
        }
    }
}

} // verus!
