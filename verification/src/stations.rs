//! Radio stations: the built-in list and the user's custom stations file.

use vstd::prelude::*;
use crate::paths::{join, join_spec};
use crate::track::opt_str_view;
use crate::text::{ranges_match, lines, split_on, split_ranges, trim, trim_range, line_ranges, string_of, chars_of};

verus! {

/// An internet radio station.
pub struct Station {
    pub name: String,
    pub url: String,
    pub genre: String,
}

/// A station as plain character sequences.
pub struct StationView {
    pub name: Seq<char>,
    pub url: Seq<char>,
    pub genre: Seq<char>,
}

impl View for Station {
    type V = StationView;

    open spec fn view(&self) -> StationView {
        StationView { name: self.name@, url: self.url@, genre: self.genre@ }
    }
}

impl Station {
    /// A station with the given name, stream URL and genre.
    pub fn new(name: &str, url: &str, genre: &str) -> (s: Station)
        ensures
            s@ == (StationView { name: name@, url: url@, genre: genre@ }),
    {
        Station { name: name.to_owned(), url: url.to_owned(), genre: genre.to_owned() }
    }
}

/// The views of a list of stations.
pub open spec fn station_views(v: Seq<Station>) -> Seq<StationView> {
    v.map_values(|s: Station| s@)
}

/// A station view from its three fields.
pub open spec fn sv(name: Seq<char>, url: Seq<char>, genre: Seq<char>) -> StationView {
    StationView { name, url, genre }
}

/// The stations that come with the player.
pub open spec fn builtin_spec() -> Seq<StationView> {
    seq![
        sv("Европа Плюс"@, "https://ep128.hostingradio.ru:8030/ep128"@, "Pop"@),
        sv("Record"@, "https://radiorecord.hostingradio.ru/rr_main96.aacp"@, "Dance"@),
        sv("Русское Радио"@, "https://rusradio.hostingradio.ru/rusradio128.mp3"@, "Pop"@),
        sv("DFM"@, "https://dfm.hostingradio.ru/dfm96.aacp"@, "Dance"@),
        sv("Maximum"@, "https://maximum.hostingradio.ru/maximum128.mp3"@, "Rock"@),
        sv("Наше Радио"@, "https://nashe2.hostingradio.ru/nashe-128.mp3"@, "Rock"@),
        sv("Jazz FM"@, "https://jazz-wr04.ice.infomaniak.ch/jazz-wr04-128.mp3"@, "Jazz"@),
        sv("FIP (France)"@, "https://icecast.radiofrance.fr/fip-midfi.mp3"@, "Eclectic"@),
        sv("Radio Paradise"@, "https://stream.radioparadise.com/aac-128"@, "Mix"@),
    ]
}

/// The built-in stations.
pub fn builtin() -> (r: Vec<Station>)
    ensures
        station_views(r@) == builtin_spec(),
{
    let r = vec![
        Station::new("Европа Плюс", "https://ep128.hostingradio.ru:8030/ep128", "Pop"),
        Station::new("Record", "https://radiorecord.hostingradio.ru/rr_main96.aacp", "Dance"),
        Station::new("Русское Радио", "https://rusradio.hostingradio.ru/rusradio128.mp3", "Pop"),
        Station::new("DFM", "https://dfm.hostingradio.ru/dfm96.aacp", "Dance"),
        Station::new("Maximum", "https://maximum.hostingradio.ru/maximum128.mp3", "Rock"),
        Station::new("Наше Радио", "https://nashe2.hostingradio.ru/nashe-128.mp3", "Rock"),
        Station::new("Jazz FM", "https://jazz-wr04.ice.infomaniak.ch/jazz-wr04-128.mp3", "Jazz"),
        Station::new("FIP (France)", "https://icecast.radiofrance.fr/fip-midfi.mp3", "Eclectic"),
        Station::new("Radio Paradise", "https://stream.radioparadise.com/aac-128", "Mix"),
    ];
    assert(station_views(r@) == builtin_spec());
    r
}

/// The station that one line of the custom stations file describes, if
/// any: `Name | URL` or `Name | URL | Genre`, each field trimmed; the genre
/// is "Custom" where it is missing or empty, and a line with an empty URL,
/// a single field, a `#` at its start or nothing but white space describes
/// no station.
pub open spec fn station_from_line(line: Seq<char>) -> Option<StationView> {
    let t = trim(line);
    if t.len() == 0 || t[0] == '#' {
        None
    } else {
        let parts = split_on(t, '|').map_values(|p: Seq<char>| trim(p));
        if parts.len() == 2 && parts[1].len() > 0 {
            Some(sv(parts[0], parts[1], "Custom"@))
        } else if parts.len() >= 3 && parts[1].len() > 0 {
            Some(sv(parts[0], parts[1], if parts[2].len() == 0 { "Custom"@ } else { parts[2] }))
        } else {
            None
        }
    }
}

/// The stations that a sequence of lines describes, in order.
pub open spec fn stations_from_lines(ls: Seq<Seq<char>>) -> Seq<StationView>
    decreases ls.len(),
{
    if ls.len() == 0 {
        seq![]
    } else {
        let prev = stations_from_lines(ls.drop_last());
        match station_from_line(ls.last()) {
            Some(s) => prev.push(s),
            None => prev,
        }
    }
}

/// The stations that the text of a custom stations file describes.
pub open spec fn custom_spec(content: Seq<char>) -> Seq<StationView> {
    stations_from_lines(lines(content))
}

/// The view of an optional station.
pub open spec fn opt_station_view(o: Option<Station>) -> Option<StationView> {
    match o {
        Some(s) => Some(s@),
        None => None,
    }
}

/// The station that the line `v[lo..hi]` describes.
fn station_from_range(v: &[char], lo: usize, hi: usize) -> (r: Option<Station>)
    requires
        lo <= hi <= v@.len(),
    ensures
        opt_station_view(r) == station_from_line(v@.subrange(lo as int, hi as int)),
{
    let ghost line = v@.subrange(lo as int, hi as int);
    let (a, b) = trim_range(v, lo, hi);
    if a == b || v[a] == '#' {
        return None;
    }
    let ghost t = v@.subrange(a as int, b as int);
    assert(t == trim(line));
    assert(t[0] == v@[a as int]);
    let parts = split_ranges(v, a, b, '|');
    let ghost trimmed = split_on(t, '|').map_values(|p: Seq<char>| trim(p));
    assert(trimmed.len() == parts@.len());
    if parts.len() < 2 {
        return None;
    }
    let (n0, n1) = trim_range(v, parts[0].0, parts[0].1);
    let (u0, u1) = trim_range(v, parts[1].0, parts[1].1);
    assert(v@.subrange(n0 as int, n1 as int) == trimmed[0]);
    assert(v@.subrange(u0 as int, u1 as int) == trimmed[1]);
    if u0 == u1 {
        return None;
    }
    let name = string_of(v, n0, n1);
    let url = string_of(v, u0, u1);
    if parts.len() == 2 {
        return Some(Station { name, url, genre: "Custom".to_owned() });
    }
    let (g0, g1) = trim_range(v, parts[2].0, parts[2].1);
    assert(v@.subrange(g0 as int, g1 as int) == trimmed[2]);
    let genre = if g0 == g1 {
        "Custom".to_owned()
    } else {
        string_of(v, g0, g1)
    };
    Some(Station { name, url, genre })
}

/// The stations described by the text of a custom stations file, one per
/// line in the form `Name | URL | Genre` (genre optional); blank lines and
/// lines that start with `#` are skipped.
pub fn parse_custom(content: &str) -> (r: Vec<Station>)
    ensures
        station_views(r@) == custom_spec(content@),
{
    let v = chars_of(content);
    let ls = line_ranges(v.as_slice());
    let ghost all = lines(v@);
    let mut r: Vec<Station> = Vec::new();
    let mut k: usize = 0;
    while k < ls.len()
        invariant
            v@ == content@,
            all == lines(v@),
            ranges_match(v@, ls@, all),
            k <= ls@.len(),
            station_views(r@) == stations_from_lines(all.take(k as int)),
        decreases ls@.len() - k,
    {
        let (a, b) = ls[k];
        assert(ls@[k as int] == (a, b));
        let st = station_from_range(v.as_slice(), a, b);
        assert(all.take(k + 1).drop_last() == all.take(k as int));
        assert(all.take(k + 1).last() == all[k as int]);
        match st {
            Some(s) => {
                r.push(s);
                assert(station_views(r@) == station_views(r@.drop_last()).push(r@.last()@));
            },
            None => {},
        }
        k += 1;
    }
    assert(all.take(k as int) == all);
    r
}

/// All stations: the built-in ones, followed by those of the custom
/// stations file where its text could be read.
pub fn builtin_stations(custom_config: Option<&str>) -> (r: Vec<Station>)
    ensures
        station_views(r@) == builtin_spec() + match custom_config {
            Some(c) => custom_spec(c@),
            None => seq![],
        },
{
    let mut all = builtin();
    match custom_config {
        Some(c) => {
            let mut extra = parse_custom(c);
            let ghost a = all@;
            let ghost e = extra@;
            all.append(&mut extra);
            assert(station_views(all@) == station_views(a) + station_views(e));
        },
        None => {
            assert(builtin_spec() + seq![] == builtin_spec());
        },
    }
    all
}

/// The path of the custom stations file, from the `XDG_CONFIG_HOME` and
/// `HOME` settings: `chiplay/stations.txt` under the first, else under
/// `.config` in the second; none where neither is set.
pub open spec fn config_path_spec(xdg_config_home: Option<Seq<char>>, home: Option<Seq<char>>) -> Option<
    Seq<char>,
> {
    let base = match xdg_config_home {
        Some(x) => Some(x),
        None => match home {
            Some(h) => Some(join_spec(h, ".config"@)),
            None => None,
        },
    };
    match base {
        Some(b) => Some(join_spec(join_spec(b, "chiplay"@), "stations.txt"@)),
        None => None,
    }
}

/// Path to the user's custom stations file, given the values of the
/// `XDG_CONFIG_HOME` and `HOME` environment variables.
pub fn config_path(xdg_config_home: Option<String>, home: Option<String>) -> (r: Option<String>)
    ensures
        opt_str_view(r) == config_path_spec(opt_str_view(xdg_config_home), opt_str_view(home)),
{
    let base = match xdg_config_home {
        Some(x) => x,
        None => match home {
            Some(h) => join(h.as_str(), ".config"),
            None => return None,
        },
    };
    let dir = join(base.as_str(), "chiplay");
    Some(join(dir.as_str(), "stations.txt"))
}

} // verus!
