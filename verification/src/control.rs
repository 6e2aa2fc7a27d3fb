//! The player's main loop as decisions: from the state and what happened
//! (a key, a media-key, the end of a track, the outcome of loading a file
//! or a stream) to the next state and the commands for the audio output,
//! the media controls and the screen.

use vstd::prelude::*;
use vstd::string::StringExecFns;
use crate::app::{repeat_next_spec, App, AppView, RepeatMode, Tab};
use crate::events::AppEvent;

verus! {

/// Seconds that one seek step moves.
pub const SEEK_STEP_SECS: u64 = 5;

/// Work for the outside of the library to carry out.
#[derive(Debug)]
pub enum Command {
    /// Stop the radio stream.
    StopRadio,
    /// Load and play the file; report the outcome to `App::on_track_loaded`.
    LoadTrack(String),
    /// Load and play the file again or next; its outcome is not reported.
    ReplayTrack(String),
    TogglePlayerPause,
    ToggleRadioPause,
    PlayerPlay,
    PlayerPause,
    StopPlayer,
    PlayerVolumeUp,
    PlayerVolumeDown,
    RadioVolumeUp,
    RadioVolumeDown,
    /// Seek forward by the given seconds.
    SeekForward(u64),
    /// Seek backward by the given seconds.
    SeekBackward(u64),
    /// Tell the media controls what is playing.
    SyncMedia,
    /// Tell the media controls that nothing plays.
    MediaStopped,
    /// Draw the screen now.
    Redraw,
    /// Play the station at this index; report the outcome to
    /// `App::on_stream_result`.
    PlayStation(usize),
    /// Play the stream at this URL under the name "Custom"; report the
    /// outcome to `App::on_stream_result`.
    PlayUrl(String),
}

/// A command as plain values.
pub enum CommandView {
    StopRadio,
    LoadTrack(Seq<char>),
    ReplayTrack(Seq<char>),
    TogglePlayerPause,
    ToggleRadioPause,
    PlayerPlay,
    PlayerPause,
    StopPlayer,
    PlayerVolumeUp,
    PlayerVolumeDown,
    RadioVolumeUp,
    RadioVolumeDown,
    SeekForward(u64),
    SeekBackward(u64),
    SyncMedia,
    MediaStopped,
    Redraw,
    PlayStation(usize),
    PlayUrl(Seq<char>),
}

impl View for Command {
    type V = CommandView;

    open spec fn view(&self) -> CommandView {
        match self {
            Command::StopRadio => CommandView::StopRadio,
            Command::LoadTrack(p) => CommandView::LoadTrack(p@),
            Command::ReplayTrack(p) => CommandView::ReplayTrack(p@),
            Command::TogglePlayerPause => CommandView::TogglePlayerPause,
            Command::ToggleRadioPause => CommandView::ToggleRadioPause,
            Command::PlayerPlay => CommandView::PlayerPlay,
            Command::PlayerPause => CommandView::PlayerPause,
            Command::StopPlayer => CommandView::StopPlayer,
            Command::PlayerVolumeUp => CommandView::PlayerVolumeUp,
            Command::PlayerVolumeDown => CommandView::PlayerVolumeDown,
            Command::RadioVolumeUp => CommandView::RadioVolumeUp,
            Command::RadioVolumeDown => CommandView::RadioVolumeDown,
            Command::SeekForward(s) => CommandView::SeekForward(*s),
            Command::SeekBackward(s) => CommandView::SeekBackward(*s),
            Command::SyncMedia => CommandView::SyncMedia,
            Command::MediaStopped => CommandView::MediaStopped,
            Command::Redraw => CommandView::Redraw,
            Command::PlayStation(i) => CommandView::PlayStation(*i),
            Command::PlayUrl(u) => CommandView::PlayUrl(u@),
        }
    }
}

/// The views of a list of commands.
pub open spec fn command_views(s: Seq<Command>) -> Seq<CommandView> {
    s.map_values(|c: Command| c@)
}

/// A media-control event from the desktop.
#[derive(Clone, Copy, PartialEq, Eq, Structural, Debug)]
pub enum MediaEvent {
    Play,
    Pause,
    Toggle,
    Next,
    Previous,
    Stop,
    Other,
}

/// What the media controls should show.
pub enum MediaState {
    /// A track, with its title and artist, playing or paused.
    Track { title: String, artist: Option<String>, playing: bool },
    Stopped,
}

/// The path of the playing track, if any.
pub open spec fn playing_path_spec(v: AppView) -> Option<Seq<char>> {
    match v.playing {
        Some(i) => if i < v.tracks.len() {
            Some(v.tracks[i as int].path)
        } else {
            None
        },
        None => None,
    }
}

/// Loading the playing track: the radio stops and the file is loaded;
/// nothing happens where no track is playing.
pub open spec fn load_spec(v: AppView) -> (AppView, Seq<CommandView>) {
    match playing_path_spec(v) {
        Some(p) => (
            AppView { radio_playing: false, ..v },
            seq![CommandView::StopRadio, CommandView::LoadTrack(p)],
        ),
        None => (v, seq![]),
    }
}

/// The state and commands after an input event, with `station_count`
/// stations and `pick` the shuffled choice where one is needed.
pub open spec fn event_spec(v: AppView, ev: AppEvent, station_count: nat, pick: int) -> (
    AppView,
    Seq<CommandView>,
) {
    match ev {
        AppEvent::Quit => (AppView { running: false, ..v }, seq![]),
        AppEvent::StartSearch => (
            if v.tab == Tab::Tracks {
                AppView { search_mode: true, ..v }
            } else {
                v
            },
            seq![],
        ),
        AppEvent::SearchChar(c) => (v.query_pushed(c), seq![]),
        AppEvent::SearchBackspace => (v.query_popped(), seq![]),
        AppEvent::SearchConfirm => (v.search_ended(false), seq![]),
        AppEvent::SearchCancel => (v.search_ended(true), seq![]),
        AppEvent::TogglePause => (
            v,
            if v.radio_playing {
                seq![CommandView::ToggleRadioPause]
            } else {
                seq![CommandView::TogglePlayerPause, CommandView::SyncMedia]
            },
        ),
        AppEvent::NextTrack => if v.filtered.len() > 0 {
            load_spec(v.advanced(pick))
        } else {
            (v, seq![])
        },
        AppEvent::PrevTrack => if v.filtered.len() > 0 {
            load_spec(v.retreated())
        } else {
            (v, seq![])
        },
        AppEvent::VolumeUp => (
            v,
            if v.radio_playing {
                seq![CommandView::RadioVolumeUp]
            } else {
                seq![CommandView::PlayerVolumeUp]
            },
        ),
        AppEvent::VolumeDown => (
            v,
            if v.radio_playing {
                seq![CommandView::RadioVolumeDown]
            } else {
                seq![CommandView::PlayerVolumeDown]
            },
        ),
        AppEvent::SeekForward => (
            v,
            if v.radio_playing {
                seq![]
            } else {
                seq![CommandView::SeekForward(SEEK_STEP_SECS)]
            },
        ),
        AppEvent::SeekBackward => (
            v,
            if v.radio_playing {
                seq![]
            } else {
                seq![CommandView::SeekBackward(SEEK_STEP_SECS)]
            },
        ),
        AppEvent::ToggleShuffle => (AppView { shuffle: !v.shuffle, ..v }, seq![]),
        AppEvent::ToggleRepeat => (AppView { repeat: repeat_next_spec(v.repeat), ..v }, seq![]),
        AppEvent::SwitchTab => (v.tab_toggled(), seq![]),
        AppEvent::ScrollUp => (v.scrolled_up(), seq![]),
        AppEvent::ScrollDown => (v.scrolled_down(station_count), seq![]),
        AppEvent::Enter => match v.tab {
            Tab::Tracks => load_spec(v.played_at_cursor()),
            Tab::Radio => if v.radio_index < station_count {
                (
                    AppView { radio_playing: true, status: Some("Connecting..."@), ..v },
                    seq![
                        CommandView::StopPlayer,
                        CommandView::Redraw,
                        CommandView::PlayStation(v.radio_index),
                    ],
                )
            } else {
                (v, seq![])
            },
        },
        AppEvent::Idle => (v, seq![]),
    }
}

/// The state and commands when the player has run out of audio while a
/// track was playing (not the radio): the same track again under repeat
/// One; the next track under repeat All, or under repeat Off where one
/// follows; else playback stops. `pick` is the shuffled choice.
pub open spec fn track_end_spec(v: AppView, pick: int) -> (AppView, Seq<CommandView>) {
    let replay = |w: AppView|
        match playing_path_spec(w) {
            Some(p) => seq![CommandView::ReplayTrack(p), CommandView::SyncMedia],
            None => seq![],
        };
    match v.repeat {
        RepeatMode::One => (
            v,
            match playing_path_spec(v) {
                Some(p) => seq![CommandView::ReplayTrack(p)],
                None => seq![],
            },
        ),
        RepeatMode::All => (v.advanced(pick), replay(v.advanced(pick))),
        RepeatMode::Off => if v.has_next() {
            (v.advanced(pick), replay(v.advanced(pick)))
        } else {
            (AppView { playing: None, ..v }, seq![CommandView::MediaStopped])
        },
    }
}

/// The state and commands after a check of the audio output: where a track
/// (not the radio) was playing and the output has run dry, what
/// `track_end_spec` gives; else nothing changes.
pub open spec fn tick_spec(v: AppView, player_empty: bool, pick: int) -> (
    AppView,
    Seq<CommandView>,
) {
    if !v.radio_playing && player_empty && v.playing is Some {
        track_end_spec(v, pick)
    } else {
        (v, seq![])
    }
}

/// The state and commands after a media-control event.
pub open spec fn media_spec(v: AppView, ev: MediaEvent, pick: int) -> (AppView, Seq<CommandView>) {
    match ev {
        MediaEvent::Play => (
            v,
            if v.radio_playing {
                seq![]
            } else {
                seq![CommandView::PlayerPlay, CommandView::SyncMedia]
            },
        ),
        MediaEvent::Pause => (
            v,
            if v.radio_playing {
                seq![]
            } else {
                seq![CommandView::PlayerPause, CommandView::SyncMedia]
            },
        ),
        MediaEvent::Toggle => (
            v,
            if v.radio_playing {
                seq![CommandView::ToggleRadioPause]
            } else {
                seq![CommandView::TogglePlayerPause, CommandView::SyncMedia]
            },
        ),
        MediaEvent::Next => if v.filtered.len() > 0 {
            load_spec(v.advanced(pick))
        } else {
            (v, seq![])
        },
        MediaEvent::Previous => if v.filtered.len() > 0 {
            load_spec(v.retreated())
        } else {
            (v, seq![])
        },
        MediaEvent::Stop => (
            AppView { playing: None, ..v },
            seq![CommandView::StopPlayer, CommandView::MediaStopped],
        ),
        MediaEvent::Other => (v, seq![]),
    }
}

/// Whether handling the event may move to a shuffled track.
pub open spec fn needs_pick(v: AppView) -> bool {
    v.shuffle && v.filtered.len() > 0
}

/// A one-command list.
fn one(c: Command) -> (r: Vec<Command>)
    ensures
        command_views(r@) == seq![c@],
{
    let r = vec![c];
    assert(command_views(r@) == seq![c@]);
    r
}

/// A two-command list.
fn two(a: Command, b: Command) -> (r: Vec<Command>)
    ensures
        command_views(r@) == seq![a@, b@],
{
    let r = vec![a, b];
    assert(command_views(r@) == seq![a@, b@]);
    r
}

/// No commands.
fn none() -> (r: Vec<Command>)
    ensures
        command_views(r@) == Seq::<CommandView>::empty(),
{
    let r: Vec<Command> = Vec::new();
    assert(command_views(r@) == Seq::<CommandView>::empty());
    r
}

/// The message shown for an error: the prefix followed by the error text.
pub fn error_message(prefix: &str, e: &str) -> (r: String)
    ensures
        r@ == prefix@ + e@,
{
    let mut m = prefix.to_owned();
    m.append(e);
    m
}

impl App {
    /// Loads the playing track, if any: the radio stops and the file is
    /// loaded.
    fn load_playing(&mut self) -> (r: Vec<Command>)
        ensures
            (final(self)@, command_views(r@)) == load_spec(old(self)@),
            final(self)@.wf() == old(self)@.wf(),
    {
        match self.playing_path() {
            Some(p) => {
                self.radio_playing = false;
                two(Command::StopRadio, Command::LoadTrack(p))
            },
            None => none(),
        }
    }

    /// Handles an input event, with `station_count` stations listed and
    /// `shuffle_pick` the shown entry to play where shuffle mode moves on.
    pub fn on_event_with(&mut self, ev: AppEvent, station_count: usize, shuffle_pick: usize) -> (r:
        Vec<Command>)
        requires
            needs_pick(old(self)@) ==> shuffle_pick < old(self)@.filtered.len(),
            ev == AppEvent::ScrollDown ==> (old(self).tab == Tab::Tracks ==> old(self).cursor
                < usize::MAX) && (old(self).tab == Tab::Radio ==> old(self).radio_index
                < usize::MAX),
        ensures
            (final(self)@, command_views(r@)) == event_spec(
                old(self)@,
                ev,
                station_count as nat,
                shuffle_pick as int,
            ),
            old(self)@.wf() ==> final(self)@.wf(),
    {
        match ev {
            AppEvent::Quit => {
                self.running = false;
                none()
            },
            AppEvent::StartSearch => {
                if self.tab == Tab::Tracks {
                    self.start_search();
                }
                none()
            },
            AppEvent::SearchChar(c) => {
                self.push_query(c);
                none()
            },
            AppEvent::SearchBackspace => {
                self.pop_query();
                none()
            },
            AppEvent::SearchConfirm => {
                self.end_search(false);
                none()
            },
            AppEvent::SearchCancel => {
                self.end_search(true);
                none()
            },
            AppEvent::TogglePause => {
                if self.radio_playing {
                    one(Command::ToggleRadioPause)
                } else {
                    two(Command::TogglePlayerPause, Command::SyncMedia)
                }
            },
            AppEvent::NextTrack => {
                if self.filtered.len() > 0 {
                    self.advance_track_with(shuffle_pick);
                    self.load_playing()
                } else {
                    none()
                }
            },
            AppEvent::PrevTrack => {
                if self.filtered.len() > 0 {
                    self.retreat_track();
                    self.load_playing()
                } else {
                    none()
                }
            },
            AppEvent::VolumeUp => {
                if self.radio_playing {
                    one(Command::RadioVolumeUp)
                } else {
                    one(Command::PlayerVolumeUp)
                }
            },
            AppEvent::VolumeDown => {
                if self.radio_playing {
                    one(Command::RadioVolumeDown)
                } else {
                    one(Command::PlayerVolumeDown)
                }
            },
            AppEvent::SeekForward => {
                if self.radio_playing {
                    none()
                } else {
                    one(Command::SeekForward(SEEK_STEP_SECS))
                }
            },
            AppEvent::SeekBackward => {
                if self.radio_playing {
                    none()
                } else {
                    one(Command::SeekBackward(SEEK_STEP_SECS))
                }
            },
            AppEvent::ToggleShuffle => {
                self.toggle_shuffle();
                none()
            },
            AppEvent::ToggleRepeat => {
                self.toggle_repeat();
                none()
            },
            AppEvent::SwitchTab => {
                self.toggle_tab();
                none()
            },
            AppEvent::ScrollUp => {
                self.scroll_up();
                none()
            },
            AppEvent::ScrollDown => {
                self.scroll_down(station_count);
                none()
            },
            AppEvent::Enter => match self.tab {
                Tab::Tracks => {
                    self.play_at_cursor();
                    self.load_playing()
                },
                Tab::Radio => {
                    if self.radio_index < station_count {
                        self.radio_playing = true;
                        self.status_message = Some("Connecting...".to_owned());
                        let r = vec![
                            Command::StopPlayer,
                            Command::Redraw,
                            Command::PlayStation(self.radio_index),
                        ];
                        assert(command_views(r@) == seq![
                            CommandView::StopPlayer,
                            CommandView::Redraw,
                            CommandView::PlayStation(self.radio_index),
                        ]);
                        r
                    } else {
                        none()
                    }
                },
            },
            AppEvent::Idle => none(),
        }
    }

    /// Handles an input event, with `station_count` stations listed; in
    /// shuffle mode the next track is a random shown entry.
    pub fn on_event(&mut self, ev: AppEvent, station_count: usize) -> (r: Vec<Command>)
        requires
            ev == AppEvent::ScrollDown ==> (old(self).tab == Tab::Tracks ==> old(self).cursor
                < usize::MAX) && (old(self).tab == Tab::Radio ==> old(self).radio_index
                < usize::MAX),
        ensures
            exists|pick: int|
                (needs_pick(old(self)@) ==> 0 <= pick < old(self)@.filtered.len()) && (
                final(self)@,
                command_views(r@),
            ) == event_spec(old(self)@, ev, station_count as nat, pick),
            old(self)@.wf() ==> final(self)@.wf(),
    {
        let pick = if self.shuffle && self.filtered.len() > 0 {
            crate::app::random_below(self.filtered.len())
        } else {
            0
        };
        self.on_event_with(ev, station_count, pick)
    }
}

/// The view of an outcome that carries an error message.
pub open spec fn outcome_view(r: Result<(), String>) -> Result<(), Seq<char>> {
    match r {
        Ok(()) => Ok(()),
        Err(e) => Err(e@),
    }
}

/// The state and commands once loading the playing track has finished:
/// the error shown where it failed, the message cleared where it worked,
/// and the media controls told.
pub open spec fn loaded_spec(v: AppView, result: Result<(), Seq<char>>) -> (AppView, Seq<CommandView>) {
    (
        AppView {
            status: match result {
                Ok(()) => None,
                Err(e) => Some("Error: "@ + e),
            },
            ..v
        },
        seq![CommandView::SyncMedia],
    )
}

/// The state and commands once starting a stream has finished: on failure
/// the error shown and the radio marked as not playing; a stream chosen
/// from the station list clears the message on success and tells the
/// media controls that no track plays.
pub open spec fn stream_result_spec(v: AppView, result: Result<(), Seq<char>>, from_station: bool) -> (
    AppView,
    Seq<CommandView>,
) {
    (
        match result {
            Ok(()) => if from_station {
                AppView { status: None, ..v }
            } else {
                v
            },
            Err(e) => AppView { status: Some("Radio error: "@ + e), radio_playing: false, ..v },
        },
        if from_station {
            seq![CommandView::MediaStopped]
        } else {
            seq![]
        },
    )
}

/// The state and commands at start-up: the Radio tab where the radio was
/// asked for or a stream URL given, and that stream started.
pub open spec fn startup_spec(v: AppView, radio: bool, radio_url: Option<Seq<char>>) -> (
    AppView,
    Seq<CommandView>,
) {
    let w = if radio || radio_url is Some {
        AppView { tab: Tab::Radio, ..v }
    } else {
        v
    };
    match radio_url {
        Some(u) => (AppView { radio_playing: true, ..w }, seq![CommandView::PlayUrl(u)]),
        None => (w, seq![]),
    }
}

/// The paths to scan for tracks: the current directory where no path, no
/// stream and no radio was asked for, else the paths given.
pub open spec fn scan_roots_spec(paths: Seq<Seq<char>>, radio: bool, has_radio_url: bool) -> Seq<Seq<char>> {
    if paths.len() == 0 && !has_radio_url && !radio {
        seq!["."@]
    } else {
        paths
    }
}

/// The paths to scan for tracks at start-up.
pub fn scan_roots(paths: Vec<String>, radio: bool, has_radio_url: bool) -> (r: Vec<String>)
    ensures
        crate::playlist::string_views(r@) == scan_roots_spec(
            crate::playlist::string_views(paths@),
            radio,
            has_radio_url,
        ),
{
    if paths.len() == 0 && !has_radio_url && !radio {
        let r = vec![".".to_owned()];
        assert(crate::playlist::string_views(r@) == seq!["."@]);
        r
    } else {
        paths
    }
}

impl App {
    /// Takes the outcome of loading the playing track.
    pub fn on_track_loaded(&mut self, result: Result<(), String>) -> (r: Vec<Command>)
        ensures
            (final(self)@, command_views(r@)) == loaded_spec(old(self)@, outcome_view(result)),
            old(self)@.wf() ==> final(self)@.wf(),
    {
        self.status_message = match result {
            Ok(()) => None,
            Err(e) => Some(error_message("Error: ", e.as_str())),
        };
        one(Command::SyncMedia)
    }

    /// Takes the outcome of starting a stream, chosen from the station list
    /// (`from_station`) or given at start-up.
    pub fn on_stream_result(&mut self, result: Result<(), String>, from_station: bool) -> (r: Vec<
        Command,
    >)
        ensures
            (final(self)@, command_views(r@)) == stream_result_spec(
                old(self)@,
                outcome_view(result),
                from_station,
            ),
            old(self)@.wf() ==> final(self)@.wf(),
    {
        match result {
            Ok(()) => {
                if from_station {
                    self.status_message = None;
                }
            },
            Err(e) => {
                self.status_message = Some(error_message("Radio error: ", e.as_str()));
                self.radio_playing = false;
            },
        }
        if from_station {
            one(Command::MediaStopped)
        } else {
            none()
        }
    }

    /// Applies the command-line choices at start-up.
    pub fn on_startup(&mut self, radio: bool, radio_url: Option<String>) -> (r: Vec<Command>)
        ensures
            (final(self)@, command_views(r@)) == startup_spec(
                old(self)@,
                radio,
                crate::track::opt_str_view(radio_url),
            ),
            old(self)@.wf() ==> final(self)@.wf(),
    {
        if radio || radio_url.is_some() {
            self.tab = Tab::Radio;
        }
        match radio_url {
            Some(u) => {
                self.radio_playing = true;
                one(Command::PlayUrl(u))
            },
            None => none(),
        }
    }

    /// A replay of the playing track, followed by a media update where
    /// `sync`; nothing where no track is playing.
    fn replay_playing(&self, sync: bool) -> (r: Vec<Command>)
        ensures
            command_views(r@) == match playing_path_spec(self@) {
                Some(p) => if sync {
                    seq![CommandView::ReplayTrack(p), CommandView::SyncMedia]
                } else {
                    seq![CommandView::ReplayTrack(p)]
                },
                None => seq![],
            },
    {
        match self.playing_path() {
            Some(p) => if sync {
                two(Command::ReplayTrack(p), Command::SyncMedia)
            } else {
                one(Command::ReplayTrack(p))
            },
            None => none(),
        }
    }

    /// Handles a check of the audio output, which has run dry where
    /// `player_empty`; `shuffle_pick` is the shown entry to play where
    /// shuffle mode moves on.
    pub fn on_tick_with(&mut self, player_empty: bool, shuffle_pick: usize) -> (r: Vec<Command>)
        requires
            needs_pick(old(self)@) ==> shuffle_pick < old(self)@.filtered.len(),
        ensures
            (final(self)@, command_views(r@)) == tick_spec(
                old(self)@,
                player_empty,
                shuffle_pick as int,
            ),
            old(self)@.wf() ==> final(self)@.wf(),
    {
        if self.radio_playing || !player_empty || self.playing_index.is_none() {
            return none();
        }
        match self.repeat {
            RepeatMode::One => self.replay_playing(false),
            RepeatMode::All => {
                self.advance_track_with(shuffle_pick);
                self.replay_playing(true)
            },
            RepeatMode::Off => {
                if self.has_next() {
                    self.advance_track_with(shuffle_pick);
                    self.replay_playing(true)
                } else {
                    self.playing_index = None;
                    one(Command::MediaStopped)
                }
            },
        }
    }

    /// Handles a check of the audio output, which has run dry where
    /// `player_empty`; in shuffle mode the next track is a random shown
    /// entry.
    pub fn on_tick(&mut self, player_empty: bool) -> (r: Vec<Command>)
        ensures
            exists|pick: int|
                (needs_pick(old(self)@) ==> 0 <= pick < old(self)@.filtered.len()) && (
                final(self)@,
                command_views(r@),
            ) == tick_spec(old(self)@, player_empty, pick),
            old(self)@.wf() ==> final(self)@.wf(),
    {
        let pick = if self.shuffle && self.filtered.len() > 0 {
            crate::app::random_below(self.filtered.len())
        } else {
            0
        };
        self.on_tick_with(player_empty, pick)
    }

    /// Handles a media-control event; `shuffle_pick` is the shown entry to
    /// play where shuffle mode moves on.
    pub fn on_media_event_with(&mut self, ev: MediaEvent, shuffle_pick: usize) -> (r: Vec<Command>)
        requires
            needs_pick(old(self)@) ==> shuffle_pick < old(self)@.filtered.len(),
        ensures
            (final(self)@, command_views(r@)) == media_spec(old(self)@, ev, shuffle_pick as int),
            old(self)@.wf() ==> final(self)@.wf(),
    {
        match ev {
            MediaEvent::Play => {
                if self.radio_playing {
                    none()
                } else {
                    two(Command::PlayerPlay, Command::SyncMedia)
                }
            },
            MediaEvent::Pause => {
                if self.radio_playing {
                    none()
                } else {
                    two(Command::PlayerPause, Command::SyncMedia)
                }
            },
            MediaEvent::Toggle => {
                if self.radio_playing {
                    one(Command::ToggleRadioPause)
                } else {
                    two(Command::TogglePlayerPause, Command::SyncMedia)
                }
            },
            MediaEvent::Next => {
                if self.filtered.len() > 0 {
                    self.advance_track_with(shuffle_pick);
                    self.load_playing()
                } else {
                    none()
                }
            },
            MediaEvent::Previous => {
                if self.filtered.len() > 0 {
                    self.retreat_track();
                    self.load_playing()
                } else {
                    none()
                }
            },
            MediaEvent::Stop => {
                self.playing_index = None;
                two(Command::StopPlayer, Command::MediaStopped)
            },
            MediaEvent::Other => none(),
        }
    }

    /// Handles a media-control event; in shuffle mode the next track is a
    /// random shown entry.
    pub fn on_media_event(&mut self, ev: MediaEvent) -> (r: Vec<Command>)
        ensures
            exists|pick: int|
                (needs_pick(old(self)@) ==> 0 <= pick < old(self)@.filtered.len()) && (
                final(self)@,
                command_views(r@),
            ) == media_spec(old(self)@, ev, pick),
            old(self)@.wf() ==> final(self)@.wf(),
    {
        let pick = if self.shuffle && self.filtered.len() > 0 {
            crate::app::random_below(self.filtered.len())
        } else {
            0
        };
        self.on_media_event_with(ev, pick)
    }

    /// What the media controls should show, with the player `paused` or not:
    /// the playing track's title and artist, or that nothing plays.
    pub fn media_state(&self, paused: bool) -> (r: MediaState)
        ensures
            match self.playing_index {
                Some(i) if i < self.tracks@.len() => r matches MediaState::Track {
                    title,
                    artist,
                    playing,
                } && title@ == self.tracks@[i as int].title@ && crate::track::opt_str_view(artist)
                    == crate::track::opt_str_view(self.tracks@[i as int].artist) && playing
                    == !paused,
                _ => r is Stopped,
            },
    {
        match self.playing_track() {
            Some(t) => MediaState::Track {
                title: t.title.clone(),
                artist: t.artist.clone(),
                playing: !paused,
            },
            None => MediaState::Stopped,
        }
    }
}

} // verus!
