//! The player's input events and the key bindings that produce them.

use vstd::prelude::*;

verus! {

/// What the user asked for.
#[derive(Clone, Copy, PartialEq, Eq, Structural, Debug)]
pub enum AppEvent {
    TogglePause,
    NextTrack,
    PrevTrack,
    VolumeUp,
    VolumeDown,
    SeekForward,
    SeekBackward,
    ToggleShuffle,
    ToggleRepeat,
    SwitchTab,
    Enter,
    ScrollUp,
    ScrollDown,
    StartSearch,
    SearchChar(char),
    SearchBackspace,
    SearchConfirm,
    SearchCancel,
    Quit,
    Idle,
}

/// The key of a key event.
#[derive(Clone, Copy, PartialEq, Eq, Structural, Debug)]
pub enum Key {
    Char(char),
    Enter,
    Esc,
    Backspace,
    Tab,
    Left,
    Right,
    Up,
    Down,
    Other,
}

/// A key event from the terminal: the key, whether Control was held, and
/// whether the key was released rather than pressed.
#[derive(Clone, Copy, PartialEq, Eq, Structural, Debug)]
pub struct KeyInput {
    pub key: Key,
    pub ctrl: bool,
    pub release: bool,
}

/// The event a key gives while a search is being typed.
pub open spec fn search_key_spec(key: Key) -> AppEvent {
    match key {
        Key::Enter => AppEvent::SearchConfirm,
        Key::Esc => AppEvent::SearchCancel,
        Key::Backspace => AppEvent::SearchBackspace,
        Key::Char(c) => AppEvent::SearchChar(c),
        _ => AppEvent::Idle,
    }
}

/// The event a key gives outside a search.
pub open spec fn normal_key_spec(key: Key) -> AppEvent {
    match key {
        Key::Char(c) => if c == ' ' {
            AppEvent::TogglePause
        } else if c == 'n' {
            AppEvent::NextTrack
        } else if c == 'p' {
            AppEvent::PrevTrack
        } else if c == '+' || c == '=' {
            AppEvent::VolumeUp
        } else if c == '-' || c == '_' {
            AppEvent::VolumeDown
        } else if c == 'h' {
            AppEvent::SeekBackward
        } else if c == 'l' {
            AppEvent::SeekForward
        } else if c == 's' {
            AppEvent::ToggleShuffle
        } else if c == 'r' {
            AppEvent::ToggleRepeat
        } else if c == '/' {
            AppEvent::StartSearch
        } else if c == 'k' {
            AppEvent::ScrollUp
        } else if c == 'j' {
            AppEvent::ScrollDown
        } else if c == 'q' {
            AppEvent::Quit
        } else {
            AppEvent::Idle
        },
        Key::Left => AppEvent::SeekBackward,
        Key::Right => AppEvent::SeekForward,
        Key::Tab => AppEvent::SwitchTab,
        Key::Enter => AppEvent::Enter,
        Key::Up => AppEvent::ScrollUp,
        Key::Down => AppEvent::ScrollDown,
        Key::Esc => AppEvent::Quit,
        _ => AppEvent::Idle,
    }
}

/// The event a key event gives: nothing for a release, Quit for Ctrl-C,
/// else the binding of the key in search mode or outside it.
pub open spec fn key_event_spec(search_mode: bool, k: KeyInput) -> AppEvent {
    if k.release {
        AppEvent::Idle
    } else if k.ctrl && k.key == Key::Char('c') {
        AppEvent::Quit
    } else if search_mode {
        search_key_spec(k.key)
    } else {
        normal_key_spec(k.key)
    }
}

/// The event that a key event gives.
pub fn key_event(search_mode: bool, k: KeyInput) -> (r: AppEvent)
    ensures
        r == key_event_spec(search_mode, k),
{
    if k.release {
        return AppEvent::Idle;
    }
    if k.ctrl && k.key == Key::Char('c') {
        return AppEvent::Quit;
    }
    if search_mode {
        return match k.key {
            Key::Enter => AppEvent::SearchConfirm,
            Key::Esc => AppEvent::SearchCancel,
            Key::Backspace => AppEvent::SearchBackspace,
            Key::Char(c) => AppEvent::SearchChar(c),
            _ => AppEvent::Idle,
        };
    }
    match k.key {
        Key::Char(' ') => AppEvent::TogglePause,
        Key::Char('n') => AppEvent::NextTrack,
        Key::Char('p') => AppEvent::PrevTrack,
        Key::Char('+') | Key::Char('=') => AppEvent::VolumeUp,
        Key::Char('-') | Key::Char('_') => AppEvent::VolumeDown,
        Key::Left | Key::Char('h') => AppEvent::SeekBackward,
        Key::Right | Key::Char('l') => AppEvent::SeekForward,
        Key::Char('s') => AppEvent::ToggleShuffle,
        Key::Char('r') => AppEvent::ToggleRepeat,
        Key::Char('/') => AppEvent::StartSearch,
        Key::Tab => AppEvent::SwitchTab,
        Key::Enter => AppEvent::Enter,
        Key::Up | Key::Char('k') => AppEvent::ScrollUp,
        Key::Down | Key::Char('j') => AppEvent::ScrollDown,
        Key::Char('q') | Key::Esc => AppEvent::Quit,
        _ => AppEvent::Idle,
    }
}

} // verus!
