use chiplay::stream::{read_step, ReadStep, READ_ATTEMPTS};
use chiplay::playback::{seek_backward_target, seek_forward_target, TimePos};
use chiplay::screen::{format_duration, list_title, progress_text, selection, station_line};
use chiplay::spectrum::{latest_window, push_capped, FrameCounter, FFT_SIZE, RING_CAPACITY};
use chiplay::stations::Station;
use chiplay::stream::{ReadCursor, RingData, SeekTarget, KEEP_BEHIND, PREBUFFER};
use chiplay::app::App;
use chiplay::track::Track;
use std::collections::VecDeque;

fn tp(secs: u64, nanos: u32) -> TimePos {
    TimePos { secs, nanos }
}

#[test]
fn stream_read_gives_back_what_arrived() {
    let mut ring = RingData::new();
    let mut cur = ReadCursor { pos: 0 };
    assert!(cur.read(&mut ring, 10).is_none());
    ring.append(&[1, 2, 3, 4, 5]);
    assert_eq!(cur.read(&mut ring, 3), Some(vec![1, 2, 3]));
    assert_eq!(cur.pos, 3);
    assert_eq!(cur.read(&mut ring, 10), Some(vec![4, 5]));
    assert!(cur.read(&mut ring, 10).is_none());
    ring.append(&[6]);
    assert_eq!(cur.read(&mut ring, 10), Some(vec![6]));
    assert!(!ring.is_prebuffered());
}

#[test]
fn stream_keeps_only_recent_history() {
    let mut ring = RingData::new();
    let chunk = vec![7u8; KEEP_BEHIND + 100];
    ring.append(&chunk);
    ring.append(&[9, 8]);
    assert!(ring.is_prebuffered());
    assert!(ring.buf.len() >= PREBUFFER);
    let mut cur = ReadCursor { pos: 0 };
    let got = cur.read(&mut ring, KEEP_BEHIND + 100).unwrap();
    assert_eq!(got.len(), KEEP_BEHIND + 100);
    assert_eq!(ring.base, 100);
    assert_eq!(cur.pos - ring.base, KEEP_BEHIND);
    assert_eq!(cur.read(&mut ring, 5), Some(vec![9, 8]));
    // seeking before what is held stops at the first byte held
    assert_eq!(cur.seek(&ring, SeekTarget::Start(0)), ring.base as u64);
    assert_eq!(cur.seek(&ring, SeekTarget::Current(10)), ring.base as u64 + 10);
    assert_eq!(cur.seek(&ring, SeekTarget::End(-2)), (ring.base + ring.buf.len()) as u64 - 2);
    assert_eq!(cur.read(&mut ring, 5), Some(vec![9, 8]));
    assert_eq!(cur.seek(&ring, SeekTarget::Start(u64::MAX)), ring.base as u64);
}

#[test]
fn seek_steps() {
    assert_eq!(seek_forward_target(tp(10, 5), Some(tp(20, 0)), 5), Some(tp(15, 5)));
    assert_eq!(seek_forward_target(tp(16, 0), Some(tp(20, 0)), 5), None);
    assert_eq!(seek_forward_target(tp(15, 0), Some(tp(20, 0)), 5), None);
    assert_eq!(seek_forward_target(tp(15, 0), None, 5), Some(tp(20, 0)));
    assert_eq!(seek_backward_target(tp(10, 5), 5), tp(5, 5));
    assert_eq!(seek_backward_target(tp(5, 1), 5), tp(0, 1));
    assert_eq!(seek_backward_target(tp(5, 0), 5), tp(0, 0));
    assert_eq!(seek_backward_target(tp(3, 0), 5), TimePos::zero());
    assert!(tp(1, 2).before(&tp(1, 3)));
    assert!(!tp(2, 0).before(&tp(1, 999_999_999)));
}

#[test]
fn screen_texts() {
    assert_eq!(format_duration(0), "00:00");
    assert_eq!(format_duration(72), "01:12");
    assert_eq!(format_duration(195), "03:15");
    assert_eq!(format_duration(6000), "100:00");
    assert_eq!(
        progress_text(false, 72, Some(195), false, 5, 50),
        "▶ 01:12 / 03:15  Vol [█████░░░░░] 50%"
    );
    assert_eq!(progress_text(true, 0, None, true, 10, 100), "⏸ LIVE  Vol [██████████] 100%");
    assert_eq!(progress_text(false, 61, Some(0), false, 12, 0), "▶ 01:01  Vol [████████████] 0%");
    assert_eq!(list_title("Tracks", 14), " Tracks (14) ");
    let s = Station::new("DFM", "u", "Dance");
    assert_eq!(station_line(&s, true), "♪ DFM [Dance]");
    assert_eq!(station_line(&s, false), "  DFM [Dance]");
    assert_eq!(selection(5, 3), Some(2));
    assert_eq!(selection(1, 3), Some(1));
    assert_eq!(selection(0, 0), None);
}

#[test]
fn app_texts() {
    let mut app = App::new(vec![Track { path: "/a".into(), title: "T".into(), artist: Some("A".into()) }]);
    assert_eq!(app.status_line(), "Shuffle: OFF  |  Repeat: Off");
    app.toggle_shuffle();
    app.toggle_repeat();
    assert_eq!(app.status_line(), "Shuffle: ON  |  Repeat: One");
    app.status_message = Some("Saved".into());
    assert_eq!(app.status_line(), "Saved");
    assert_eq!(app.track_line(0), "  A — T");
    app.playing_index = Some(0);
    assert_eq!(app.track_line(0), "♪ A — T");
    assert_eq!(app.now_playing(true, "Jazz"), "A — T");
    app.radio_playing = true;
    assert_eq!(app.track_line(0), "  A — T");
    assert_eq!(app.now_playing(true, "Jazz"), "📻 Jazz");
    assert_eq!(app.now_playing(true, ""), "Radio");
    assert_eq!(app.now_playing(false, "Jazz"), "A — T");
}

#[test]
fn spectrum_bookkeeping() {
    let mut fc = FrameCounter::new(0);
    assert_eq!(fc.channels, 1);
    assert!(fc.step());
    assert!(fc.step());
    let mut fc = FrameCounter::new(2);
    assert!(fc.step());
    assert!(!fc.step());
    assert!(fc.step());
    let mut ring: VecDeque<u32> = VecDeque::new();
    for i in 0..(RING_CAPACITY as u32 + 10) {
        push_capped(&mut ring, i);
    }
    assert_eq!(ring.len(), RING_CAPACITY);
    assert_eq!(ring[0], 10);
    let w = latest_window(&ring).unwrap();
    assert_eq!(w.len(), FFT_SIZE);
    assert_eq!(*w.last().unwrap(), RING_CAPACITY as u32 + 9);
    assert_eq!(w[0], RING_CAPACITY as u32 + 10 - FFT_SIZE as u32);
    let small: VecDeque<u32> = (0..5).collect();
    assert!(latest_window(&small).is_none());
}

#[test]
fn read_waits_a_bounded_number_of_times() {
    assert_eq!(read_step(0, Some(7), false), ReadStep::Deliver(7));
    assert_eq!(read_step(3, None, true), ReadStep::End);
    assert_eq!(read_step(0, None, false), ReadStep::Wait);
    assert_eq!(read_step(READ_ATTEMPTS - 2, None, false), ReadStep::Wait);
    assert_eq!(read_step(READ_ATTEMPTS - 1, None, false), ReadStep::WaitThenEnd);
    assert_eq!(read_step(usize::MAX, None, false), ReadStep::WaitThenEnd);
}
