//! The bookkeeping of the spectrum visualiser: which samples of the
//! interleaved audio are kept, and the bounded history they go into.

use vstd::prelude::*;
use std::collections::VecDeque;

verus! {

/// How many samples the history holds at most.
pub const RING_CAPACITY: usize = 4096;

/// How many of the latest samples one analysis takes.
pub const FFT_SIZE: usize = 2048;

/// Counts the samples of interleaved audio so that one sample per frame
/// (the first channel's) is kept.
pub struct FrameCounter {
    pub channels: u16,
    pub frame_pos: u16,
}

impl FrameCounter {
    /// A counter for audio with `channels` channels (at least one).
    pub fn new(channels: u16) -> (r: FrameCounter)
        ensures
            r.channels == if channels == 0 {
                1
            } else {
                channels
            },
            r.frame_pos == 0,
    {
        FrameCounter { channels: if channels == 0 { 1 } else { channels }, frame_pos: 0 }
    }

    /// Counts one sample; gives whether it is the first of its frame.
    pub fn step(&mut self) -> (keep: bool)
        requires
            old(self).channels > 0,
            old(self).frame_pos < u16::MAX,
        ensures
            keep == (old(self).frame_pos == 0),
            final(self).channels == old(self).channels,
            final(self).frame_pos == (old(self).frame_pos + 1) % (old(self).channels as int),
    {
        let keep = self.frame_pos == 0;
        self.frame_pos = (self.frame_pos + 1) % self.channels;
        keep
    }
}

/// The history after `x` is added: the oldest sample goes first where the
/// history is full.
pub open spec fn pushed_capped<T>(ring: Seq<T>, x: T) -> Seq<T> {
    if ring.len() >= RING_CAPACITY {
        ring.drop_first().push(x)
    } else {
        ring.push(x)
    }
}

/// Adds a sample to the history, dropping the oldest where it is full.
pub fn push_capped<T>(ring: &mut VecDeque<T>, x: T)
    ensures
        final(ring)@ == pushed_capped(old(ring)@, x),
        old(ring)@.len() <= RING_CAPACITY ==> final(ring)@.len() <= RING_CAPACITY,
{
    if ring.len() >= RING_CAPACITY {
        ring.pop_front();
    }
    ring.push_back(x);
}

/// The latest `FFT_SIZE` samples of the history, oldest first; none where
/// fewer have been kept.
pub fn latest_window<T: Copy>(ring: &VecDeque<T>) -> (r: Option<Vec<T>>)
    ensures
        match r {
            Some(w) => ring@.len() >= FFT_SIZE && w@ == ring@.subrange(
                ring@.len() - FFT_SIZE,
                ring@.len() as int,
            ),
            None => ring@.len() < FFT_SIZE,
        },
{
    let len = ring.len();
    if len < FFT_SIZE {
        return None;
    }
    let start = len - FFT_SIZE;
    let mut w: Vec<T> = Vec::new();
    let mut i = start;
    while i < len
        invariant
            start <= i <= len,
            len == ring@.len(),
            w@ == ring@.subrange(start as int, i as int),
        decreases len - i,
    {
        w.push(ring[i]);
        assert(ring@.subrange(start as int, i + 1) == ring@.subrange(start as int, i as int).push(
            ring@[i as int],
        ));
        i += 1;
    }
    Some(w)
}

} // verus!
