//! Positions in a track and the seek steps between them.

use vstd::prelude::*;

verus! {

/// A point in a track: whole seconds and the nanoseconds past them, as a
/// `std::time::Duration` holds it.
#[derive(Clone, Copy, PartialEq, Eq, Structural, Debug)]
pub struct TimePos {
    pub secs: u64,
    pub nanos: u32,
}

/// The nanoseconds in a second.
pub const NANOS_PER_SEC: u32 = 1_000_000_000;

impl TimePos {
    /// The point as nanoseconds from the start.
    pub open spec fn total_nanos(self) -> int {
        self.secs * 1_000_000_000 + self.nanos
    }

    /// The nanoseconds are below one second.
    pub open spec fn wf(self) -> bool {
        self.nanos < NANOS_PER_SEC
    }

    /// The start of a track.
    pub fn zero() -> (r: TimePos)
        ensures
            r.secs == 0 && r.nanos == 0,
    {
        TimePos { secs: 0, nanos: 0 }
    }

    /// Whether `self` comes before `other`.
    pub fn before(&self, other: &TimePos) -> (r: bool)
        requires
            self.wf(),
            other.wf(),
        ensures
            r == (self.total_nanos() < other.total_nanos()),
    {
        self.secs < other.secs || (self.secs == other.secs && self.nanos < other.nanos)
    }
}

/// Where seeking `secs` seconds forward from `pos` goes, in a track of
/// length `duration` where it is known: `None` (no seek) where that point
/// is not before the end.
pub open spec fn seek_forward_spec(pos: TimePos, duration: Option<TimePos>, secs: u64) -> Option<TimePos> {
    let target = TimePos { secs: (pos.secs + secs) as u64, nanos: pos.nanos };
    match duration {
        Some(d) => if target.total_nanos() < d.total_nanos() {
            Some(target)
        } else {
            None
        },
        None => Some(target),
    }
}

/// Where to seek when moving `secs` seconds forward from `pos`, in a track
/// of length `duration` where it is known; `None` where that point is not
/// before the end, so that no seek happens.
pub fn seek_forward_target(pos: TimePos, duration: Option<TimePos>, secs: u64) -> (r: Option<TimePos>)
    requires
        pos.wf(),
        duration matches Some(d) ==> d.wf(),
        pos.secs + secs <= u64::MAX,
    ensures
        r == seek_forward_spec(pos, duration, secs),
{
    let target = TimePos { secs: pos.secs + secs, nanos: pos.nanos };
    match duration {
        Some(d) => if target.before(&d) {
            Some(target)
        } else {
            None
        },
        None => Some(target),
    }
}

/// Where seeking `secs` seconds back from `pos` goes: that far back where
/// `pos` is past it, else the start.
pub open spec fn seek_backward_spec(pos: TimePos, secs: u64) -> TimePos {
    if pos.total_nanos() > secs * 1_000_000_000 {
        TimePos { secs: (pos.secs - secs) as u64, nanos: pos.nanos }
    } else {
        TimePos { secs: 0, nanos: 0 }
    }
}

/// Where to seek when moving `secs` seconds back from `pos`: that far back
/// where `pos` is past it, else the start of the track.
pub fn seek_backward_target(pos: TimePos, secs: u64) -> (r: TimePos)
    requires
        pos.wf(),
    ensures
        r == seek_backward_spec(pos, secs),
        r.total_nanos() == if pos.total_nanos() > secs * 1_000_000_000 {
            pos.total_nanos() - secs * 1_000_000_000
        } else {
            0
        },
{
    let step = TimePos { secs, nanos: 0 };
    if step.before(&pos) {
        TimePos { secs: pos.secs - secs, nanos: pos.nanos }
    } else {
        TimePos::zero()
    }
}

} // verus!
