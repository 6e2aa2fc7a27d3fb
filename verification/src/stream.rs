//! The buffer between a radio stream being downloaded and the decoder
//! reading it: bytes arrive at the end, the reader takes them from its
//! position on, and all but the last stretch behind the reader is dropped.

use vstd::prelude::*;

verus! {

/// How many bytes behind the reader are kept, so that the decoder can seek
/// back a little.
pub const KEEP_BEHIND: usize = 262144;

/// How many bytes must be buffered before playback starts.
pub const PREBUFFER: usize = 65536;

/// The bytes of the stream from offset `base` on that are still held.
pub struct RingData {
    pub buf: Vec<u8>,
    pub base: usize,
}

/// The held part of the stream: its first offset and its bytes.
pub struct RingView {
    pub base: nat,
    pub bytes: Seq<u8>,
}

impl View for RingData {
    type V = RingView;

    open spec fn view(&self) -> RingView {
        RingView { base: self.base as nat, bytes: self.buf@ }
    }
}

impl RingView {
    /// The offset just past the last byte held.
    pub open spec fn end(self) -> nat {
        self.base + self.bytes.len()
    }

    /// The byte of the stream at `offset`, for an offset that is held.
    pub open spec fn byte_at(self, offset: int) -> u8 {
        self.bytes[offset - self.base]
    }

    /// Every byte held here is held in `other` too, at the same offset.
    pub open spec fn agrees_with(self, other: RingView) -> bool {
        forall|o: int|
            self.base <= o < self.end() && other.base <= o < other.end() ==> self.byte_at(o)
                == other.byte_at(o)
    }
}

/// Where a seek goes: from the start, from the reader's position, or from
/// the end of what has arrived.
#[derive(Clone, Copy, PartialEq, Eq, Structural, Debug)]
pub enum SeekTarget {
    Start(u64),
    Current(i64),
    End(i64),
}

/// A reader of the stream: its offset.
pub struct ReadCursor {
    pub pos: usize,
}

/// What a read takes: up to `max` bytes from `pos`, where some are held
/// from there on.
pub open spec fn read_len(r: RingView, pos: nat, max: nat) -> nat {
    let avail = (r.end() - pos) as nat;
    if max < avail {
        max
    } else {
        avail
    }
}

/// The held part after the reader has moved to `pos`: only `KEEP_BEHIND`
/// bytes behind it are kept.
pub open spec fn trimmed(r: RingView, pos: nat) -> RingView {
    if pos - r.base > KEEP_BEHIND {
        let drop = (pos - r.base - KEEP_BEHIND) as nat;
        RingView { base: r.base + drop, bytes: r.bytes.skip(drop as int) }
    } else {
        r
    }
}

/// The position a seek asks for, as the signed offset that the seek
/// computes.
pub open spec fn seek_request(r: RingView, pos: usize, to: SeekTarget) -> int {
    match to {
        SeekTarget::Start(p) => (p as i64) as int,
        SeekTarget::Current(d) => (pos as i64) + d,
        SeekTarget::End(d) => ((r.end() as usize) as i64) + d,
    }
}

/// The position a seek leaves the reader at: the one it asks for, but
/// not before the first byte held.
pub open spec fn seek_result(r: RingView, pos: usize, to: SeekTarget) -> usize {
    (if seek_request(r, pos, to) >= ((r.base as usize) as i64) {
        seek_request(r, pos, to)
    } else {
        ((r.base as usize) as i64) as int
    }) as usize
}

/// Whether a seek stays within the signed 64-bit range it computes in.
pub open spec fn seek_in_range(r: RingView, pos: usize, to: SeekTarget) -> bool {
    i64::MIN <= seek_request(r, pos, to) <= i64::MAX
}

impl RingData {
    /// An empty buffer at the start of the stream.
    pub fn new() -> (r: RingData)
        ensures
            r@.base == 0,
            r@.bytes.len() == 0,
    {
        RingData { buf: Vec::with_capacity(PREBUFFER * 2), base: 0 }
    }

    /// Adds bytes that arrived to the end.
    pub fn append(&mut self, chunk: &[u8])
        ensures
            final(self)@.base == old(self)@.base,
            final(self)@.bytes == old(self)@.bytes + chunk@,
    {
        self.buf.extend_from_slice(chunk);
        assert(self.buf@ == old(self).buf@ + chunk@);
    }

    /// Whether enough has arrived for playback to start.
    pub fn is_prebuffered(&self) -> (r: bool)
        ensures
            r == (self@.bytes.len() >= PREBUFFER),
    {
        self.buf.len() >= PREBUFFER
    }
}

impl ReadCursor {
    /// Reads up to `max` bytes at the reader's position and moves past
    /// them; then drops all but `KEEP_BEHIND` bytes behind the reader.
    /// Gives `None`, and changes nothing, where nothing is held from the
    /// reader's position on.
    pub fn read(&mut self, ring: &mut RingData, max: usize) -> (r: Option<Vec<u8>>)
        requires
            old(ring).base <= old(self).pos,
            old(ring).base + old(ring).buf@.len() <= usize::MAX,
        ensures
            match r {
                Some(data) => {
                    let n = read_len(old(ring)@, old(self).pos as nat, max as nat);
                    &&& old(self).pos < old(ring)@.end()
                    &&& data@ == old(ring)@.bytes.subrange(
                        old(self).pos - old(ring)@.base,
                        old(self).pos - old(ring)@.base + n,
                    )
                    &&& final(self).pos == old(self).pos + n
                    &&& final(ring)@ == trimmed(old(ring)@, final(self).pos as nat)
                },
                None => {
                    &&& old(self).pos >= old(ring)@.end()
                    &&& final(self).pos == old(self).pos
                    &&& final(ring)@ == old(ring)@
                },
            },
            final(ring).base <= final(self).pos,
            final(ring).base + final(ring).buf@.len() <= usize::MAX,
    {
        let rel = self.pos - ring.base;
        let len = ring.buf.len();
        if rel >= len {
            return None;
        }
        let avail = len - rel;
        let n = if max < avail {
            max
        } else {
            avail
        };
        let mut data: Vec<u8> = Vec::new();
        let mut i: usize = 0;
        while i < n
            invariant
                i <= n,
                rel + n <= len,
                len == ring.buf@.len(),
                data@ == ring.buf@.subrange(rel as int, rel + i),
            decreases n - i,
        {
            data.push(ring.buf[rel + i]);
            assert(ring.buf@.subrange(rel as int, rel + i + 1) == ring.buf@.subrange(
                rel as int,
                rel + i,
            ).push(ring.buf@[rel + i]));
            i += 1;
        }
        self.pos = self.pos + n;
        let consumed = self.pos - ring.base;
        if consumed > KEEP_BEHIND {
            let drop = consumed - KEEP_BEHIND;
            let rest = ring.buf.split_off(drop);
            ring.buf = rest;
            ring.base = ring.base + drop;
            assert(ring.buf@ == old(ring).buf@.skip(drop as int));
        }
        Some(data)
    }

    /// Moves the reader as `to` asks, but not before the first byte held;
    /// gives the new position.
    pub fn seek(&mut self, ring: &RingData, to: SeekTarget) -> (r: u64)
        requires
            seek_in_range(ring@, old(self).pos, to),
            ring.base + ring.buf@.len() <= usize::MAX,
        ensures
            final(self).pos == seek_result(ring@, old(self).pos, to),
            r == final(self).pos as u64,
    {
        let end = (ring.base + ring.buf.len()) as i64;
        let new_pos: i64 = match to {
            SeekTarget::Start(p) => p as i64,
            SeekTarget::Current(d) => self.pos as i64 + d,
            SeekTarget::End(d) => end + d,
        };
        let floor = ring.base as i64;
        self.pos = if new_pos >= floor {
            new_pos
        } else {
            floor
        } as usize;
        self.pos as u64
    }
}

/// How many times a read tries before it gives up waiting for data.
pub const READ_ATTEMPTS: usize = 500;

/// What a read does after one try at the buffer.
#[derive(Clone, Copy, PartialEq, Eq, Structural, Debug)]
pub enum ReadStep {
    /// Return this many bytes.
    Deliver(usize),
    /// The download has finished: return no bytes.
    End,
    /// Wait a moment and try again.
    Wait,
    /// Wait a moment, then give up and return no bytes.
    WaitThenEnd,
}

/// What a read does after try number `attempt` (from 0), which got `got`
/// bytes where the buffer held some: return them; where none were held,
/// end if the download has finished, else wait, and after the last try
/// give up.
pub open spec fn read_step_spec(attempt: nat, got: Option<usize>, finished: bool) -> ReadStep {
    match got {
        Some(n) => ReadStep::Deliver(n),
        None => if finished {
            ReadStep::End
        } else if attempt + 1 < READ_ATTEMPTS {
            ReadStep::Wait
        } else {
            ReadStep::WaitThenEnd
        },
    }
}

/// What a read does after try number `attempt`, which got `got` bytes;
/// a read waits at most `READ_ATTEMPTS` times.
pub fn read_step(attempt: usize, got: Option<usize>, finished: bool) -> (r: ReadStep)
    ensures
        r == read_step_spec(attempt as nat, got, finished),
        r == ReadStep::Wait ==> attempt + 1 < READ_ATTEMPTS,
{
    match got {
        Some(n) => ReadStep::Deliver(n),
        None => if finished {
            ReadStep::End
        } else if attempt < READ_ATTEMPTS - 1 {
            ReadStep::Wait
        } else {
            ReadStep::WaitThenEnd
        },
    }
}

} // verus!
