//! Timestamp pacing for recording replay.
//!
//! A recording is a flat concatenation of datagram-sized records, each
//! carrying the original capture's wrapping 32-bit millisecond timestamp.
//! Replay keeps a monotonic mapping from recorded time to the wall clock:
//! the first record anchors (wall-clock-now, first-recorded-timestamp), and
//! every later record is due at the anchor instant plus the recorded time
//! elapsed since the anchor, computed with 32-bit wraparound.  The caller
//! suspends until the returned deadline, reproducing inter-packet timing.

use vstd::prelude::*;

verus! {

/// Wall-clock values are kept below 2^48 milliseconds (about nine thousand
/// years) so a deadline sum can never overflow.
pub const MAX_WALL_MS: u64 = 0x1_0000_0000_0000;

/// The recorded milliseconds from `first` to `ts` on a wrapping 32-bit
/// clock.
pub open spec fn spec_elapsed_wrapped(ts: u32, first: u32) -> int {
    if ts >= first {
        ts - first
    } else {
        ts - first + 0x1_0000_0000
    }
}

/// The pacing state of one replay: nothing before the first record, then
/// the wall-clock/recorded-timestamp anchor pair.
#[derive(Clone, Copy, Debug, PartialEq, Eq)]
pub struct ReplayPacer {
    pub start: Option<(u64, u32)>,
}

/// The anchor's wall-clock half stays below `MAX_WALL_MS`.
pub open spec fn spec_pacer_wf(p: ReplayPacer) -> bool {
    match p.start {
        Some(anchor) => anchor.0 < MAX_WALL_MS,
        None => true,
    }
}

impl ReplayPacer {
    /// A pacer with no anchor yet.
    pub fn new() -> (r: ReplayPacer)
        ensures
            r.start is None,
            spec_pacer_wf(r),
    {
        ReplayPacer { start: None }
    }

    /// Schedules one record.  The first record anchors the mapping and is
    /// due immediately; every later record is due at the anchor wall-clock
    /// instant plus the recorded time elapsed since the first record's
    /// timestamp, 32-bit wraparound included.
    pub fn on_record(&mut self, timestamp_ms: u32, now_ms: u64) -> (deadline: u64)
        requires
            spec_pacer_wf(*old(self)),
            now_ms < MAX_WALL_MS,
        ensures
            spec_pacer_wf(*final(self)),
            old(self).start is None ==> final(self).start == Some((now_ms, timestamp_ms))
                && deadline == now_ms,
            old(self).start matches Some(anchor) ==> *final(self) == *old(self) && deadline
                == anchor.0 + spec_elapsed_wrapped(timestamp_ms, anchor.1),
    {
        match self.start {
            None => {
                self.start = Some((now_ms, timestamp_ms));
                now_ms
            },
            Some((wall, first)) => {
                let delta: u64 = if timestamp_ms >= first {
                    (timestamp_ms - first) as u64
                } else {
                    0x1_0000_0000u64 - (first as u64) + (timestamp_ms as u64)
                };
                wall + delta
            },
        }
    }
}

/// Replay pacing: a record whose recorded timestamp lies `dt` milliseconds
/// after the anchor's — on the wrapping 32-bit clock — is due exactly `dt`
/// milliseconds after the anchor's wall-clock instant, so a record 500 ms
/// after the first is not yielded before 500 ms of wall-clock time have
/// passed.
pub proof fn lemma_replay_pacing(anchor_wall: u64, t0: u32, dt: u32)
    ensures
        anchor_wall + spec_elapsed_wrapped(((t0 + dt) % 0x1_0000_0000) as u32, t0) == anchor_wall
            + dt,
{
    let ts = ((t0 + dt) % 0x1_0000_0000) as u32;
    if t0 + dt < 0x1_0000_0000 {
        assert(ts == t0 + dt);
    } else {
        assert(ts == t0 + dt - 0x1_0000_0000);
        assert(ts < t0);
    }
}

} // verus!
