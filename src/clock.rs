//! Frame pacing: the display interval is derived from consecutive
//! presentation timestamps and clamped to a sane range.
use vstd::prelude::*;

verus! {

/// Nanoseconds in one millisecond.
pub const NS_PER_MS: u64 = 1_000_000;

/// Shortest interval between two displayed frames, in milliseconds.
pub const MIN_INTERVAL_MS: u64 = 1;

/// Longest interval between two displayed frames, in milliseconds.
pub const MAX_INTERVAL_MS: u64 = 100;

/// Interval used before any frame has been seen, in milliseconds.
pub const DEFAULT_INTERVAL_MS: u64 = 33;

/// The interval to wait after a frame with timestamp `pts`, whose predecessor
/// had timestamp `prev` (both in nanoseconds): the difference in whole
/// milliseconds, clamped to `[MIN_INTERVAL_MS, MAX_INTERVAL_MS]`. A timestamp
/// that does not advance (out of order or repeated) gives the minimum.
pub open spec fn frame_interval(prev: u64, pts: u64) -> u64 {
    if pts <= prev {
        MIN_INTERVAL_MS
    } else {
        let d = ((pts - prev) / (NS_PER_MS as int)) as u64;
        if d < MIN_INTERVAL_MS {
            MIN_INTERVAL_MS
        } else if d > MAX_INTERVAL_MS {
            MAX_INTERVAL_MS
        } else {
            d
        }
    }
}

/// Computes `frame_interval(prev, pts)`.
pub fn interval_between(prev: u64, pts: u64) -> (r: u64)
    ensures
        r == frame_interval(prev, pts),
        MIN_INTERVAL_MS <= r <= MAX_INTERVAL_MS,
{
    if pts <= prev {
        MIN_INTERVAL_MS
    } else {
        let d: u64 = (pts - prev) / NS_PER_MS;
        if d < MIN_INTERVAL_MS {
            MIN_INTERVAL_MS
        } else if d > MAX_INTERVAL_MS {
            MAX_INTERVAL_MS
        } else {
            d
        }
    }
}

/// The consumer-side timer that paces how fast decoded frames are pulled.
pub struct PlaybackClock {
    /// Timestamp of the last frame shown, once one has been shown.
    pub previous_pts: Option<u64>,
    /// Current interval between two pulls, in milliseconds.
    pub interval_ms: u64,
}

impl PlaybackClock {
    /// The interval is always within the clamping range.
    pub open spec fn wf(&self) -> bool {
        MIN_INTERVAL_MS <= self.interval_ms <= MAX_INTERVAL_MS
    }

    /// The interval after a frame with timestamp `pts` is shown.
    pub open spec fn next_interval(&self, pts: u64) -> u64 {
        match self.previous_pts {
            None => DEFAULT_INTERVAL_MS,
            Some(prev) => frame_interval(prev, pts),
        }
    }

    /// A clock that has seen no frame yet.
    pub fn new() -> (r: PlaybackClock)
        ensures
            r.previous_pts is None,
            r.interval_ms == DEFAULT_INTERVAL_MS,
            r.wf(),
    {
        PlaybackClock { previous_pts: None, interval_ms: DEFAULT_INTERVAL_MS }
    }

    /// Records that the frame with timestamp `pts` was shown and returns the
    /// interval to wait before pulling the next one. The first frame seeds the
    /// clock and gets the default interval.
    pub fn on_frame(&mut self, pts: u64) -> (r: u64)
        ensures
            r == old(self).next_interval(pts),
            final(self).interval_ms == r,
            final(self).previous_pts == Some(pts),
            final(self).wf(),
    {
        let r = match self.previous_pts {
            None => DEFAULT_INTERVAL_MS,
            Some(prev) => interval_between(prev, pts),
        };
        self.previous_pts = Some(pts);
        self.interval_ms = r;
        r
    }

    /// The interval currently in force, in milliseconds.
    pub fn interval_ms(&self) -> (r: u64)
        ensures
            r == self.interval_ms,
    {
        self.interval_ms
    }
}

} // verus!
