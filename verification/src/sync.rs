//! Audio-driven synchronization controller.
//!
//! The controller holds the master clock for playback: an elapsed-nanosecond
//! cell advanced by the audio output callback each time it commits samples to
//! the hardware, plus the timeline position recorded at the most recent start
//! or seek. The current timeline position is always `timeline_start +
//! elapsed`. On an underrun the callback writes silence but still advances
//! the clock by the buffer's nominal duration, trading audio fidelity for
//! timing stability.
//!
//! This type is the sequential model of the clock; sharing it across threads
//! (the audio callback advancing, other threads reading) is the embedding
//! program's concern, through an atomic cell holding the elapsed count.

use vstd::prelude::*;
use crate::time::{Time, Timestamp};

verus! {

/// Synchronization controller for audio-driven playback.
#[derive(Debug)]
pub struct SyncController {
    /// Nanoseconds of audio committed since the last start, seek or stop.
    master_clock: u64,
    /// Timeline position recorded at the most recent start or seek.
    timeline_start: Timestamp,
}

impl SyncController {
    /// The elapsed cell's value.
    pub closed spec fn spec_elapsed(self) -> u64 {
        self.master_clock
    }

    /// The timeline position recorded at the most recent start or seek.
    pub closed spec fn spec_timeline_start(self) -> Timestamp {
        self.timeline_start
    }

    /// The clock can be read without overflowing the time type.
    pub open spec fn wf(self) -> bool {
        &&& self.spec_elapsed() <= i64::MAX
        &&& self.spec_timeline_start() + self.spec_elapsed() <= i64::MAX
    }

    /// The current timeline position: `timeline_start + elapsed`.
    pub open spec fn spec_current(self) -> int {
        self.spec_timeline_start() + self.spec_elapsed()
    }

    /// The clock after `start(position)`: anchored at `position`, elapsed
    /// reset to zero.
    pub closed spec fn spec_start(self, timeline_position: Timestamp) -> SyncController {
        SyncController { master_clock: 0, timeline_start: timeline_position }
    }

    /// The clock after `stop()`: elapsed reset, the anchor left in place.
    pub closed spec fn spec_stop(self) -> SyncController {
        SyncController { master_clock: 0, timeline_start: self.timeline_start }
    }

    /// The clock after `seek(position)`: re-anchored at `position`, elapsed
    /// reset to zero — the clock jumps immediately, with no interpolation.
    pub closed spec fn spec_seek(self, position: Timestamp) -> SyncController {
        SyncController { master_clock: 0, timeline_start: position }
    }

    /// The clock after the audio callback commits `delta` nanoseconds of
    /// samples: elapsed grows by `delta`.
    pub closed spec fn spec_advance(self, delta: u64) -> SyncController {
        SyncController {
            master_clock: (self.master_clock + delta) as u64,
            timeline_start: self.timeline_start,
        }
    }

    /// The clock after an absolute store of `nanoseconds` into the elapsed
    /// cell.
    pub closed spec fn spec_update(self, nanoseconds: u64) -> SyncController {
        SyncController { master_clock: nanoseconds, timeline_start: self.timeline_start }
    }

    /// A fresh controller: anchored at the origin with nothing elapsed.
    pub fn new() -> (c: SyncController)
        ensures
            c.wf(),
            c.spec_elapsed() == 0,
            c.spec_timeline_start() == 0,
    {
        SyncController { master_clock: 0, timeline_start: 0 }
    }

    /// The elapsed cell's value, in nanoseconds.
    pub fn master_clock(&self) -> (r: u64)
        ensures
            r == self.spec_elapsed(),
    {
        self.master_clock
    }

    /// Start playback from a timeline position: record the anchor and reset
    /// the elapsed cell.
    pub fn start(&mut self, timeline_position: Timestamp)
        requires
            timeline_position >= 0,
        ensures
            *final(self) == old(self).spec_start(timeline_position),
            final(self).wf(),
            final(self).spec_elapsed() == 0,
            final(self).spec_timeline_start() == timeline_position,
    {
        self.timeline_start = timeline_position;
        self.master_clock = 0;
    }

    /// Stop playback: reset the elapsed cell. The anchor is left for the
    /// caller to read before stopping if needed.
    pub fn stop(&mut self)
        ensures
            *final(self) == old(self).spec_stop(),
            final(self).wf(),
            final(self).spec_elapsed() == 0,
            final(self).spec_timeline_start() == old(self).spec_timeline_start(),
    {
        self.master_clock = 0;
    }

    /// The current timeline position based on the master clock.
    pub fn current_timeline_position(&self) -> (r: Timestamp)
        requires
            self.wf(),
        ensures
            r == self.spec_current(),
    {
        let elapsed_ns = self.master_clock as i64;
        self.timeline_start + elapsed_ns
    }

    /// Advance the clock by `delta` nanoseconds of committed audio. Called by
    /// the audio callback after it fills a hardware buffer — also when it
    /// fills it with silence on an underrun.
    pub fn advance(&mut self, delta: u64)
        requires
            old(self).spec_elapsed() + delta <= i64::MAX,
            old(self).spec_timeline_start() + old(self).spec_elapsed() + delta <= i64::MAX,
        ensures
            *final(self) == old(self).spec_advance(delta),
            final(self).wf(),
            final(self).spec_elapsed() == old(self).spec_elapsed() + delta,
            final(self).spec_timeline_start() == old(self).spec_timeline_start(),
    {
        self.master_clock = self.master_clock + delta;
    }

    /// Store an absolute elapsed value, in nanoseconds.
    pub fn update_clock(&mut self, nanoseconds: u64)
        requires
            nanoseconds <= i64::MAX,
            old(self).spec_timeline_start() + nanoseconds <= i64::MAX,
        ensures
            *final(self) == old(self).spec_update(nanoseconds),
            final(self).wf(),
    {
        self.master_clock = nanoseconds;
    }

    /// Seek to a new timeline position: the clock jumps immediately.
    pub fn seek(&mut self, position: Timestamp)
        requires
            position >= 0,
        ensures
            *final(self) == old(self).spec_seek(position),
            final(self).wf(),
            final(self).spec_elapsed() == 0,
            final(self).spec_timeline_start() == position,
    {
        self.timeline_start = position;
        self.master_clock = 0;
    }

    /// The timestamp video should display right now: the current timeline
    /// position.
    pub fn video_target_timestamp(&self) -> (r: Timestamp)
        requires
            self.wf(),
        ensures
            r == self.spec_current(),
    {
        self.current_timeline_position()
    }

    /// How far a video timestamp is ahead of the audio clock: positive when
    /// video is ahead, negative when behind.
    pub fn sync_offset(&self, video_timestamp: Timestamp) -> (r: i64)
        requires
            self.wf(),
            i64::MIN <= video_timestamp - self.spec_current() <= i64::MAX,
        ensures
            r == video_timestamp - self.spec_current(),
    {
        let target = self.video_target_timestamp();
        video_timestamp - target
    }
}

impl Default for SyncController {
    /// A fresh controller, as `new` builds it.
    fn default() -> (c: Self)
        ensures
            c.wf(),
            c.spec_elapsed() == 0,
            c.spec_timeline_start() == 0,
    {
        SyncController::new()
    }
}

/// Law of the master clock: after `start(p)` followed by `advance(d1)` and
/// `advance(d2)`, the current timeline position is exactly `p + d1 + d2`;
/// after a subsequent `seek(q)`, the next read is exactly `q`, whatever had
/// elapsed before.
pub proof fn lemma_master_clock(c: SyncController, p: Timestamp, d1: u64, d2: u64, q: Timestamp)
    requires
        p >= 0,
        p + d1 + d2 <= i64::MAX,
    ensures
        c.spec_start(p).spec_advance(d1).spec_advance(d2).spec_current() == p + d1 + d2,
        c.spec_start(p).spec_advance(d1).spec_advance(d2).spec_seek(q).spec_current() == q,
{
}

} // verus!
