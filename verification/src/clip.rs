//! A clip: a placed segment of a source media file.
//!
//! A clip has bounds in two time domains. `in_point`/`out_point` bound the
//! segment in *source* time; `timeline_start`/`timeline_end` bound it in
//! *timeline* time. The duration is identical in both domains — only the
//! origin differs — so `timeline_end` is always derived as
//! `timeline_start + (out_point - in_point)`.

use vstd::prelude::*;
use crate::time::Time;

verus! {

/// Unique identifier for a clip.
pub type ClipId = u64;

/// A segment of source media placed on the timeline.
#[derive(Debug)]
pub struct Clip {
    pub id: ClipId,
    /// Path of the source media file, kept as plain text.
    pub source_path: String,
    /// Start of the segment in source time (nanoseconds).
    pub in_point: Time,
    /// End of the segment in source time (nanoseconds).
    pub out_point: Time,
    /// Position of the segment on the timeline (nanoseconds).
    pub timeline_start: Time,
    /// End position on the timeline; always `timeline_start + duration`.
    pub timeline_end: Time,
    /// Which stream inside the source file the segment uses.
    pub stream_index: usize,
}

impl Clip {
    /// Well-formedness: a positive duration that fits in the time type, with
    /// `timeline_end` derived from `timeline_start` and the source bounds.
    pub open spec fn wf(self) -> bool {
        &&& self.in_point < self.out_point
        &&& self.out_point - self.in_point <= i64::MAX
        &&& self.timeline_end == self.timeline_start + self.out_point - self.in_point
    }

    /// Duration of the clip in nanoseconds, as a mathematical integer.
    pub open spec fn spec_duration(self) -> int {
        self.out_point - self.in_point
    }

    /// Whether a timeline position falls within the clip's timeline range
    /// (both endpoints included).
    pub open spec fn spec_contains(self, timeline_position: Time) -> bool {
        self.timeline_start <= timeline_position <= self.timeline_end
    }

    /// The source position a timeline position maps to, when it maps at all.
    pub open spec fn spec_timeline_to_source(self, timeline_position: Time) -> Option<Time> {
        if self.spec_contains(timeline_position) {
            Some((self.in_point + timeline_position - self.timeline_start) as i64)
        } else {
            None
        }
    }

    /// The timeline position a source position maps to, when it maps at all.
    pub open spec fn spec_source_to_timeline(self, source_position: Time) -> Option<Time> {
        if self.in_point <= source_position <= self.out_point {
            Some((self.timeline_start + source_position - self.in_point) as i64)
        } else {
            None
        }
    }

    /// Create a new clip; `timeline_end` is derived from the other bounds.
    pub fn new(
        id: ClipId,
        source_path: String,
        in_point: Time,
        out_point: Time,
        timeline_start: Time,
        stream_index: usize,
    ) -> (clip: Clip)
        requires
            in_point < out_point,
            out_point - in_point <= i64::MAX,
            i64::MIN <= timeline_start + out_point - in_point <= i64::MAX,
        ensures
            clip.wf(),
            clip.id == id,
            clip.source_path == source_path,
            clip.in_point == in_point,
            clip.out_point == out_point,
            clip.timeline_start == timeline_start,
            clip.timeline_end == timeline_start + out_point - in_point,
            clip.stream_index == stream_index,
    {
        let duration = out_point - in_point;
        let timeline_end = timeline_start + duration;
        Clip { id, source_path, in_point, out_point, timeline_start, timeline_end, stream_index }
    }

    /// Duration of the clip in nanoseconds; identical in source and timeline
    /// time.
    pub fn duration(&self) -> (d: Time)
        requires
            self.wf(),
        ensures
            d == self.spec_duration(),
    {
        self.out_point - self.in_point
    }

    /// Whether a timeline position is within this clip.
    pub fn contains(&self, timeline_position: Time) -> (r: bool)
        ensures
            r == self.spec_contains(timeline_position),
    {
        timeline_position >= self.timeline_start && timeline_position <= self.timeline_end
    }

    /// Convert a timeline position to the corresponding source position.
    /// Returns `None` exactly when the position is not within this clip.
    pub fn timeline_to_source(&self, timeline_position: Time) -> (r: Option<Time>)
        requires
            self.wf(),
        ensures
            r == self.spec_timeline_to_source(timeline_position),
            r is Some <==> self.spec_contains(timeline_position),
            r is Some ==> r->Some_0 == self.in_point + timeline_position - self.timeline_start,
    {
        if !self.contains(timeline_position) {
            return None;
        }
        let offset = timeline_position - self.timeline_start;
        let source_time = self.in_point + offset;
        Some(source_time)
    }

    /// Convert a source position to the corresponding timeline position.
    /// Returns `None` exactly when the position is outside the source bounds.
    pub fn source_to_timeline(&self, source_position: Time) -> (r: Option<Time>)
        requires
            self.wf(),
        ensures
            r == self.spec_source_to_timeline(source_position),
            r is Some <==> self.in_point <= source_position <= self.out_point,
            r is Some ==> r->Some_0 == self.timeline_start + source_position - self.in_point,
    {
        if source_position < self.in_point || source_position > self.out_point {
            return None;
        }
        let offset = source_position - self.in_point;
        let timeline_time = self.timeline_start + offset;
        Some(timeline_time)
    }

    /// Trim the start of the clip: move `in_point` forward in source time and
    /// `timeline_start` forward by the same amount, leaving `timeline_end`
    /// unchanged (the duration shrinks). A no-op returning `false` when
    /// `new_in_point` is not in `[in_point, out_point)`.
    pub fn trim_in(&mut self, new_in_point: Time) -> (r: bool)
        requires
            old(self).wf(),
        ensures
            final(self).wf(),
            r <==> old(self).in_point <= new_in_point < old(self).out_point,
            r ==> final(self).in_point == new_in_point
                && final(self).out_point == old(self).out_point
                && final(self).timeline_start == old(self).timeline_start + new_in_point
                    - old(self).in_point
                && final(self).timeline_end == old(self).timeline_end
                && final(self).spec_duration() == old(self).out_point - new_in_point,
            !r ==> *final(self) == *old(self),
            final(self).id == old(self).id,
            final(self).source_path == old(self).source_path,
            final(self).stream_index == old(self).stream_index,
    {
        if new_in_point < self.in_point || new_in_point >= self.out_point {
            return false;
        }
        let trim_amount = new_in_point - self.in_point;
        self.in_point = new_in_point;
        self.timeline_start = self.timeline_start + trim_amount;
        true
    }

    /// Trim the end of the clip: move `out_point` backward in source time and
    /// re-derive `timeline_end`, leaving `timeline_start` unchanged. A no-op
    /// returning `false` when `new_out_point` is not in `(in_point, out_point]`.
    pub fn trim_out(&mut self, new_out_point: Time) -> (r: bool)
        requires
            old(self).wf(),
        ensures
            final(self).wf(),
            r <==> old(self).in_point < new_out_point <= old(self).out_point,
            r ==> final(self).out_point == new_out_point
                && final(self).in_point == old(self).in_point
                && final(self).timeline_start == old(self).timeline_start
                && final(self).timeline_end == old(self).timeline_start + new_out_point
                    - old(self).in_point
                && final(self).spec_duration() == new_out_point - old(self).in_point,
            !r ==> *final(self) == *old(self),
            final(self).id == old(self).id,
            final(self).source_path == old(self).source_path,
            final(self).stream_index == old(self).stream_index,
    {
        if new_out_point <= self.in_point || new_out_point > self.out_point {
            return false;
        }
        self.out_point = new_out_point;
        let new_duration = self.out_point - self.in_point;
        self.timeline_end = self.timeline_start + new_duration;
        true
    }

    /// Move the clip on the timeline: set `timeline_start` and re-derive
    /// `timeline_end` so the duration is kept. Source bounds are untouched.
    pub fn set_timeline_start(&mut self, new_timeline_start: Time)
        requires
            old(self).wf(),
            i64::MIN <= new_timeline_start + old(self).spec_duration() <= i64::MAX,
        ensures
            final(self).wf(),
            final(self).timeline_start == new_timeline_start,
            final(self).timeline_end == new_timeline_start + old(self).spec_duration(),
            final(self).in_point == old(self).in_point,
            final(self).out_point == old(self).out_point,
            final(self).id == old(self).id,
            final(self).source_path == old(self).source_path,
            final(self).stream_index == old(self).stream_index,
    {
        let duration = self.out_point - self.in_point;
        self.timeline_start = new_timeline_start;
        self.timeline_end = new_timeline_start + duration;
    }

    /// Move the clip to a new timeline position; same as `set_timeline_start`.
    pub fn move_to(&mut self, new_timeline_start: Time)
        requires
            old(self).wf(),
            i64::MIN <= new_timeline_start + old(self).spec_duration() <= i64::MAX,
        ensures
            final(self).wf(),
            final(self).timeline_start == new_timeline_start,
            final(self).timeline_end == new_timeline_start + old(self).spec_duration(),
            final(self).in_point == old(self).in_point,
            final(self).out_point == old(self).out_point,
            final(self).id == old(self).id,
            final(self).source_path == old(self).source_path,
            final(self).stream_index == old(self).stream_index,
    {
        self.set_timeline_start(new_timeline_start);
    }

    /// Whether this clip's timeline range overlaps another's. Clips that
    /// merely touch at a boundary do not overlap.
    pub fn overlaps_with(&self, other: &Clip) -> (r: bool)
        ensures
            r == spec_overlaps(*self, *other),
    {
        !(self.timeline_end <= other.timeline_start || other.timeline_end <= self.timeline_start)
    }
}

impl Clone for Clip {
    /// An exact copy, field for field.
    fn clone(&self) -> (r: Self)
        ensures
            r == *self,
    {
        Clip {
            id: self.id,
            source_path: self.source_path.clone(),
            in_point: self.in_point,
            out_point: self.out_point,
            timeline_start: self.timeline_start,
            timeline_end: self.timeline_end,
            stream_index: self.stream_index,
        }
    }
}

/// Two clips overlap when neither lies completely at or before the start of
/// the other.
pub open spec fn spec_overlaps(a: Clip, b: Clip) -> bool {
    !(a.timeline_end <= b.timeline_start || b.timeline_end <= a.timeline_start)
}

/// Law: converting a source position to timeline time and back returns the
/// original position, and symmetrically for timeline positions, everywhere
/// inside the clip's bounds.
pub proof fn lemma_time_mapping_round_trip(c: Clip, s: Time, t: Time)
    requires
        c.wf(),
        c.in_point <= s <= c.out_point,
        c.timeline_start <= t <= c.timeline_end,
    ensures
        c.spec_source_to_timeline(s) matches Some(tt) && c.spec_timeline_to_source(tt)
            == Some(s),
        c.spec_timeline_to_source(t) matches Some(ss) && c.spec_source_to_timeline(ss)
            == Some(t),
{
}

/// Law: a clip that ends at or before another begins does not overlap it, and
/// two clips whose timeline ranges share more than a single instant do.
pub proof fn lemma_overlap_separation(a: Clip, b: Clip)
    ensures
        a.timeline_end <= b.timeline_start ==> !spec_overlaps(a, b),
        b.timeline_end <= a.timeline_start ==> !spec_overlaps(a, b),
        (if a.timeline_start >= b.timeline_start {
            a.timeline_start as int
        } else {
            b.timeline_start as int
        }) < (if a.timeline_end <= b.timeline_end {
            a.timeline_end as int
        } else {
            b.timeline_end as int
        }) ==> spec_overlaps(a, b),
{
}

} // verus!
