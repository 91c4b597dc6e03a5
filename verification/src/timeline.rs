//! The timeline: one video track and one audio track, a derived duration,
//! and a playhead.
//!
//! The duration is the maximum of the two track durations and is recomputed
//! after every clip insertion or removal. The playhead is kept within
//! `[0, duration]` (when every clip ends at or after the origin; a document
//! whose clips all end before the origin has a negative duration, and the
//! playhead is then clamped onto it).

use vstd::prelude::*;
use vstd::math::max;
use crate::clip::{Clip, ClipId};
use crate::time::Time;
use crate::track::{Track, TrackError, TrackType, max_timeline_end, overlaps_any, clips_intersecting};

verus! {

/// The arrangement document: what plays when.
#[derive(Debug)]
pub struct Timeline {
    pub video_track: Track,
    pub audio_track: Track,
    /// Total duration in nanoseconds; always the maximum of the two track
    /// durations.
    pub duration: Time,
    /// Current playhead position in nanoseconds, clamped to the duration.
    pub playhead: Time,
}

/// A playhead position clamped to `[0, duration]`: positions are first
/// raised to zero, then lowered to the duration.
pub open spec fn clamped_playhead(position: int, duration: int) -> int {
    let raised = if position >= 0 {
        position
    } else {
        0
    };
    if raised <= duration {
        raised
    } else {
        duration
    }
}

impl Timeline {
    /// Well-formedness: both tracks are well formed and of their kind, the
    /// duration is the maximum of the track durations, and the playhead is
    /// clamped to it.
    pub open spec fn wf(self) -> bool {
        &&& self.video_track.wf()
        &&& self.audio_track.wf()
        &&& self.video_track.track_type == TrackType::Video
        &&& self.audio_track.track_type == TrackType::Audio
        &&& self.duration == max(
            max_timeline_end(self.video_track.clips@),
            max_timeline_end(self.audio_track.clips@),
        )
        &&& self.playhead == clamped_playhead(self.playhead as int, self.duration as int)
    }

    /// Create an empty timeline: an empty video track, an empty audio track,
    /// zero duration, playhead at the origin.
    pub fn new() -> (timeline: Timeline)
        ensures
            timeline.wf(),
            timeline.video_track.clips@ == Seq::<Clip>::empty(),
            timeline.audio_track.clips@ == Seq::<Clip>::empty(),
            timeline.duration == 0,
            timeline.playhead == 0,
    {
        let video_track = Track::new(1, TrackType::Video);
        let audio_track = Track::new(2, TrackType::Audio);
        Timeline { video_track, audio_track, duration: 0, playhead: 0 }
    }

    /// Recompute the duration from the track durations and re-clamp the
    /// playhead onto it.
    fn update_duration(&mut self)
        requires
            old(self).video_track.wf(),
            old(self).audio_track.wf(),
        ensures
            final(self).duration == max(
                max_timeline_end(final(self).video_track.clips@),
                max_timeline_end(final(self).audio_track.clips@),
            ),
            final(self).playhead == clamped_playhead(
                old(self).playhead as int,
                final(self).duration as int,
            ),
            final(self).video_track == old(self).video_track,
            final(self).audio_track == old(self).audio_track,
    {
        let video_duration = self.video_track.duration();
        let audio_duration = self.audio_track.duration();
        self.duration = if video_duration >= audio_duration {
            video_duration
        } else {
            audio_duration
        };
        let raised = if self.playhead >= 0 {
            self.playhead
        } else {
            0
        };
        self.playhead = if raised <= self.duration {
            raised
        } else {
            self.duration
        };
    }

    /// Add a clip to the video track; rejects an overlapping clip and leaves
    /// the timeline unchanged, reporting an existing clip id it collides
    /// with. On success the duration is recomputed.
    pub fn add_video_clip(&mut self, clip: Clip) -> (r: Result<(), TrackError>)
        requires
            old(self).wf(),
            clip.wf(),
        ensures
            final(self).wf(),
            r is Ok <==> !overlaps_any(old(self).video_track.clips@, clip),
            r is Ok ==> exists|k: int|
                0 <= k <= old(self).video_track.clips.len() && final(self).video_track.clips@
                    == old(self).video_track.clips@.insert(k, clip),
            r matches Err(TrackError::Overlap { clip_id }) ==> exists|i: int|
                0 <= i < old(self).video_track.clips.len() && crate::clip::spec_overlaps(
                    clip,
                    old(self).video_track.clips@[i],
                ) && old(self).video_track.clips@[i].id == clip_id,
            r is Err ==> *final(self) == *old(self),
            final(self).audio_track == old(self).audio_track,
            final(self).duration == max(
                max_timeline_end(final(self).video_track.clips@),
                max_timeline_end(final(self).audio_track.clips@),
            ),
    {
        let result = self.video_track.add_clip(clip);
        if result.is_err() {
            return result;
        }
        self.update_duration();
        result
    }

    /// Add a clip to the audio track; rejects an overlapping clip and leaves
    /// the timeline unchanged, reporting an existing clip id it collides
    /// with. On success the duration is recomputed.
    pub fn add_audio_clip(&mut self, clip: Clip) -> (r: Result<(), TrackError>)
        requires
            old(self).wf(),
            clip.wf(),
        ensures
            final(self).wf(),
            r is Ok <==> !overlaps_any(old(self).audio_track.clips@, clip),
            r is Ok ==> exists|k: int|
                0 <= k <= old(self).audio_track.clips.len() && final(self).audio_track.clips@
                    == old(self).audio_track.clips@.insert(k, clip),
            r matches Err(TrackError::Overlap { clip_id }) ==> exists|i: int|
                0 <= i < old(self).audio_track.clips.len() && crate::clip::spec_overlaps(
                    clip,
                    old(self).audio_track.clips@[i],
                ) && old(self).audio_track.clips@[i].id == clip_id,
            r is Err ==> *final(self) == *old(self),
            final(self).video_track == old(self).video_track,
            final(self).duration == max(
                max_timeline_end(final(self).video_track.clips@),
                max_timeline_end(final(self).audio_track.clips@),
            ),
    {
        let result = self.audio_track.add_clip(clip);
        if result.is_err() {
            return result;
        }
        self.update_duration();
        result
    }

    /// Remove a clip from the video track by id, recomputing the duration
    /// when something was removed.
    pub fn remove_video_clip(&mut self, clip_id: ClipId) -> (r: Option<Clip>)
        requires
            old(self).wf(),
        ensures
            final(self).wf(),
            r is Some <==> exists|i: int|
                0 <= i < old(self).video_track.clips.len() && old(self).video_track.clips@[i].id
                    == clip_id,
            r matches Some(c) ==> exists|i: int|
                0 <= i < old(self).video_track.clips.len() && old(self).video_track.clips@[i].id
                    == clip_id && c == old(self).video_track.clips@[i]
                    && final(self).video_track.clips@ == old(self).video_track.clips@.remove(i),
            r is None ==> *final(self) == *old(self),
            final(self).audio_track == old(self).audio_track,
            final(self).duration == max(
                max_timeline_end(final(self).video_track.clips@),
                max_timeline_end(final(self).audio_track.clips@),
            ),
    {
        let result = self.video_track.remove_clip(clip_id);
        if result.is_some() {
            self.update_duration();
        }
        result
    }

    /// Remove a clip from the audio track by id, recomputing the duration
    /// when something was removed.
    pub fn remove_audio_clip(&mut self, clip_id: ClipId) -> (r: Option<Clip>)
        requires
            old(self).wf(),
        ensures
            final(self).wf(),
            r is Some <==> exists|i: int|
                0 <= i < old(self).audio_track.clips.len() && old(self).audio_track.clips@[i].id
                    == clip_id,
            r matches Some(c) ==> exists|i: int|
                0 <= i < old(self).audio_track.clips.len() && old(self).audio_track.clips@[i].id
                    == clip_id && c == old(self).audio_track.clips@[i]
                    && final(self).audio_track.clips@ == old(self).audio_track.clips@.remove(i),
            r is None ==> *final(self) == *old(self),
            final(self).video_track == old(self).video_track,
            final(self).duration == max(
                max_timeline_end(final(self).video_track.clips@),
                max_timeline_end(final(self).audio_track.clips@),
            ),
    {
        let result = self.audio_track.remove_clip(clip_id);
        if result.is_some() {
            self.update_duration();
        }
        result
    }

    /// Set the playhead, clamped to `[0, duration]`. Negative positions land
    /// on zero; positions past the end land on the duration.
    pub fn set_playhead(&mut self, position: Time)
        requires
            old(self).wf(),
        ensures
            final(self).wf(),
            final(self).playhead == clamped_playhead(position as int, old(self).duration as int),
            final(self).duration >= 0 ==> 0 <= final(self).playhead <= final(self).duration,
            final(self).video_track == old(self).video_track,
            final(self).audio_track == old(self).audio_track,
            final(self).duration == old(self).duration,
    {
        let raised = if position >= 0 {
            position
        } else {
            0
        };
        self.playhead = if raised <= self.duration {
            raised
        } else {
            self.duration
        };
    }

    /// The video clip under the playhead, if any: the first video clip whose
    /// timeline range contains the playhead position.
    pub fn video_clip_at_playhead(&self) -> (r: Option<&Clip>)
        ensures
            r is None <==> (forall|i: int|
                0 <= i < self.video_track.clips.len() ==> !(
                #[trigger] self.video_track.clips@[i]).spec_contains(self.playhead)),
            r matches Some(c) ==> exists|i: int|
                0 <= i < self.video_track.clips.len() && *c == self.video_track.clips@[i]
                    && self.video_track.clips@[i].spec_contains(self.playhead) && (forall|j: int|
                    0 <= j < i ==> !(#[trigger] self.video_track.clips@[j]).spec_contains(
                        self.playhead,
                    )),
    {
        self.video_track.clip_at(self.playhead)
    }

    /// The audio clip under the playhead, if any: the first audio clip whose
    /// timeline range contains the playhead position.
    pub fn audio_clip_at_playhead(&self) -> (r: Option<&Clip>)
        ensures
            r is None <==> (forall|i: int|
                0 <= i < self.audio_track.clips.len() ==> !(
                #[trigger] self.audio_track.clips@[i]).spec_contains(self.playhead)),
            r matches Some(c) ==> exists|i: int|
                0 <= i < self.audio_track.clips.len() && *c == self.audio_track.clips@[i]
                    && self.audio_track.clips@[i].spec_contains(self.playhead) && (forall|j: int|
                    0 <= j < i ==> !(#[trigger] self.audio_track.clips@[j]).spec_contains(
                        self.playhead,
                    )),
    {
        self.audio_track.clip_at(self.playhead)
    }

    /// The video clips and the audio clips whose timeline ranges intersect
    /// `[start, end]`, as a pair.
    pub fn clips_in_range(&self, start: Time, end: Time) -> (r: (Vec<Clip>, Vec<Clip>))
        ensures
            r.0@ == clips_intersecting(self.video_track.clips@, start, end),
            r.1@ == clips_intersecting(self.audio_track.clips@, start, end),
    {
        (self.video_track.clips_in_range(start, end), self.audio_track.clips_in_range(start, end))
    }
}

impl Clone for Timeline {
    /// An exact snapshot of the document: playback and export work on such
    /// clones so that live edits never race an in-flight pass.
    fn clone(&self) -> (r: Self)
        ensures
            r.video_track.id == self.video_track.id,
            r.video_track.track_type == self.video_track.track_type,
            r.video_track.clips@ == self.video_track.clips@,
            r.video_track.muted == self.video_track.muted,
            r.video_track.volume == self.video_track.volume,
            r.audio_track.id == self.audio_track.id,
            r.audio_track.track_type == self.audio_track.track_type,
            r.audio_track.clips@ == self.audio_track.clips@,
            r.audio_track.muted == self.audio_track.muted,
            r.audio_track.volume == self.audio_track.volume,
            r.duration == self.duration,
            r.playhead == self.playhead,
    {
        Timeline {
            video_track: self.video_track.clone(),
            audio_track: self.audio_track.clone(),
            duration: self.duration,
            playhead: self.playhead,
        }
    }
}

impl Default for Timeline {
    /// The empty timeline.
    fn default() -> (r: Self)
        ensures
            r.wf(),
            r.video_track.clips@ == Seq::<Clip>::empty(),
            r.audio_track.clips@ == Seq::<Clip>::empty(),
            r.duration == 0,
            r.playhead == 0,
    {
        Timeline::new()
    }
}

/// Law: setting the playhead never produces a value outside
/// `[0, duration]`, for any requested position, on any document whose
/// duration is not negative.
pub proof fn lemma_playhead_clamped(position: int, duration: int)
    requires
        duration >= 0,
    ensures
        0 <= clamped_playhead(position, duration) <= duration,
{
}

} // verus!
