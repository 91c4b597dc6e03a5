//! A track: an ordered, non-overlapping collection of clips of one media
//! kind, with a mute flag and a volume.
//!
//! Clips are kept sorted by `timeline_start`, and no two clips on the same
//! track overlap. Clips that merely touch at a boundary are both permitted.
//! Insertion rejects an overlapping clip and leaves the track unchanged,
//! reporting the id of an existing clip it collided with.

use vstd::prelude::*;
use crate::clip::{Clip, ClipId, spec_overlaps};
use crate::time::Time;

verus! {

/// Error type for track operations.
#[derive(Debug, Clone, Copy, PartialEq, Eq, Structural)]
pub enum TrackError {
    /// The clip overlaps the existing clip with this id.
    Overlap { clip_id: ClipId },
}

/// Unique identifier for a track.
pub type TrackId = u64;

/// The media kind a track carries.
#[derive(Debug, Clone, Copy, PartialEq, Eq, Hash, Structural)]
pub enum TrackType {
    Video,
    Audio,
}

/// Unity gain; `volume` ranges over `0..=MAX_VOLUME` in permille.
pub const MAX_VOLUME: u32 = 1000;

/// An ordered, non-overlapping collection of clips of one media kind.
#[derive(Debug)]
pub struct Track {
    pub id: TrackId,
    pub track_type: TrackType,
    /// The clips, sorted by `timeline_start`, pairwise non-overlapping.
    pub clips: Vec<Clip>,
    pub muted: bool,
    /// Track gain in permille: `0` is silent, `MAX_VOLUME` is unity.
    pub volume: u32,
}

/// The end of the last clip: the greatest `timeline_end` over all clips, or
/// zero when there are none.
pub open spec fn max_timeline_end(clips: Seq<Clip>) -> int
    decreases clips.len(),
{
    if clips.len() == 0 {
        0
    } else {
        let prefix = max_timeline_end(clips.drop_last());
        let last = clips.last().timeline_end as int;
        if clips.len() == 1 {
            last
        } else if prefix >= last {
            prefix
        } else {
            last
        }
    }
}

/// Whether a clip overlaps any clip of the sequence.
pub open spec fn overlaps_any(clips: Seq<Clip>, c: Clip) -> bool {
    exists|i: int| 0 <= i < clips.len() && spec_overlaps(c, clips[i])
}

/// The clips of the sequence whose timeline range intersects `[start, end]`
/// (both endpoints included, touching counts), in their original order.
pub open spec fn clips_intersecting(clips: Seq<Clip>, start: Time, end: Time) -> Seq<Clip>
    decreases clips.len(),
{
    if clips.len() == 0 {
        Seq::<Clip>::empty()
    } else {
        let prefix = clips_intersecting(clips.drop_last(), start, end);
        if clips.last().timeline_start <= end && clips.last().timeline_end >= start {
            prefix.push(clips.last())
        } else {
            prefix
        }
    }
}

impl Track {
    /// Well-formedness: every clip is well formed, the clips are sorted by
    /// `timeline_start`, no two of them overlap, and the volume is in range.
    pub open spec fn wf(self) -> bool {
        &&& forall|i: int| 0 <= i < self.clips.len() ==> (#[trigger] self.clips[i]).wf()
        &&& forall|i: int, j: int|
            #![trigger self.clips[i], self.clips[j]]
            0 <= i < j < self.clips.len() ==> self.clips[i].timeline_start
                <= self.clips[j].timeline_start
        &&& forall|i: int, j: int|
            #![trigger self.clips[i], self.clips[j]]
            0 <= i < j < self.clips.len() ==> !spec_overlaps(self.clips[i], self.clips[j])
        &&& self.volume <= MAX_VOLUME
    }

    /// Create an empty track of the given kind, unmuted, at unity volume.
    pub fn new(id: TrackId, track_type: TrackType) -> (track: Track)
        ensures
            track.wf(),
            track.id == id,
            track.track_type == track_type,
            track.clips@ == Seq::<Clip>::empty(),
            track.muted == false,
            track.volume == MAX_VOLUME,
    {
        Track { id, track_type, clips: Vec::new(), muted: false, volume: MAX_VOLUME }
    }

    /// Add a clip, keeping the clips sorted by `timeline_start`.
    ///
    /// Rejects a clip whose timeline range overlaps an existing clip's range,
    /// leaving the track unchanged and reporting the id of the first existing
    /// clip it collides with. Clips that touch at a boundary are allowed.
    pub fn add_clip(&mut self, clip: Clip) -> (r: Result<(), TrackError>)
        requires
            old(self).wf(),
            clip.wf(),
        ensures
            final(self).wf(),
            r is Ok <==> !overlaps_any(old(self).clips@, clip),
            r is Ok ==> exists|k: int|
                0 <= k <= old(self).clips.len() && final(self).clips@ == old(
                    self,
                ).clips@.insert(k, clip),
            r matches Err(TrackError::Overlap { clip_id }) ==> exists|i: int|
                0 <= i < old(self).clips.len() && spec_overlaps(clip, old(self).clips@[i])
                    && old(self).clips@[i].id == clip_id && (forall|j: int|
                    0 <= j < i ==> !spec_overlaps(clip, old(self).clips@[j])),
            r is Err ==> *final(self) == *old(self),
            final(self).id == old(self).id,
            final(self).track_type == old(self).track_type,
            final(self).muted == old(self).muted,
            final(self).volume == old(self).volume,
    {
        let n = self.clips.len();
        let mut i: usize = 0;
        while i < n
            invariant
                n == self.clips.len(),
                i <= n,
                old(self).wf(),
                *self == *old(self),
                forall|j: int| 0 <= j < i ==> !spec_overlaps(clip, self.clips@[j]),
            decreases n - i,
        {
            if clip.overlaps_with(&self.clips[i]) {
                return Err(TrackError::Overlap { clip_id: self.clips[i].id });
            }
            i += 1;
        }

        let mut k: usize = 0;
        while k < n && self.clips[k].timeline_start <= clip.timeline_start
            invariant
                n == self.clips.len(),
                k <= n,
                old(self).wf(),
                *self == *old(self),
                forall|m: int| 0 <= m < k ==> self.clips@[m].timeline_start <= clip.timeline_start,
            decreases n - k,
        {
            k += 1;
        }
        let ghost pre = self.clips@;
        proof {
            assert forall|m: int| k <= m < n implies clip.timeline_start
                < pre[m].timeline_start by {
                if k < m {
                    assert(pre[k as int].timeline_start <= pre[m].timeline_start);
                }
            }
        }
        self.clips.insert(k, clip);
        proof {
            pre.insert_ensures(k as int, clip);
            let post = self.clips@;
            assert forall|a: int| 0 <= a < post.len() implies (#[trigger] post[a]).wf() by {
                if a > k {
                    assert(post[a] == pre[a - 1]);
                }
            }
            assert forall|a: int, b: int|
                #![trigger post[a], post[b]]
                0 <= a < b < post.len() implies post[a].timeline_start <= post[b].timeline_start
                && !spec_overlaps(post[a], post[b]) by {
                if a > k {
                    assert(post[a] == pre[a - 1]);
                }
                if b > k {
                    assert(post[b] == pre[b - 1]);
                }
            }
        }
        Ok(())
    }

    /// Remove the first clip with the given id, returning it; `None` and no
    /// change when no clip has that id.
    pub fn remove_clip(&mut self, clip_id: ClipId) -> (r: Option<Clip>)
        requires
            old(self).wf(),
        ensures
            final(self).wf(),
            r is Some <==> exists|i: int|
                0 <= i < old(self).clips.len() && old(self).clips@[i].id == clip_id,
            r matches Some(c) ==> exists|i: int|
                0 <= i < old(self).clips.len() && old(self).clips@[i].id == clip_id && c == old(
                    self,
                ).clips@[i] && final(self).clips@ == old(self).clips@.remove(i) && (forall|j: int|
                    0 <= j < i ==> old(self).clips@[j].id != clip_id),
            r is None ==> *final(self) == *old(self),
            final(self).id == old(self).id,
            final(self).track_type == old(self).track_type,
            final(self).muted == old(self).muted,
            final(self).volume == old(self).volume,
    {
        let n = self.clips.len();
        let mut i: usize = 0;
        while i < n
            invariant
                n == self.clips.len(),
                i <= n,
                old(self).wf(),
                *self == *old(self),
                forall|j: int| 0 <= j < i ==> self.clips@[j].id != clip_id,
            decreases n - i,
        {
            if self.clips[i].id == clip_id {
                let ghost pre = self.clips@;
                let removed = self.clips.remove(i);
                proof {
                    pre.remove_ensures(i as int);
                    let post = self.clips@;
                    assert forall|a: int, b: int|
                        0 <= a < b < post.len() implies post[a].timeline_start
                        <= post[b].timeline_start && !spec_overlaps(post[a], post[b])
                        && post[a].wf() by {
                        if b < i {
                            assert(post[a] == pre[a] && post[b] == pre[b]);
                        } else if a < i {
                            assert(post[a] == pre[a] && post[b] == pre[b + 1]);
                        } else {
                            assert(post[a] == pre[a + 1] && post[b] == pre[b + 1]);
                        }
                    }
                }
                return Some(removed);
            }
            i += 1;
        }
        None
    }

    /// The first clip whose timeline range contains the position, if any.
    pub fn clip_at(&self, timeline_position: Time) -> (r: Option<&Clip>)
        ensures
            r is None <==> (forall|i: int|
                0 <= i < self.clips.len() ==> !(#[trigger] self.clips@[i]).spec_contains(
                    timeline_position,
                )),
            r matches Some(c) ==> exists|i: int|
                0 <= i < self.clips.len() && *c == self.clips@[i] && self.clips@[i].spec_contains(
                    timeline_position,
                ) && (forall|j: int|
                    0 <= j < i ==> !(#[trigger] self.clips@[j]).spec_contains(timeline_position)),
    {
        let n = self.clips.len();
        let mut i: usize = 0;
        while i < n
            invariant
                n == self.clips.len(),
                i <= n,
                forall|j: int|
                    0 <= j < i ==> !(#[trigger] self.clips@[j]).spec_contains(timeline_position),
            decreases n - i,
        {
            if self.clips[i].contains(timeline_position) {
                return Some(&self.clips[i]);
            }
            i += 1;
        }
        None
    }

    /// Every clip whose timeline range intersects `[start, end]`, in track
    /// order: the clips with `timeline_start <= end && timeline_end >= start`.
    pub fn clips_in_range(&self, start: Time, end: Time) -> (r: Vec<Clip>)
        ensures
            r@ == clips_intersecting(self.clips@, start, end),
    {
        let n = self.clips.len();
        let mut out: Vec<Clip> = Vec::new();
        let mut i: usize = 0;
        proof {
            assert(self.clips@.take(0) =~= Seq::<Clip>::empty());
        }
        while i < n
            invariant
                n == self.clips.len(),
                i <= n,
                out@ == clips_intersecting(self.clips@.take(i as int), start, end),
            decreases n - i,
        {
            let ghost prefix = self.clips@.take(i as int);
            if self.clips[i].timeline_start <= end && self.clips[i].timeline_end >= start {
                out.push(self.clips[i].clone());
            }
            proof {
                let next = self.clips@.take(i + 1 as int);
                assert(next.drop_last() =~= prefix);
                assert(next.last() == self.clips@[i as int]);
            }
            i += 1;
        }
        proof {
            assert(self.clips@.take(n as int) =~= self.clips@);
        }
        out
    }

    /// The duration of the track: the greatest `timeline_end` over its clips,
    /// or zero when it is empty.
    pub fn duration(&self) -> (d: Time)
        ensures
            d == max_timeline_end(self.clips@),
    {
        let n = self.clips.len();
        if n == 0 {
            return 0;
        }
        let mut d: Time = self.clips[0].timeline_end;
        let mut i: usize = 1;
        proof {
            let first = self.clips@.take(1);
            assert(first.drop_last() =~= Seq::<Clip>::empty());
            assert(first.last() == self.clips@[0]);
        }
        while i < n
            invariant
                n == self.clips.len(),
                1 <= i <= n,
                d == max_timeline_end(self.clips@.take(i as int)),
            decreases n - i,
        {
            let ghost prefix = self.clips@.take(i as int);
            if self.clips[i].timeline_end > d {
                d = self.clips[i].timeline_end;
            }
            proof {
                let next = self.clips@.take(i + 1 as int);
                assert(next.drop_last() =~= prefix);
                assert(next.last() == self.clips@[i as int]);
            }
            i += 1;
        }
        proof {
            assert(self.clips@.take(n as int) =~= self.clips@);
        }
        d
    }

    /// Set the track volume, clamped to `0..=MAX_VOLUME`.
    pub fn set_volume(&mut self, volume: u32)
        requires
            old(self).wf(),
        ensures
            final(self).wf(),
            final(self).volume == if volume <= MAX_VOLUME {
                volume
            } else {
                MAX_VOLUME
            },
            final(self).clips@ == old(self).clips@,
            final(self).id == old(self).id,
            final(self).track_type == old(self).track_type,
            final(self).muted == old(self).muted,
    {
        self.volume = if volume <= MAX_VOLUME {
            volume
        } else {
            MAX_VOLUME
        };
    }

    /// Set the muted flag.
    pub fn set_muted(&mut self, muted: bool)
        requires
            old(self).wf(),
        ensures
            final(self).wf(),
            final(self).muted == muted,
            final(self).clips@ == old(self).clips@,
            final(self).id == old(self).id,
            final(self).track_type == old(self).track_type,
            final(self).volume == old(self).volume,
    {
        self.muted = muted;
    }
}

impl Clone for Track {
    /// An exact copy: same id, kind, clips, mute flag and volume.
    fn clone(&self) -> (r: Self)
        ensures
            r.id == self.id,
            r.track_type == self.track_type,
            r.clips@ == self.clips@,
            r.muted == self.muted,
            r.volume == self.volume,
    {
        let mut clips: Vec<Clip> = Vec::new();
        let n = self.clips.len();
        let mut i: usize = 0;
        while i < n
            invariant
                n == self.clips.len(),
                i <= n,
                clips@ == self.clips@.take(i as int),
            decreases n - i,
        {
            clips.push(self.clips[i].clone());
            proof {
                assert(clips@ =~= self.clips@.take(i + 1 as int));
            }
            i += 1;
        }
        proof {
            assert(clips@ =~= self.clips@);
        }
        Track { id: self.id, track_type: self.track_type, clips, muted: self.muted, volume: self.volume }
    }
}

} // verus!
