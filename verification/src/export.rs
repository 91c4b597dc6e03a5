//! Frame-accurate offline export planning.
//!
//! Export walks the timeline frame by frame at the target rate, independent
//! of the master clock. This module plans every step exactly: when each
//! frame falls, which video clip to decode (or that black must be
//! substituted), which audio ranges to decode and scale, how many samples
//! each piece is worth, and how the sample stream is drained in fixed-size
//! chunks with partial chunks carried over. The embedding program performs
//! the planned decodes and encodes; decode failures substitute black or
//! silence and never stall the walk, while encode failures abort it.
//!
//! Frame `k` falls at `k * 1s / fps` nanoseconds, computed from the frame
//! index each time so that no rounding drift accumulates: a five-second
//! timeline at thirty frames per second yields exactly 150 frames.

use vstd::prelude::*;
use vstd::arithmetic::div_mod::{
    lemma_div_is_ordered,
    lemma_div_multiples_vanish,
    lemma_div_multiples_vanish_fancy,
    lemma_div_pos_is_pos,
    lemma_multiply_divide_lt,
};
use vstd::arithmetic::mul::lemma_mul_nonnegative;
use vstd::math::min;
use crate::clip::Clip;
use crate::media::DecodeError;
use crate::time::Time;
use crate::timeline::Timeline;
use crate::track::clips_intersecting;

verus! {

/// Error type for encoding operations.
#[derive(Debug, Clone)]
pub enum EncodeError {
    /// The codec engine reported an error, quoted as text.
    FFmpeg(String),
    FileCreation(String),
    Encoding(String),
    InvalidParameters(String),
}

/// Error type for export operations.
#[derive(Debug, Clone)]
pub enum ExportError {
    /// Encode errors are fatal: the export aborts.
    Encode(EncodeError),
    /// A decode could not even be set up for a referenced source.
    Decode(DecodeError),
    /// The document and the decoder table disagree.
    Timeline(String),
}

/// Export settings: output geometry, rate and bitrates.
#[derive(Debug, Clone)]
pub struct ExportSettings {
    pub width: u32,
    pub height: u32,
    /// Target frame rate, frames per second.
    pub fps: u32,
    /// Video bitrate in bits per second.
    pub video_bitrate: u64,
    /// Audio bitrate in bits per second.
    pub audio_bitrate: u64,
    pub sample_rate: u32,
    pub channels: u32,
}

impl ExportSettings {
    /// Usable settings: a real frame rate and sample rate, and a frame that
    /// fits in memory.
    pub open spec fn wf(self) -> bool {
        &&& 1 <= self.fps
        &&& 1 <= self.sample_rate
        &&& self.width * self.height * 4 <= usize::MAX
    }
}

impl Default for ExportSettings {
    /// 1080p at 30 frames per second, 5 Mbps video, 192 kbps audio, 48 kHz
    /// stereo.
    fn default() -> (s: Self)
        ensures
            s.wf(),
            s.width == 1920,
            s.height == 1080,
            s.fps == 30,
            s.video_bitrate == 5_000_000,
            s.audio_bitrate == 192_000,
            s.sample_rate == 48000,
            s.channels == 2,
    {
        ExportSettings {
            width: 1920,
            height: 1080,
            fps: 30,
            video_bitrate: 5_000_000,
            audio_bitrate: 192_000,
            sample_rate: 48000,
            channels: 2,
        }
    }
}

/// When frame `k` falls: `k * 1s / fps` nanoseconds, truncated.
pub open spec fn spec_frame_time(k: int, fps: int) -> int {
    k * 1_000_000_000 / fps
}

/// How many frames the export walks: the number of frame indices scheduled
/// strictly before the timeline ends — `duration * fps / 1s`, rounded up.
pub open spec fn spec_total_frames(duration: int, fps: int) -> int {
    if duration <= 0 {
        0
    } else {
        (duration * fps + 999_999_999) / 1_000_000_000
    }
}

/// Law of the frame schedule: frame `k` falls strictly before the end of
/// the timeline exactly when `k` is below the total frame count.
pub proof fn lemma_frame_schedule(k: int, duration: int, fps: int)
    requires
        0 <= k,
        1 <= fps,
        0 <= duration,
    ensures
        spec_frame_time(k, fps) < duration <==> k < spec_total_frames(duration, fps),
{
    let b: int = 1_000_000_000;
    let z: int = duration * fps;
    lemma_mul_nonnegative(duration, fps);
    lemma_mul_nonnegative(k, b);
    if duration == 0 {
        lemma_div_pos_is_pos(k * b, fps);
    } else {
        let tf: int = (z + b - 1) / b;
        // frame_time(k) < duration  <==>  k * b < z
        if k * b < z {
            lemma_multiply_divide_lt(k * b, fps, duration);
            assert(fps * duration == z);
        }
        if spec_frame_time(k, fps) < duration {
            if k * b >= z {
                lemma_div_is_ordered(z, k * b, fps);
                lemma_div_multiples_vanish(duration, fps);
                assert(fps * duration == z);
                assert(z / fps == duration);
                assert(false);
            }
        }
        // k < tf  <==>  k * b < z
        if k * b < z {
            assert(b * (k + 1) == k * b + b);
            lemma_div_is_ordered(b * (k + 1), z + b - 1, b);
            lemma_div_multiples_vanish(k + 1, b);
            assert((b * (k + 1)) / b == k + 1);
        }
        if k < tf {
            if k * b >= z {
                assert(z + b - 1 <= b * k + (b - 1)) by {
                    assert(b * k == k * b);
                }
                lemma_div_is_ordered(z + b - 1, b * k + (b - 1), b);
                lemma_div_multiples_vanish_fancy(k, b - 1, b);
                assert((b * k + (b - 1)) / b == k);
                assert(false);
            }
        }
    }
}

/// What to do for one video frame: decode a source frame, or substitute a
/// full-frame black image.
#[derive(Debug, Clone)]
pub enum VideoPlan {
    /// Decode the frame at `source_time` of stream `stream_index` in
    /// `source_path`.
    Decode { source_path: String, stream_index: usize, source_time: Time },
    /// No clip covers this frame: encode black.
    Black,
}

/// One audio range to decode for a frame: the part of a clip that overlaps
/// the frame's time range, mapped into source time.
#[derive(Debug, Clone)]
pub struct AudioSegment {
    pub source_path: String,
    pub stream_index: usize,
    /// Start of the range in source time (nanoseconds), inclusive.
    pub source_start: Time,
    /// End of the range in source time (nanoseconds), exclusive.
    pub source_end: Time,
}

/// The audio work for one frame: the segments to decode and scale, or
/// silence when no clip intersects the frame at all.
#[derive(Debug)]
pub struct AudioFramePlan {
    pub segments: Vec<AudioSegment>,
    /// True exactly when no audio clip intersects the frame's range: the
    /// frame is then one full span of silence.
    pub silence: bool,
}

/// The segment a clip contributes to the frame range `[frame_start,
/// frame_end]`: its overlap with the range, mapped into source time.
pub open spec fn spec_segment_of(c: Clip, frame_start: Time, frame_end: Time) -> AudioSegment {
    let overlap_start = if c.timeline_start >= frame_start {
        c.timeline_start as int
    } else {
        frame_start as int
    };
    let overlap_end = if c.timeline_end <= frame_end {
        c.timeline_end as int
    } else {
        frame_end as int
    };
    AudioSegment {
        source_path: c.source_path,
        stream_index: c.stream_index,
        source_start: (c.in_point + overlap_start - c.timeline_start) as i64,
        source_end: (c.in_point + overlap_end - c.timeline_start) as i64,
    }
}

/// Whether a clip's overlap with the frame range is more than a boundary
/// touch.
pub open spec fn spec_overlap_nonempty(c: Clip, frame_start: Time, frame_end: Time) -> bool {
    (if c.timeline_start >= frame_start {
        c.timeline_start as int
    } else {
        frame_start as int
    }) < (if c.timeline_end <= frame_end {
        c.timeline_end as int
    } else {
        frame_end as int
    })
}

/// The segments the given clips contribute to the frame range, in order;
/// clips that only touch the range at a boundary contribute nothing.
pub open spec fn spec_segments(clips: Seq<Clip>, frame_start: Time, frame_end: Time) -> Seq<
    AudioSegment,
>
    decreases clips.len(),
{
    if clips.len() == 0 {
        Seq::<AudioSegment>::empty()
    } else {
        let prefix = spec_segments(clips.drop_last(), frame_start, frame_end);
        if spec_overlap_nonempty(clips.last(), frame_start, frame_end) {
            prefix.push(spec_segment_of(clips.last(), frame_start, frame_end))
        } else {
            prefix
        }
    }
}

/// Carries the audio sample stream across frame boundaries: samples are
/// drained to the encoder in fixed-size chunks, and a clip boundary that
/// produces a partial chunk leaves it buffered for the next frame rather
/// than encoding it short.
#[derive(Debug)]
pub struct AudioChunker {
    /// Samples per encoded chunk; one frame's worth.
    chunk_size: usize,
    /// Samples accumulated but not yet drained; always below `chunk_size`.
    buffered: usize,
}

impl AudioChunker {
    /// Samples per encoded chunk.
    pub closed spec fn spec_chunk_size(self) -> usize {
        self.chunk_size
    }

    /// Samples accumulated but not yet drained.
    pub closed spec fn spec_buffered(self) -> usize {
        self.buffered
    }

    /// Well-formedness: a positive chunk size, and never a full chunk left
    /// buffered.
    pub open spec fn wf(self) -> bool {
        &&& 1 <= self.spec_chunk_size()
        &&& self.spec_buffered() < self.spec_chunk_size()
    }

    /// An empty chunker draining `chunk_size` samples at a time.
    pub fn new(chunk_size: usize) -> (chunker: AudioChunker)
        requires
            1 <= chunk_size,
        ensures
            chunker.wf(),
            chunker.spec_chunk_size() == chunk_size,
            chunker.spec_buffered() == 0,
    {
        AudioChunker { chunk_size, buffered: 0 }
    }

    /// Account for `samples` more samples: returns how many full chunks the
    /// stream can now be drained by; the remainder stays buffered.
    pub fn push(&mut self, samples: usize) -> (full_chunks: usize)
        requires
            old(self).wf(),
            old(self).spec_buffered() + samples <= usize::MAX,
        ensures
            final(self).wf(),
            final(self).spec_chunk_size() == old(self).spec_chunk_size(),
            full_chunks == (old(self).spec_buffered() + samples) as int / old(
                self,
            ).spec_chunk_size() as int,
            final(self).spec_buffered() == (old(self).spec_buffered() + samples) as int % old(
                self,
            ).spec_chunk_size() as int,
    {
        let total = self.buffered + samples;
        let full_chunks = total / self.chunk_size;
        self.buffered = total % self.chunk_size;
        full_chunks
    }

    /// End of the stream: a remaining partial chunk is padded with silence
    /// to a full chunk and flushed. Returns how many silent samples to pad
    /// with, and whether one final chunk is encoded at all.
    pub fn finish(&mut self) -> (padding: usize)
        requires
            old(self).wf(),
        ensures
            final(self).wf(),
            final(self).spec_chunk_size() == old(self).spec_chunk_size(),
            final(self).spec_buffered() == 0,
            old(self).spec_buffered() == 0 ==> padding == 0,
            old(self).spec_buffered() > 0 ==> padding == old(self).spec_chunk_size() - old(
                self,
            ).spec_buffered(),
    {
        let padding = if self.buffered == 0 {
            0
        } else {
            self.chunk_size - self.buffered
        };
        self.buffered = 0;
        padding
    }
}

/// The planner for one export pass: a snapshot of the document and the
/// target settings. It decides what every frame needs; the embedding
/// program opens the decoders and the encoder and performs the plan.
#[derive(Debug)]
pub struct ExportPipeline {
    pub timeline: Timeline,
    pub settings: ExportSettings,
}

impl ExportPipeline {
    /// Well-formedness: a well-formed document and usable settings, on a
    /// timeline that does not end before it starts.
    pub open spec fn wf(self) -> bool {
        &&& self.timeline.wf()
        &&& self.settings.wf()
        &&& 0 <= self.timeline.duration
    }

    /// A planner over a snapshot of the document.
    pub fn new(timeline: Timeline, settings: ExportSettings) -> (pipeline: ExportPipeline)
        requires
            timeline.wf(),
            settings.wf(),
            0 <= timeline.duration,
        ensures
            pipeline.wf(),
            pipeline.timeline == timeline,
            pipeline.settings == settings,
    {
        ExportPipeline { timeline, settings }
    }

    /// The export settings.
    pub fn settings(&self) -> (r: &ExportSettings)
        ensures
            r == &self.settings,
    {
        &self.settings
    }

    /// When frame `k` falls on the timeline.
    pub fn frame_time(&self, k: usize) -> (t: Time)
        requires
            self.wf(),
            spec_frame_time(k as int, self.settings.fps as int) <= i64::MAX,
        ensures
            t == spec_frame_time(k as int, self.settings.fps as int),
    {
        let ticks: u128 = (k as u128) * 1_000_000_000u128;
        proof {
            let kk = k as int;
            assert(kk * 1_000_000_000 <= 0xffff_ffff_ffff_ffff * 1_000_000_000)
                by (nonlinear_arith)
                requires
                    0 <= kk <= 0xffff_ffff_ffff_ffff,
            ;
            lemma_div_pos_is_pos(kk * 1_000_000_000, self.settings.fps as int);
        }
        (ticks / (self.settings.fps as u128)) as i64
    }

    /// Where the frame range of frame `k` ends: at the next frame, or at
    /// the end of the timeline, whichever comes first.
    pub fn frame_end(&self, k: usize) -> (t: Time)
        requires
            self.wf(),
            k < usize::MAX,
            spec_frame_time(k + 1 as int, self.settings.fps as int) <= i64::MAX,
        ensures
            t == min(
                spec_frame_time(k + 1 as int, self.settings.fps as int),
                self.timeline.duration as int,
            ),
    {
        let next = self.frame_time(k + 1);
        if next <= self.timeline.duration {
            next
        } else {
            self.timeline.duration
        }
    }

    /// How many frames the export walks in all.
    pub fn total_frames(&self) -> (n: usize)
        requires
            self.wf(),
            spec_total_frames(self.timeline.duration as int, self.settings.fps as int)
                <= usize::MAX,
        ensures
            n == spec_total_frames(self.timeline.duration as int, self.settings.fps as int),
    {
        if self.timeline.duration <= 0 {
            return 0;
        }
        proof {
            let d = self.timeline.duration as int;
            let fps = self.settings.fps as int;
            assert(d * fps <= 0x7fff_ffff_ffff_ffff * 0xffff_ffff) by (nonlinear_arith)
                requires
                    0 <= d <= 0x7fff_ffff_ffff_ffff,
                    0 <= fps <= 0xffff_ffff,
            ;
            lemma_mul_nonnegative(d, fps);
        }
        let z: u128 = (self.timeline.duration as u128) * (self.settings.fps as u128);
        ((z + 999_999_999u128) / 1_000_000_000u128) as usize
    }

    /// One frame's worth of samples: `sample_rate / fps`, truncated. Every
    /// chunk the encoder receives has this many samples.
    pub fn samples_per_frame(&self) -> (n: usize)
        requires
            self.wf(),
        ensures
            n == self.settings.sample_rate as int / self.settings.fps as int,
    {
        (self.settings.sample_rate / self.settings.fps) as usize
    }

    /// Decide the video work for the frame at `timeline_time`: decode the
    /// first video clip containing the position, mapped into source time,
    /// or substitute black when no clip covers it.
    pub fn video_plan(&self, timeline_time: Time) -> (plan: VideoPlan)
        requires
            self.wf(),
        ensures
            plan is Black <==> (forall|i: int|
                0 <= i < self.timeline.video_track.clips.len() ==> !(
                #[trigger] self.timeline.video_track.clips@[i]).spec_contains(timeline_time)),
            plan matches VideoPlan::Decode { source_path, stream_index, source_time } ==> exists|
                i: int,
            |
                0 <= i < self.timeline.video_track.clips.len() && {
                    let c = #[trigger] self.timeline.video_track.clips@[i];
                    &&& c.spec_contains(timeline_time)
                    &&& source_path == c.source_path
                    &&& stream_index == c.stream_index
                    &&& source_time == c.in_point + timeline_time - c.timeline_start
                    &&& (forall|j: int|
                        0 <= j < i ==> !(
                        #[trigger] self.timeline.video_track.clips@[j]).spec_contains(
                            timeline_time,
                        ))
                },
    {
        match self.timeline.video_track.clip_at(timeline_time) {
            Some(clip) => {
                match clip.timeline_to_source(timeline_time) {
                    Some(source_time) => VideoPlan::Decode {
                        source_path: clip.source_path.clone(),
                        stream_index: clip.stream_index,
                        source_time,
                    },
                    None => VideoPlan::Black,
                }
            },
            None => VideoPlan::Black,
        }
    }

    /// Decide the audio work for the frame range `[frame_start,
    /// frame_end]`: every audio clip intersecting the range contributes its
    /// overlap, mapped into source time; clips that only touch a boundary
    /// contribute nothing. When no clip intersects at all, the frame is one
    /// span of silence.
    pub fn audio_plan(&self, frame_start: Time, frame_end: Time) -> (plan: AudioFramePlan)
        requires
            self.wf(),
        ensures
            plan.segments@ == spec_segments(
                clips_intersecting(self.timeline.audio_track.clips@, frame_start, frame_end),
                frame_start,
                frame_end,
            ),
            plan.silence == (clips_intersecting(
                self.timeline.audio_track.clips@,
                frame_start,
                frame_end,
            ).len() == 0),
    {
        let found = self.timeline.audio_track.clips_in_range(frame_start, frame_end);
        let silence = found.len() == 0;
        let ghost all = found@;
        proof {
            assert(forall|i: int| 0 <= i < all.len() ==> (#[trigger] all[i]).wf()) by {
                assert forall|i: int| 0 <= i < all.len() implies (#[trigger] all[i]).wf() by {
                    lemma_clips_intersecting_wf(
                        self.timeline.audio_track.clips@,
                        frame_start,
                        frame_end,
                        i,
                    );
                }
            }
            assert(all.take(0) =~= Seq::<Clip>::empty());
        }
        let mut segments: Vec<AudioSegment> = Vec::new();
        let n = found.len();
        let mut i: usize = 0;
        while i < n
            invariant
                n == found.len(),
                i <= n,
                all == found@,
                forall|j: int| 0 <= j < all.len() ==> (#[trigger] all[j]).wf(),
                segments@ == spec_segments(all.take(i as int), frame_start, frame_end),
            decreases n - i,
        {
            let clip = &found[i];
            let clip_start = if clip.timeline_start >= frame_start {
                clip.timeline_start
            } else {
                frame_start
            };
            let clip_end = if clip.timeline_end <= frame_end {
                clip.timeline_end
            } else {
                frame_end
            };
            if clip_start < clip_end {
                let source_start = clip.in_point + (clip_start - clip.timeline_start);
                let source_end = clip.in_point + (clip_end - clip.timeline_start);
                segments.push(
                    AudioSegment {
                        source_path: clip.source_path.clone(),
                        stream_index: clip.stream_index,
                        source_start,
                        source_end,
                    },
                );
            }
            proof {
                let next = all.take(i + 1 as int);
                assert(next.drop_last() =~= all.take(i as int));
                assert(next.last() == all[i as int]);
            }
            i += 1;
        }
        proof {
            assert(all.take(n as int) =~= all);
        }
        AudioFramePlan { segments, silence }
    }

    /// How many samples an audio segment is worth at the export sample
    /// rate: its duration times the rate, truncated to whole samples.
    pub fn segment_samples(&self, segment: &AudioSegment) -> (n: usize)
        requires
            self.wf(),
            segment.source_start <= segment.source_end,
            segment.source_end - segment.source_start <= i64::MAX,
            (segment.source_end - segment.source_start) * self.settings.sample_rate as int
                / 1_000_000_000 <= usize::MAX,
        ensures
            n == (segment.source_end - segment.source_start) * self.settings.sample_rate as int
                / 1_000_000_000,
    {
        let duration: i64 = segment.source_end - segment.source_start;
        proof {
            let d = duration as int;
            let sr = self.settings.sample_rate as int;
            assert(d * sr <= 0x7fff_ffff_ffff_ffff * 0xffff_ffff) by (nonlinear_arith)
                requires
                    0 <= d <= 0x7fff_ffff_ffff_ffff,
                    0 <= sr <= 0xffff_ffff,
            ;
            lemma_mul_nonnegative(d, sr);
        }
        let total: u128 = (duration as u128) * (self.settings.sample_rate as u128);
        (total / 1_000_000_000u128) as usize
    }
}

/// Every clip that `clips_intersecting` keeps comes from the original
/// sequence, so it inherits the track's well-formedness.
proof fn lemma_clips_intersecting_wf(clips: Seq<Clip>, start: Time, end: Time, i: int)
    requires
        forall|j: int| 0 <= j < clips.len() ==> (#[trigger] clips[j]).wf(),
        0 <= i < clips_intersecting(clips, start, end).len(),
    ensures
        clips_intersecting(clips, start, end)[i].wf(),
    decreases clips.len(),
{
    if clips.len() > 0 {
        let prefix = clips_intersecting(clips.drop_last(), start, end);
        assert(forall|j: int|
            0 <= j < clips.drop_last().len() ==> (#[trigger] clips.drop_last()[j]).wf());
        if i < prefix.len() {
            lemma_clips_intersecting_wf(clips.drop_last(), start, end, i);
        }
    }
}

} // verus!
