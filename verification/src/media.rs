//! Vocabulary of the decode service and the audio mixer.
//!
//! The codec engine itself is an external collaborator: it turns
//! (source path, stream index, timestamp) into decoded frames, or encodes
//! frames and samples into a container. This module holds the plain-value
//! shapes that cross that boundary — frames, stream metadata, errors — and
//! the decisions the audio mixer makes, so the embedding program only
//! performs what is planned here.

use vstd::prelude::*;
use crate::time::Time;
use crate::timeline::Timeline;

verus! {

/// Error type for decoding operations.
#[derive(Debug, Clone)]
pub enum DecodeError {
    /// The codec engine reported an error, quoted as text.
    FFmpeg(String),
    /// The source file does not exist.
    FileNotFound(String),
    NoVideoStream,
    NoAudioStream,
    InvalidStreamIndex(usize),
    SeekFailed,
}

/// A decoded video frame: RGBA8 pixels, four bytes per pixel.
#[derive(Debug)]
pub struct VideoFrame {
    /// Raw pixel data, RGBA8: exactly `width * height * 4` bytes.
    pub data: Vec<u8>,
    pub width: u32,
    pub height: u32,
    /// Timestamp of the frame in its source, in nanoseconds.
    pub timestamp: Time,
}

impl VideoFrame {
    /// The pixel buffer holds exactly four bytes per pixel.
    pub open spec fn wf(self) -> bool {
        self.data@.len() == self.width * self.height * 4
    }
}

impl Clone for VideoFrame {
    /// An exact copy, field for field.
    fn clone(&self) -> (r: Self)
        ensures
            r.data@ == self.data@,
            r.width == self.width,
            r.height == self.height,
            r.timestamp == self.timestamp,
    {
        let mut data: Vec<u8> = Vec::new();
        let n = self.data.len();
        let mut i: usize = 0;
        while i < n
            invariant
                n == self.data.len(),
                i <= n,
                data@ == self.data@.take(i as int),
            decreases n - i,
        {
            data.push(self.data[i]);
            proof {
                assert(data@ =~= self.data@.take(i + 1 as int));
            }
            i += 1;
        }
        proof {
            assert(data@ =~= self.data@);
        }
        VideoFrame { data, width: self.width, height: self.height, timestamp: self.timestamp }
    }
}

/// A full-frame black image: every byte zero, alpha included. Substituted
/// whenever no video clip is present or a decode fails.
pub fn black_frame(width: u32, height: u32, timestamp: Time) -> (frame: VideoFrame)
    requires
        width * height * 4 <= usize::MAX,
    ensures
        frame.wf(),
        frame.width == width,
        frame.height == height,
        frame.timestamp == timestamp,
        forall|i: int| 0 <= i < frame.data@.len() ==> frame.data@[i] == 0u8,
{
    let pixels: usize = (width as usize) * (height as usize) * 4;
    let mut data: Vec<u8> = Vec::new();
    let mut i: usize = 0;
    while i < pixels
        invariant
            i <= pixels,
            data@.len() == i,
            forall|j: int| 0 <= j < i ==> data@[j] == 0u8,
        decreases pixels - i,
    {
        data.push(0u8);
        i += 1;
    }
    VideoFrame { data, width, height, timestamp }
}

/// Metadata common to every stream of a source file.
#[derive(Debug, Clone)]
pub struct StreamInfo {
    pub index: usize,
    /// Duration of the stream in nanoseconds.
    pub duration: Time,
    pub codec_name: String,
}

/// Audio-specific stream metadata.
#[derive(Debug, Clone)]
pub struct AudioStreamInfo {
    pub stream_info: StreamInfo,
    pub sample_rate: u32,
    pub channels: u32,
    pub sample_format: String,
}

/// Audio sample formats the pipeline can meet; interleaved 32-bit float is
/// the one the core assumes everywhere.
#[derive(Debug, Clone, Copy, PartialEq, Eq, Structural)]
pub enum SampleFormat {
    F32,
    I16,
    I32,
}

/// Error type for audio mixing operations.
#[derive(Debug, Clone)]
pub enum MixerError {
    Decode(DecodeError),
    /// No audio clip is present at the requested position.
    NoClip,
}

/// What the mixer should decode for one buffer request, when a clip is under
/// the requested position.
#[derive(Debug, Clone)]
pub struct AudioDecodeRequest {
    pub source_path: String,
    pub stream_index: usize,
    /// Where to start decoding, in source time (nanoseconds).
    pub source_time: Time,
}

/// The mixer's decisions for one buffer request: how many interleaved
/// samples the buffer needs, what to decode (silence when nothing), and the
/// gain to apply.
#[derive(Debug, Clone)]
pub struct MixPlan {
    /// Total interleaved sample count: `duration * rate / 1s`, truncated,
    /// times the channel count.
    pub samples: usize,
    /// What to decode, or `None` for silence.
    pub decode: Option<AudioDecodeRequest>,
    /// Whether the audio track is muted: the buffer is then all silence.
    pub muted: bool,
    /// Track gain in permille, `0..=1000`.
    pub volume: u32,
}

/// The number of interleaved samples covering `duration_nanos` at
/// `sample_rate` over `channels` channels, truncated to whole samples per
/// channel.
pub open spec fn spec_sample_count(duration_nanos: int, sample_rate: int, channels: int) -> int {
    (duration_nanos * sample_rate / 1_000_000_000) * channels
}

/// Decide what one audio buffer request needs: which source range to decode
/// — the audio clip under `start_time`, mapped into source time — or
/// silence when no clip is there, plus the sample count and the track's
/// gain. The embedding program decodes, scales and fills accordingly.
pub fn plan_mix(
    timeline: &Timeline,
    start_time: Time,
    duration_nanos: Time,
    sample_rate: u32,
    channels: u32,
) -> (plan: MixPlan)
    requires
        timeline.wf(),
        0 <= duration_nanos,
        spec_sample_count(duration_nanos as int, sample_rate as int, channels as int) <= usize::MAX,
    ensures
        plan.samples == spec_sample_count(
            duration_nanos as int,
            sample_rate as int,
            channels as int,
        ),
        plan.muted == timeline.audio_track.muted,
        plan.volume == timeline.audio_track.volume,
        plan.decode is Some <==> exists|i: int|
            0 <= i < timeline.audio_track.clips.len() && (
            #[trigger] timeline.audio_track.clips@[i]).spec_contains(start_time),
        plan.decode matches Some(req) ==> exists|i: int|
            0 <= i < timeline.audio_track.clips.len() && {
                let c = #[trigger] timeline.audio_track.clips@[i];
                &&& c.spec_contains(start_time)
                &&& req.source_path == c.source_path
                &&& req.stream_index == c.stream_index
                &&& req.source_time == c.in_point + start_time - c.timeline_start
                &&& (forall|j: int|
                    0 <= j < i ==> !(#[trigger] timeline.audio_track.clips@[j]).spec_contains(
                        start_time,
                    ))
            },
{
    proof {
        let d = duration_nanos as int;
        let sr = sample_rate as int;
        assert(d * sr <= 0x7fff_ffff_ffff_ffff * 0xffff_ffff) by (nonlinear_arith)
            requires
                0 <= d <= 0x7fff_ffff_ffff_ffff,
                0 <= sr <= 0xffff_ffff,
        ;
    }
    let prod: u128 = (duration_nanos as u128) * (sample_rate as u128);
    let per_channel: u128 = prod / 1_000_000_000u128;
    proof {
        let p = per_channel as int;
        let ch = channels as int;
        assert(p * ch <= (0x7fff_ffff_ffff_ffff * 0xffff_ffff / 1_000_000_000) * 0xffff_ffff)
            by (nonlinear_arith)
            requires
                0 <= p <= 0x7fff_ffff_ffff_ffff * 0xffff_ffff / 1_000_000_000,
                0 <= ch <= 0xffff_ffff,
        ;
    }
    let samples_128: u128 = per_channel * (channels as u128);
    proof {
        assert(samples_128 == spec_sample_count(
            duration_nanos as int,
            sample_rate as int,
            channels as int,
        ));
    }
    let samples: usize = samples_128 as usize;
    let decode: Option<AudioDecodeRequest> = match timeline.audio_track.clip_at(start_time) {
        Some(clip) => {
            match clip.timeline_to_source(start_time) {
                Some(source_time) => Some(
                    AudioDecodeRequest {
                        source_path: clip.source_path.clone(),
                        stream_index: clip.stream_index,
                        source_time,
                    },
                ),
                None => None,
            }
        },
        None => None,
    };
    MixPlan { samples, decode, muted: timeline.audio_track.muted, volume: timeline.audio_track.volume }
}

} // verus!
