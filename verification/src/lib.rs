//! Timing and media-arrangement core of a non-linear video editor.
//!
//! The crate keeps a frame-accurate description of how source media segments
//! are arranged in time (clips on tracks on a timeline), drives playback so
//! that audio and video stay synchronized (an audio-driven master clock and a
//! playback state machine), remembers decoded frames around the playhead for
//! scrubbing, and plans a frame-accurate offline export of the arrangement.
//!
//! All positions and durations are nanosecond counts (`i64`), zero at the
//! timeline origin. Codec decode/encode, the audio device, the GPU compositor
//! and the user interface are external collaborators: the crate computes what
//! they should do and never talks to them itself.

pub mod clip;
pub mod export;
pub mod frame_cache;
pub mod media;
pub mod playback;
pub mod sync;
pub mod time;
pub mod timeline;
pub mod track;

pub use time::Time;
pub use time::Timestamp;
