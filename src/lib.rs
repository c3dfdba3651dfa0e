//! Verified core of a video playback engine: the shared player state that a
//! decoding worker publishes into and a rendering consumer samples from, the
//! decisions taken around the media pipeline (seeking, rate changes, pausing,
//! end of stream), subtitle timing, display sizing and frame colour
//! conversion.

mod convert;
mod display;
mod error;
mod events;
mod frame;
mod laws;
mod pipeline;
mod rate;
mod seek;
mod state;

pub use convert::{nv12_to_bgra, nv12_to_rgba, ColorProfile, PixelOrder};
pub use display::display_size;
pub use error::Error;
pub use events::{player_event, ContentFit, PipelineEvent, VideoPlayerEvent};
pub use frame::{Frame, FrameBuffer};
pub use laws::{
    lemma_buffer_within_capacity, lemma_buffered_after_publishes, lemma_buffering_resumes,
    lemma_build_rejects_bad_framerate, lemma_capacity_trims_front, lemma_pause_keeps_frame,
    lemma_publish_then_read, lemma_ready_at_most_once_per_publish,
    lemma_ready_means_publish_since_clear, lemma_ready_once_per_publish, lemma_seek_clears,
    lemma_speed_needs_position, ReadyStep,
};
pub use pipeline::{playbin_description, video_sink_name};
pub use rate::{Fraction, Rate};
pub use seek::{rate_seek_command, Position, SeekCommand, SeekStop};
pub use state::{
    FrameTiming, PlaybackTarget, PlayerState, PlayerView, SubtitleCue, VideoOptions, WorkerAction,
    DEFAULT_FRAME_BUFFER_CAPACITY, IDLE_SLEEP_MS, PULL_TIMEOUT_MS,
};
