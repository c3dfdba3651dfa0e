use vstd::prelude::*;

verus! {

/// How a video is fitted into a container of a given size.
#[derive(Clone, Copy, Debug, PartialEq, Eq, Structural)]
pub enum ContentFit {
    Contain,
    Cover,
    Fill,
    ScaleDown,
    /// Shown at its natural size, neither scaled nor stretched.
    NoScale,
}

/// Notifications that a player view hands to its listeners.
#[derive(Clone, Debug)]
pub enum VideoPlayerEvent {
    /// The video reached the end of the stream.
    EndOfStream,
    /// A new frame is available.
    NewFrame,
    /// The pipeline reported an error.
    Error(String),
    /// The subtitle text changed (to none, or to the given text).
    SubtitleText(Option<String>),
}

/// A status notification drained from the pipeline's event queue.
#[derive(Clone, Debug)]
pub enum PipelineEvent {
    /// No further samples will arrive until a seek or restart.
    EndOfStream,
    /// An error, with its description. Errors are reported, not fatal.
    Error(String),
}

/// The notification a player view emits for a pipeline event.
pub fn player_event(event: PipelineEvent) -> (r: VideoPlayerEvent)
    ensures
        match event {
            PipelineEvent::EndOfStream => r is EndOfStream,
            PipelineEvent::Error(m) => r matches VideoPlayerEvent::Error(n) && n@ == m@,
        },
{
    match event {
        PipelineEvent::EndOfStream => VideoPlayerEvent::EndOfStream,
        PipelineEvent::Error(m) => VideoPlayerEvent::Error(m),
    }
}

} // verus!
