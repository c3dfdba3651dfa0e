use vstd::prelude::*;
use crate::display::{display_size, display_size_of};
use crate::error::Error;
use crate::events::{PipelineEvent, VideoPlayerEvent};
use crate::frame::{keep_last, Frame, FrameBuffer};
use crate::rate::{normal_speed_bits, positive_fraction, zero_bits, Fraction, Rate};
use crate::seek::{rate_seek, rate_seek_command, Position, SeekCommand, SeekStop};
use vstd::slice::slice_to_vec;

verus! {

/// How long one pull of a sample may wait, in milliseconds. Short, so that the
/// worker notices a shutdown request quickly.
pub const PULL_TIMEOUT_MS: u64 = 16;

/// How long the worker sleeps between checks while the stream has ended, in
/// milliseconds.
pub const IDLE_SLEEP_MS: u64 = 50;

/// How many recent frames are buffered when no capacity is given: a few, so
/// that a consumer rendering at its own cadence misses none between ticks.
pub const DEFAULT_FRAME_BUFFER_CAPACITY: usize = 3;

/// Settings applied when a player is built.
#[derive(Clone, Copy, Debug)]
pub struct VideoOptions {
    /// Frame buffer capacity; zero disables buffering, none means
    /// [`DEFAULT_FRAME_BUFFER_CAPACITY`].
    pub frame_buffer_capacity: Option<usize>,
    /// Whether the media loops; none means no.
    pub looping: Option<bool>,
    /// Initial playback rate; none means normal speed.
    pub speed: Option<Rate>,
}

impl Default for VideoOptions {
    fn default() -> (r: VideoOptions)
        ensures
            r.frame_buffer_capacity == Some(DEFAULT_FRAME_BUFFER_CAPACITY),
            r.looping == Some(false),
            r.speed == Some(Rate::normal_spec()),
    {
        VideoOptions {
            frame_buffer_capacity: Some(DEFAULT_FRAME_BUFFER_CAPACITY),
            looping: Some(false),
            speed: Some(Rate::normal()),
        }
    }
}

/// The abstract content of a [`PlayerState`].
pub struct PlayerView {
    pub width: i32,
    pub height: i32,
    pub framerate: Fraction,
    /// Nanoseconds.
    pub duration: u64,
    pub speed: Rate,
    /// The frame slot: the most recently published frame, or the empty
    /// frame (none) before the first publish.
    pub latest: Option<Seq<u8>>,
    /// Set on every publish, cleared when the consumer takes it.
    pub frame_ready: bool,
    /// The ring buffer, oldest first.
    pub buffered: Seq<Option<Seq<u8>>>,
    pub capacity: nat,
    pub looping: bool,
    pub eos: bool,
    pub restart_requested: bool,
    pub subtitle: Option<Seq<char>>,
    /// Set whenever the subtitle slot changes, cleared when it is reported.
    pub subtitle_dirty: bool,
    /// Presentation time at which the shown subtitle is to be cleared.
    pub subtitle_clear_at: Option<u64>,
    pub display_width: Option<u32>,
    pub display_height: Option<u32>,
}

impl PlayerView {
    /// The buffer stays within its capacity, and the rate that seeks are
    /// issued with is never zero.
    pub open spec fn wf(self) -> bool {
        self.buffered.len() <= self.capacity && !zero_bits(self.speed.bits)
    }
}

/// Bytes that can be shown: a buffer that is there and not empty.
pub open spec fn visible(f: Option<Seq<u8>>) -> bool {
    f is Some && f.unwrap().len() > 0
}

/// What the consumer is handed for a frame: its bytes with the negotiated
/// width and height, or nothing when there is nothing to show.
pub open spec fn frame_output(v: PlayerView, f: Option<Seq<u8>>) -> Option<(Seq<u8>, u32, u32)> {
    if visible(f) {
        Some((f.unwrap(), v.width as u32, v.height as u32))
    } else {
        None
    }
}

/// The same, for the frame slot.
pub open spec fn slot_output(v: PlayerView) -> Option<(Seq<u8>, u32, u32)> {
    frame_output(v, v.latest)
}

/// The view of a frame handed out.
pub open spec fn output_view(r: Option<(Vec<u8>, u32, u32)>) -> Option<(Seq<u8>, u32, u32)> {
    match r {
        Some((b, w, h)) => Some((b@, w, h)),
        None => None,
    }
}

/// The view of an optional string.
pub open spec fn text_view(t: Option<String>) -> Option<Seq<char>> {
    match t {
        Some(s) => Some(s@),
        None => None,
    }
}

/// The last showable frame of a sequence, if any.
pub open spec fn last_visible(frames: Seq<Option<Seq<u8>>>) -> Option<Seq<u8>>
    decreases frames.len(),
{
    if frames.len() == 0 {
        None
    } else if visible(frames.last()) {
        frames.last()
    } else {
        last_visible(frames.drop_last())
    }
}

/// The state right after the player was built from negotiated properties.
pub open spec fn initial_view(
    width: i32,
    height: i32,
    framerate: Fraction,
    duration: Option<u64>,
    options: VideoOptions,
) -> PlayerView {
    PlayerView {
        width,
        height,
        framerate,
        duration: match duration {
            Some(d) => d,
            None => 0,
        },
        speed: match options.speed {
            Some(s) => s,
            None => Rate::normal_spec(),
        },
        latest: None,
        frame_ready: false,
        buffered: Seq::empty(),
        capacity: match options.frame_buffer_capacity {
            Some(c) => c as nat,
            None => DEFAULT_FRAME_BUFFER_CAPACITY as nat,
        },
        looping: match options.looping {
            Some(l) => l,
            None => false,
        },
        eos: false,
        restart_requested: false,
        subtitle: None,
        subtitle_dirty: false,
        subtitle_clear_at: None,
        display_width: None,
        display_height: None,
    }
}

/// Building from negotiated properties: each of width, height and framerate
/// must be known, the framerate must be positive, and the initial rate must
/// not be zero.
pub open spec fn build(
    width: Option<i32>,
    height: Option<i32>,
    framerate: Option<Fraction>,
    duration: Option<u64>,
    options: VideoOptions,
) -> Result<PlayerView, Error> {
    if width is None || height is None || framerate is None {
        Err(Error::CapabilityMissing)
    } else if !positive_fraction(framerate.unwrap()) {
        Err(Error::InvalidFramerate { numer: framerate.unwrap().numer, denom: framerate.unwrap().denom })
    } else if options.speed is Some && zero_bits(options.speed.unwrap().bits) {
        Err(Error::OperationFailure)
    } else {
        Ok(initial_view(width.unwrap(), height.unwrap(), framerate.unwrap(), duration, options))
    }
}

/// Publishing a frame: it replaces the slot, goes to the back of the ring
/// buffer when buffering is on, and raises the ready flag.
pub open spec fn published(v: PlayerView, f: Option<Seq<u8>>) -> PlayerView {
    PlayerView {
        latest: f,
        frame_ready: true,
        buffered: if v.capacity > 0 {
            keep_last(v.buffered.push(f), v.capacity)
        } else {
            v.buffered
        },
        ..v
    }
}

/// The effect of a successful seek: no subtitle (reported as a change), no
/// buffered frames, no pending ready flag.
pub open spec fn seeked(v: PlayerView) -> PlayerView {
    PlayerView {
        subtitle: None,
        subtitle_dirty: true,
        buffered: Seq::empty(),
        frame_ready: false,
        ..v
    }
}

/// The seek that [`PlayerState::seek_command`] hands to the pipeline.
pub open spec fn plain_seek(v: PlayerView, position: Position, accurate: bool) -> SeekCommand {
    SeekCommand { rate: v.speed, accurate, start: position, stop: SeekStop::Open }
}

/// The seek that starts the stream over: to the first frame, snapping to a
/// key unit.
pub open spec fn restart_seek(v: PlayerView) -> SeekCommand {
    plain_seek(v, Position::Frame(0), false)
}

/// A change of rate needs the current position, and a rate of zero is
/// never handed to the pipeline.
pub open spec fn speed_change(speed: Rate, position: Option<u64>) -> Result<SeekCommand, Error> {
    match position {
        None => Err(Error::CapabilityMissing),
        Some(p) => if zero_bits(speed.bits) {
            Err(Error::OperationFailure)
        } else {
            Ok(rate_seek(speed, p))
        },
    }
}

/// The state after a pipeline event: end of stream is remembered, errors
/// change nothing.
pub open spec fn after_event(v: PlayerView, e: PipelineEvent) -> PlayerView {
    match e {
        PipelineEvent::EndOfStream => PlayerView { eos: true, ..v },
        PipelineEvent::Error(_) => v,
    }
}

/// Pausing or resuming: resuming at the end of the stream asks for a restart.
pub open spec fn paused_to(v: PlayerView, paused: bool) -> PlayerView {
    if v.eos && !paused {
        PlayerView { restart_requested: true, ..v }
    } else {
        v
    }
}

/// Starting over: the end of stream and any pending restart request are
/// cleared.
pub open spec fn restarted(v: PlayerView) -> PlayerView {
    PlayerView { eos: false, restart_requested: false, ..v }
}

/// A new buffer capacity, with the buffer trimmed from the front to fit.
pub open spec fn with_capacity(v: PlayerView, n: nat) -> PlayerView {
    PlayerView { capacity: n, buffered: keep_last(v.buffered, n), ..v }
}

/// What the pipeline should be set to.
#[derive(Clone, Copy, Debug, PartialEq, Eq, Structural)]
pub enum PlaybackTarget {
    Playing,
    Paused,
}

/// What the sampling worker does next.
#[derive(Clone, Copy, Debug, PartialEq, Eq, Structural)]
pub enum WorkerAction {
    /// The player is shutting down: leave the loop.
    Stop,
    /// A resume was requested at the end of the stream: start over.
    Restart,
    /// The stream has ended: sleep for a while, then check again.
    Idle,
    /// The pipeline is not playing yet: pull the preroll sample.
    PullPreroll,
    /// Pull the next sample.
    PullSample,
}

/// The worker's decision for one turn of its loop.
pub open spec fn next_action(v: PlayerView, alive: bool, playing: bool) -> WorkerAction {
    if !alive {
        WorkerAction::Stop
    } else if v.eos && v.restart_requested {
        WorkerAction::Restart
    } else if v.eos {
        WorkerAction::Idle
    } else if playing {
        WorkerAction::PullSample
    } else {
        WorkerAction::PullPreroll
    }
}

/// When a published video frame is presented: its presentation timestamp in
/// nanoseconds, and the running times at which it starts and ends (signed, as
/// the pipeline reports them, with -1 for an undefined time).
#[derive(Clone, Copy, Debug, PartialEq, Eq, Structural)]
pub struct FrameTiming {
    pub pts: u64,
    pub running_start: i64,
    pub running_end: i64,
}

/// A subtitle cue pulled from the text source: the running times at which it
/// starts and ends, the presentation time at which it is to be cleared, and
/// its text (none when it is not valid text).
#[derive(Debug)]
pub struct SubtitleCue {
    pub running_start: i64,
    pub running_end: i64,
    pub clear_at: u64,
    pub text: Option<String>,
}

/// A cue applies to a frame when their time ranges overlap.
pub open spec fn overlaps(frame: FrameTiming, cue_start: i64, cue_end: i64) -> bool {
    cue_end > frame.running_start && frame.running_end > cue_start
}

/// A scheduled clear takes effect once the frame's timestamp reaches it.
pub open spec fn clock_applied(v: PlayerView, pts: u64) -> PlayerView {
    match v.subtitle_clear_at {
        Some(at) => if pts >= at {
            PlayerView { subtitle: None, subtitle_dirty: true, subtitle_clear_at: None, ..v }
        } else {
            v
        },
        None => v,
    }
}

/// A cue with valid text that overlaps the frame becomes the subtitle, to be
/// cleared at its end.
pub open spec fn cue_applied(
    v: PlayerView,
    frame: FrameTiming,
    cue_start: i64,
    cue_end: i64,
    clear_at: u64,
    text: Option<Seq<char>>,
) -> PlayerView {
    if overlaps(frame, cue_start, cue_end) && text is Some {
        PlayerView {
            subtitle: text,
            subtitle_dirty: true,
            subtitle_clear_at: Some(clear_at),
            ..v
        }
    } else {
        v
    }
}

/// Taking the ready flag clears it.
pub open spec fn ready_taken(v: PlayerView) -> PlayerView {
    PlayerView { frame_ready: false, ..v }
}

/// Popping the oldest buffered frame.
pub open spec fn popped(v: PlayerView) -> PlayerView {
    if v.buffered.len() > 0 {
        PlayerView { buffered: v.buffered.drop_first(), ..v }
    } else {
        v
    }
}

/// What popping hands out: the oldest buffered frame, when it can be shown.
pub open spec fn pop_output(v: PlayerView) -> Option<(Seq<u8>, u32, u32)> {
    if v.buffered.len() > 0 {
        frame_output(v, v.buffered[0])
    } else {
        None
    }
}

/// The frame to render under the drain-to-latest policy: when frames are
/// buffered, all of them are taken and the newest showable one is kept;
/// otherwise the frame slot is read.
pub open spec fn latest_output(v: PlayerView) -> Option<(Seq<u8>, u32, u32)> {
    if v.buffered.len() > 0 {
        frame_output(v, last_visible(v.buffered))
    } else {
        slot_output(v)
    }
}

/// The state after draining: the ring buffer is empty.
pub open spec fn drained(v: PlayerView) -> PlayerView {
    PlayerView { buffered: Seq::empty(), ..v }
}

/// Reporting the changes flagged since the last report clears both flags.
pub open spec fn reported(v: PlayerView) -> PlayerView {
    PlayerView { frame_ready: false, subtitle_dirty: false, ..v }
}

/// The state shared between the sampling worker and the consumer: negotiated
/// facts, playback settings, the frame slot, the ring buffer, the subtitle
/// slot and the flags that signal changes between them.
#[derive(Debug)]
pub struct PlayerState {
    width: i32,
    height: i32,
    framerate: Fraction,
    duration: u64,
    speed: Rate,
    latest: Frame,
    frame_ready: bool,
    buffer: FrameBuffer,
    looping: bool,
    eos: bool,
    restart_requested: bool,
    subtitle: Option<String>,
    subtitle_dirty: bool,
    subtitle_clear_at: Option<u64>,
    display_width: Option<u32>,
    display_height: Option<u32>,
}

impl View for PlayerState {
    type V = PlayerView;

    closed spec fn view(&self) -> PlayerView {
        PlayerView {
            width: self.width,
            height: self.height,
            framerate: self.framerate,
            duration: self.duration,
            speed: self.speed,
            latest: self.latest@,
            frame_ready: self.frame_ready,
            buffered: self.buffer.frames(),
            capacity: self.buffer.capacity(),
            looping: self.looping,
            eos: self.eos,
            restart_requested: self.restart_requested,
            subtitle: text_view(self.subtitle),
            subtitle_dirty: self.subtitle_dirty,
            subtitle_clear_at: self.subtitle_clear_at,
            display_width: self.display_width,
            display_height: self.display_height,
        }
    }
}

impl PlayerState {
    pub open spec fn wf(&self) -> bool {
        self@.wf()
    }

    /// Builds the state from what the pipeline negotiated: width, height and
    /// framerate (each none when it could not be read) and the duration in
    /// nanoseconds (none when unknown, taken as zero).
    pub fn new(
        width: Option<i32>,
        height: Option<i32>,
        framerate: Option<Fraction>,
        duration: Option<u64>,
        options: &VideoOptions,
    ) -> (r: Result<PlayerState, Error>)
        ensures
            match r {
                Ok(s) => s.wf() && build(width, height, framerate, duration, *options) == Ok::<
                    PlayerView,
                    Error,
                >(s@),
                Err(e) => build(width, height, framerate, duration, *options) == Err::<
                    PlayerView,
                    Error,
                >(e),
            },
    {
        let (w, h, f) = match (width, height, framerate) {
            (Some(w), Some(h), Some(f)) => (w, h, f),
            _ => {
                return Err(Error::CapabilityMissing);
            },
        };
        if !f.is_positive() {
            return Err(Error::InvalidFramerate { numer: f.numer, denom: f.denom });
        }
        let speed = match options.speed {
            Some(s) => s,
            None => Rate::normal(),
        };
        if speed.is_zero() {
            return Err(Error::OperationFailure);
        }
        let capacity: usize = match options.frame_buffer_capacity {
            Some(c) => c,
            None => DEFAULT_FRAME_BUFFER_CAPACITY,
        };
        let s = PlayerState {
            width: w,
            height: h,
            framerate: f,
            duration: match duration {
                Some(d) => d,
                None => 0,
            },
            speed,
            latest: Frame::empty(),
            frame_ready: false,
            buffer: FrameBuffer::new(capacity),
            looping: match options.looping {
                Some(l) => l,
                None => false,
            },
            eos: false,
            restart_requested: false,
            subtitle: None,
            subtitle_dirty: false,
            subtitle_clear_at: None,
            display_width: None,
            display_height: None,
        };
        assert(s@ == initial_view(w, h, f, duration, *options));
        Ok(s)
    }

    /// The rate change to apply right after start-up, if the initial rate is
    /// not normal speed; `position` is the current position in nanoseconds,
    /// none when the pipeline cannot report it.
    pub fn initial_rate_command(&self, position: Option<u64>) -> (r: Result<
        Option<SeekCommand>,
        Error,
    >)
        ensures
            normal_speed_bits(self@.speed.bits) ==> r == Ok::<Option<SeekCommand>, Error>(None),
            !normal_speed_bits(self@.speed.bits) ==> match speed_change(self@.speed, position) {
                Ok(c) => r == Ok::<Option<SeekCommand>, Error>(Some(c)),
                Err(e) => r == Err::<Option<SeekCommand>, Error>(e),
            },
    {
        if self.speed.is_normal_speed() {
            return Ok(None);
        }
        match self.speed_command(self.speed, position) {
            Ok(c) => Ok(Some(c)),
            Err(e) => Err(e),
        }
    }

    /// The rate-change seek for `speed`, given the current position in
    /// nanoseconds (none when the pipeline cannot report it). Nothing changes
    /// until [`Self::finish_speed_change`] is told the seek succeeded.
    pub fn speed_command(&self, speed: Rate, position: Option<u64>) -> (r: Result<
        SeekCommand,
        Error,
    >)
        ensures
            r == speed_change(speed, position),
    {
        match position {
            None => Err(Error::CapabilityMissing),
            Some(p) => {
                if speed.is_zero() {
                    Err(Error::OperationFailure)
                } else {
                    Ok(rate_seek_command(speed, p))
                }
            },
        }
    }

    /// Records the outcome of a rate-change seek: on success `speed` becomes
    /// the playback rate; on failure nothing changes and the error is returned.
    /// A zero rate is refused as the pipeline would refuse it (no seek for it
    /// is ever built), and nothing changes.
    pub fn finish_speed_change(&mut self, speed: Rate, outcome: Result<(), Error>) -> (r: Result<
        (),
        Error,
    >)
        requires
            old(self).wf(),
        ensures
            final(self).wf(),
            zero_bits(speed.bits) ==> r == Err::<(), Error>(Error::OperationFailure),
            zero_bits(speed.bits) ==> final(self)@ == old(self)@,
            !zero_bits(speed.bits) ==> r == outcome,
            !zero_bits(speed.bits) && outcome is Ok ==> final(self)@ == (PlayerView {
                speed,
                ..old(self)@
            }),
            outcome is Err ==> final(self)@ == old(self)@,
    {
        if speed.is_zero() {
            return Err(Error::OperationFailure);
        }
        if outcome.is_ok() {
            self.speed = speed;
        }
        outcome
    }

    /// The flushing seek to `position` at the current rate.
    pub fn seek_command(&self, position: Position, accurate: bool) -> (r: SeekCommand)
        ensures
            r == plain_seek(self@, position, accurate),
    {
        SeekCommand { rate: self.speed, accurate, start: position, stop: SeekStop::Open }
    }

    /// Records the outcome of a seek. On success the subtitle is cleared (and
    /// reported as changed), the ring buffer is emptied so that no frame from
    /// before the seek is shown after it, and the ready flag is cleared, so
    /// that the next frame published is known to come after the seek. On
    /// failure nothing changes and the error is returned.
    pub fn finish_seek(&mut self, outcome: Result<(), Error>) -> (r: Result<(), Error>)
        requires
            old(self).wf(),
        ensures
            final(self).wf(),
            r == outcome,
            outcome is Ok ==> final(self)@ == seeked(old(self)@),
            outcome is Err ==> final(self)@ == old(self)@,
    {
        if outcome.is_ok() {
            self.subtitle = None;
            self.subtitle_dirty = true;
            self.buffer.clear();
            self.frame_ready = false;
        }
        outcome
    }

    /// Pauses or resumes. Resuming at the end of the stream asks for a
    /// restart instead of seeking here. Returns the state to set the pipeline to.
    pub fn set_paused(&mut self, paused: bool) -> (r: PlaybackTarget)
        requires
            old(self).wf(),
        ensures
            final(self).wf(),
            final(self)@ == paused_to(old(self)@, paused),
            r == (if paused {
                PlaybackTarget::Paused
            } else {
                PlaybackTarget::Playing
            }),
    {
        if self.eos && !paused {
            self.restart_requested = true;
        }
        if paused {
            PlaybackTarget::Paused
        } else {
            PlaybackTarget::Playing
        }
    }

    /// Starts the stream over: clears the end of stream and any pending
    /// restart request, and returns what the pipeline is to do, in order: be
    /// set playing (the restart unpauses), then run the seek to the start,
    /// whose outcome is passed to [`Self::finish_seek`].
    pub fn restart_stream(&mut self) -> (r: (PlaybackTarget, SeekCommand))
        requires
            old(self).wf(),
        ensures
            final(self).wf(),
            final(self)@ == restarted(old(self)@),
            r.0 == PlaybackTarget::Playing,
            r.1 == restart_seek(old(self)@),
    {
        self.eos = false;
        self.restart_requested = false;
        (PlaybackTarget::Playing, self.seek_command(Position::Frame(0), false))
    }

    /// Takes note of an event drained from the pipeline.
    pub fn handle_event(&mut self, event: &PipelineEvent)
        requires
            old(self).wf(),
        ensures
            final(self).wf(),
            final(self)@ == after_event(old(self)@, *event),
    {
        match event {
            PipelineEvent::EndOfStream => {
                self.eos = true;
            },
            PipelineEvent::Error(_) => {},
        }
    }

    /// What the worker does next, given whether the player is still alive and
    /// whether the pipeline is playing.
    pub fn worker_action(&self, alive: bool, playing: bool) -> (r: WorkerAction)
        ensures
            r == next_action(self@, alive, playing),
    {
        if !alive {
            WorkerAction::Stop
        } else if self.eos && self.restart_requested {
            WorkerAction::Restart
        } else if self.eos {
            WorkerAction::Idle
        } else if playing {
            WorkerAction::PullSample
        } else {
            WorkerAction::PullPreroll
        }
    }

    /// A copy of the frame slot's bytes with the negotiated width and height;
    /// none before the first frame or when the frame holds no bytes.
    pub fn current_frame_data(&self) -> (r: Option<(Vec<u8>, u32, u32)>)
        ensures
            output_view(r) == slot_output(self@),
    {
        self.frame_output(&self.latest)
    }

    /// The bytes of `frame` with the negotiated width and height, when it has
    /// bytes to show.
    fn frame_output(&self, frame: &Frame) -> (r: Option<(Vec<u8>, u32, u32)>)
        ensures
            output_view(r) == frame_output(self@, frame@),
    {
        match frame.readable() {
            Some(bytes) => {
                if bytes.len() > 0 {
                    Some((slice_to_vec(bytes), self.width as u32, self.height as u32))
                } else {
                    None
                }
            },
            None => None,
        }
    }

    /// Whether a frame was published since the flag was last taken.
    pub fn frame_ready(&self) -> (r: bool)
        ensures
            r == self@.frame_ready,
    {
        self.frame_ready
    }

    /// Reads and clears the ready flag: true once per publish at most.
    pub fn take_frame_ready(&mut self) -> (r: bool)
        requires
            old(self).wf(),
        ensures
            final(self).wf(),
            r == old(self)@.frame_ready,
            final(self)@ == ready_taken(old(self)@),
    {
        let r = self.frame_ready;
        self.frame_ready = false;
        r
    }

    /// Sets the ring buffer's capacity; zero disables buffering and empties
    /// it, a smaller capacity drops the oldest frames until it holds.
    pub fn set_frame_buffer_capacity(&mut self, capacity: usize)
        requires
            old(self).wf(),
        ensures
            final(self).wf(),
            final(self)@ == with_capacity(old(self)@, capacity as nat),
    {
        self.buffer.set_capacity(capacity);
    }

    /// The ring buffer's capacity.
    pub fn frame_buffer_capacity(&self) -> (r: usize)
        ensures
            r == self@.capacity,
    {
        self.buffer.capacity_value()
    }

    /// Removes the oldest buffered frame and returns its bytes with the
    /// negotiated width and height; none when the buffer is empty or that
    /// frame has no bytes to show.
    pub fn pop_buffered_frame(&mut self) -> (r: Option<(Vec<u8>, u32, u32)>)
        requires
            old(self).wf(),
        ensures
            final(self).wf(),
            output_view(r) == pop_output(old(self)@),
            final(self)@ == popped(old(self)@),
    {
        match self.buffer.pop_oldest() {
            Some(frame) => self.frame_output(&frame),
            None => None,
        }
    }

    /// Number of frames buffered.
    pub fn buffered_len(&self) -> (r: usize)
        ensures
            r == self@.buffered.len(),
    {
        self.buffer.len()
    }

    /// The frame to render now, catching up to the newest: when frames are
    /// buffered, all are taken and the newest showable one is returned;
    /// otherwise the frame slot is read.
    pub fn drain_to_latest(&mut self) -> (r: Option<(Vec<u8>, u32, u32)>)
        requires
            old(self).wf(),
        ensures
            final(self).wf(),
            output_view(r) == latest_output(old(self)@),
            old(self)@.buffered.len() > 0 ==> final(self)@ == drained(old(self)@),
            old(self)@.buffered.len() == 0 ==> final(self)@ == old(self)@,
    {
        let n = self.buffer.len();
        if n == 0 {
            return self.current_frame_data();
        }
        let ghost all = self@.buffered;
        let ghost start = self@;
        let mut out: Option<(Vec<u8>, u32, u32)> = None;
        let mut i: usize = 0;
        assert(all.subrange(0, n as int) =~= all);
        assert(self@ == (PlayerView { buffered: all.subrange(0, n as int), ..start }));
        while i < n
            invariant
                self.wf(),
                0 <= i <= n,
                n == all.len(),
                self@ == (PlayerView { buffered: all.subrange(i as int, n as int), ..start }),
                output_view(out) == frame_output(start, last_visible(all.subrange(0, i as int))),
            decreases n - i,
        {
            let popped = self.pop_buffered_frame();
            proof {
                let pre = all.subrange(0, i as int);
                let next = all.subrange(0, i + 1);
                assert(next.drop_last() =~= pre);
                assert(next.last() == all[i as int]);
                assert(all.subrange(i as int, n as int)[0] == all[i as int]);
                assert(all.subrange(i as int, n as int).drop_first() =~= all.subrange(
                    i + 1,
                    n as int,
                ));
            }
            if popped.is_some() {
                out = popped;
            }
            i = i + 1;
        }
        assert(all.subrange(0, n as int) =~= all);
        assert(self@.buffered =~= Seq::<Option<Seq<u8>>>::empty());
        out
    }

    /// Reports what changed since the last report, clearing both flags: a new
    /// frame first, then the subtitle text.
    pub fn take_player_events(&mut self) -> (r: Vec<VideoPlayerEvent>)
        requires
            old(self).wf(),
        ensures
            final(self).wf(),
            final(self)@ == reported(old(self)@),
            r@.len() == (if old(self)@.frame_ready { 1int } else { 0 }) + (if old(
                self,
            )@.subtitle_dirty {
                1int
            } else {
                0
            }),
            old(self)@.frame_ready ==> r@[0] is NewFrame,
            old(self)@.subtitle_dirty ==> (r@.last() matches VideoPlayerEvent::SubtitleText(t)
                && text_view(t) == old(self)@.subtitle),
    {
        let mut r: Vec<VideoPlayerEvent> = Vec::new();
        if self.frame_ready {
            r.push(VideoPlayerEvent::NewFrame);
            self.frame_ready = false;
        }
        if self.subtitle_dirty {
            let text = match &self.subtitle {
                Some(t) => Some(t.clone()),
                None => None,
            };
            r.push(VideoPlayerEvent::SubtitleText(text));
            self.subtitle_dirty = false;
        }
        r
    }

    /// Publishes a decoded frame: it replaces the slot whole, is copied to the
    /// back of the ring buffer when buffering is on (dropping the oldest frames
    /// beyond the capacity), and the ready flag is raised.
    pub fn publish_frame(&mut self, frame: Frame)
        requires
            old(self).wf(),
        ensures
            final(self).wf(),
            final(self)@ == published(old(self)@, frame@),
    {
        if self.buffer.capacity_value() > 0 {
            let copy = frame.duplicate();
            self.buffer.push_bounded(copy);
        }
        self.latest = frame;
        self.frame_ready = true;
    }

    /// Subtitle bookkeeping after a frame was published: first a scheduled
    /// clear whose time the frame has reached is applied, then a cue pulled
    /// from the text source (if any) is shown when its time range overlaps the
    /// frame's, and scheduled to be cleared at its end.
    pub fn sync_subtitles(&mut self, frame: FrameTiming, cue: Option<SubtitleCue>)
        requires
            old(self).wf(),
        ensures
            final(self).wf(),
            final(self)@ == (match cue {
                Some(c) => cue_applied(
                    clock_applied(old(self)@, frame.pts),
                    frame,
                    c.running_start,
                    c.running_end,
                    c.clear_at,
                    text_view(c.text),
                ),
                None => clock_applied(old(self)@, frame.pts),
            }),
    {
        if let Some(at) = self.subtitle_clear_at {
            if frame.pts >= at {
                self.subtitle = None;
                self.subtitle_dirty = true;
                self.subtitle_clear_at = None;
            }
        }
        if let Some(c) = cue {
            if c.running_end > frame.running_start && frame.running_end > c.running_start {
                if let Some(t) = c.text {
                    self.subtitle = Some(t);
                    self.subtitle_dirty = true;
                    self.subtitle_clear_at = Some(c.clear_at);
                }
            }
        }
    }
    /// The negotiated size, `(width, height)`.
    pub fn size(&self) -> (r: (i32, i32))
        ensures
            r == (self@.width, self@.height),
    {
        (self.width, self.height)
    }

    /// The negotiated framerate.
    pub fn framerate(&self) -> (r: Fraction)
        ensures
            r == self@.framerate,
    {
        self.framerate
    }

    /// The media duration in nanoseconds (zero when it was unknown).
    pub fn duration(&self) -> (r: u64)
        ensures
            r == self@.duration,
    {
        self.duration
    }

    /// The current playback rate.
    pub fn speed(&self) -> (r: Rate)
        ensures
            r == self@.speed,
    {
        self.speed
    }

    /// Whether the stream has ended.
    pub fn eos(&self) -> (r: bool)
        ensures
            r == self@.eos,
    {
        self.eos
    }

    /// Whether a restart was asked for by resuming at the end of the stream.
    pub fn restart_requested(&self) -> (r: bool)
        ensures
            r == self@.restart_requested,
    {
        self.restart_requested
    }

    /// Whether the media loops.
    pub fn looping(&self) -> (r: bool)
        ensures
            r == self@.looping,
    {
        self.looping
    }

    /// Sets whether the media loops.
    pub fn set_looping(&mut self, looping: bool)
        requires
            old(self).wf(),
        ensures
            final(self).wf(),
            final(self)@ == (PlayerView { looping, ..old(self)@ }),
    {
        self.looping = looping;
    }

    /// A copy of the current subtitle text.
    pub fn subtitle_text(&self) -> (r: Option<String>)
        ensures
            text_view(r) == self@.subtitle,
    {
        match &self.subtitle {
            Some(t) => Some(t.clone()),
            None => None,
        }
    }

    /// Sets or clears the display width override.
    pub fn set_display_width(&mut self, width: Option<u32>)
        requires
            old(self).wf(),
        ensures
            final(self).wf(),
            final(self)@ == (PlayerView { display_width: width, ..old(self)@ }),
    {
        self.display_width = width;
    }

    /// Sets or clears the display height override.
    pub fn set_display_height(&mut self, height: Option<u32>)
        requires
            old(self).wf(),
        ensures
            final(self).wf(),
            final(self)@ == (PlayerView { display_height: height, ..old(self)@ }),
    {
        self.display_height = height;
    }

    /// Sets or clears both display overrides.
    pub fn set_display_size(&mut self, width: Option<u32>, height: Option<u32>)
        requires
            old(self).wf(),
        ensures
            final(self).wf(),
            final(self)@ == (PlayerView {
                display_width: width,
                display_height: height,
                ..old(self)@
            }),
    {
        self.display_width = width;
        self.display_height = height;
    }

    /// The size to display at, honouring the overrides; see
    /// [`display_size_of`].
    pub fn display_size(&self) -> (r: (u32, u32))
        ensures
            r == display_size_of(
                self@.width,
                self@.height,
                self@.display_width,
                self@.display_height,
            ),
    {
        display_size(self.width, self.height, self.display_width, self.display_height)
    }
}

} // verus!
