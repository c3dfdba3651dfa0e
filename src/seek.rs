use vstd::prelude::*;
use crate::rate::Rate;

verus! {

/// A position in the media.
#[derive(Clone, Copy, Debug, PartialEq, Eq, Structural)]
pub enum Position {
    /// A time offset, in nanoseconds.
    Time(u64),
    /// The index of a frame.
    Frame(u64),
}

impl From<u64> for Position {
    fn from(f: u64) -> (r: Position) {
        Position::Frame(f)
    }
}

impl vstd::std_specs::convert::FromSpecImpl<u64> for Position {
    open spec fn obeys_from_spec() -> bool {
        true
    }

    open spec fn from_spec(f: u64) -> Position {
        Position::Frame(f)
    }
}

impl Position {
    /// The position `nanos` nanoseconds into the media.
    pub fn from_nanos(nanos: u64) -> (r: Position)
        ensures
            r == Position::Time(nanos),
    {
        Position::Time(nanos)
    }
}

/// Where a seek's playback segment ends.
#[derive(Clone, Copy, Debug, PartialEq, Eq, Structural)]
pub enum SeekStop {
    /// No end is set: play on to wherever the stream ends.
    Open,
    /// Exactly at the end of the stream.
    StreamEnd,
    /// At the given position.
    At(Position),
}

/// A flushing seek to hand to the pipeline: discard what is in flight, play
/// from `start` to `stop` at `rate`. An accurate seek lands on the exact
/// position; an inaccurate one snaps to the nearest key unit.
#[derive(Clone, Copy, Debug, PartialEq, Eq, Structural)]
pub struct SeekCommand {
    pub rate: Rate,
    pub accurate: bool,
    pub start: Position,
    pub stop: SeekStop,
}

/// The segment that a change of rate must set, so that it agrees with the
/// direction of playback: forwards from the current position to the end of the
/// stream, backwards from the current position to its start.
pub open spec fn rate_seek(rate: Rate, position: u64) -> SeekCommand {
    if crate::rate::forward_bits(rate.bits) {
        SeekCommand {
            rate,
            accurate: true,
            start: Position::Time(position),
            stop: SeekStop::StreamEnd,
        }
    } else {
        SeekCommand {
            rate,
            accurate: true,
            start: Position::Time(0),
            stop: SeekStop::At(Position::Time(position)),
        }
    }
}

/// Builds [`rate_seek`].
pub fn rate_seek_command(rate: Rate, position: u64) -> (r: SeekCommand)
    ensures
        r == rate_seek(rate, position),
{
    if rate.is_forward() {
        SeekCommand {
            rate,
            accurate: true,
            start: Position::Time(position),
            stop: SeekStop::StreamEnd,
        }
    } else {
        SeekCommand {
            rate,
            accurate: true,
            start: Position::Time(0),
            stop: SeekStop::At(Position::Time(position)),
        }
    }
}

} // verus!
