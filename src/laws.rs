use vstd::prelude::*;
use crate::error::Error;
use crate::rate::{positive_fraction, Fraction, Rate};
use crate::state::{
    build, frame_output, paused_to, published, ready_taken, seeked, slot_output, speed_change,
    visible, with_capacity, PlayerView, VideoOptions,
};

verus! {

/// The state after publishing `frames` in order.
pub open spec fn published_all(v: PlayerView, frames: Seq<Option<Seq<u8>>>) -> PlayerView
    decreases frames.len(),
{
    if frames.len() == 0 {
        v
    } else {
        published(published_all(v, frames.drop_last()), frames.last())
    }
}

/// However many frames are published, the ring buffer never holds more than
/// its capacity, and the capacity itself does not move.
pub proof fn lemma_buffer_within_capacity(v: PlayerView, frames: Seq<Option<Seq<u8>>>)
    requires
        v.wf(),
    ensures
        published_all(v, frames).wf(),
        published_all(v, frames).capacity == v.capacity,
        published_all(v, frames).buffered.len() <= v.capacity,
    decreases frames.len(),
{
    if frames.len() > 0 {
        lemma_buffer_within_capacity(v, frames.drop_last());
    }
}

/// Setting a capacity trims the buffer to it at once, by dropping its oldest
/// frames: what stays is the newest part, in order.
pub proof fn lemma_capacity_trims_front(v: PlayerView, n: nat)
    requires
        v.wf(),
    ensures
        with_capacity(v, n).wf(),
        with_capacity(v, n).buffered.len() == if v.buffered.len() <= n {
            v.buffered.len()
        } else {
            n
        },
        with_capacity(v, n).buffered == v.buffered.subrange(
            v.buffered.len() - with_capacity(v, n).buffered.len(),
            v.buffered.len() as int,
        ),
{
    if v.buffered.len() <= n {
        assert(v.buffered.subrange(0, v.buffered.len() as int) =~= v.buffered);
    }
}

/// Reading the frame slot right after a publish gives back the published
/// bytes (when there are bytes to show), and reading does not change the state,
/// so every further read gives the same until the next publish.
pub proof fn lemma_publish_then_read(v: PlayerView, f: Option<Seq<u8>>)
    ensures
        visible(f) ==> slot_output(published(v, f)) == Some(
            (f.unwrap(), v.width as u32, v.height as u32),
        ),
        !visible(f) ==> slot_output(published(v, f)) is None,
        slot_output(published(v, f)) == frame_output(v, f),
{
}

/// After a publish the ready flag is taken once as true; taken again with no
/// publish in between, it is false.
pub proof fn lemma_ready_once_per_publish(v: PlayerView, f: Option<Seq<u8>>)
    ensures
        published(v, f).frame_ready,
        !ready_taken(published(v, f)).frame_ready,
        !ready_taken(ready_taken(published(v, f))).frame_ready,
{
}

/// A successful seek leaves an empty ring buffer and no pending ready flag,
/// whatever was buffered or pending before.
pub proof fn lemma_seek_clears(v: PlayerView)
    requires
        v.wf(),
    ensures
        seeked(v).wf(),
        seeked(v).buffered.len() == 0,
        !seeked(v).frame_ready,
        !ready_taken(seeked(v)).frame_ready,
{
}

/// A change of rate when the position cannot be queried fails with a missing
/// capability, before any seek is issued (building the rate-change seek reads
/// the state without changing it, so the rate stays as it was).
pub proof fn lemma_speed_needs_position(speed: Rate)
    ensures
        speed_change(speed, None) == Err::<crate::seek::SeekCommand, Error>(
            Error::CapabilityMissing,
        ),
{
}

/// A framerate is accepted exactly when, as a rational number, it is above
/// zero; otherwise building fails with the framerate error, whatever the other
/// properties are. A zero numerator is a zero rate, a zero denominator an
/// infinite or undefined one, and opposite signs a negative one.
pub proof fn lemma_build_rejects_bad_framerate(
    width: i32,
    height: i32,
    framerate: Fraction,
    duration: Option<u64>,
    options: VideoOptions,
)
    ensures
        positive_fraction(framerate) <==> framerate.numer as int * framerate.denom as int > 0,
        !positive_fraction(framerate) ==> build(
            Some(width),
            Some(height),
            Some(framerate),
            duration,
            options,
        ) == Err::<PlayerView, Error>(
            Error::InvalidFramerate { numer: framerate.numer, denom: framerate.denom },
        ),
{
    let n = framerate.numer as int;
    let d = framerate.denom as int;
    if n > 0 && d > 0 {
        assert(n * d > 0) by (nonlinear_arith)
            requires
                n > 0,
                d > 0,
        ;
    } else if n < 0 && d < 0 {
        assert(n * d > 0) by (nonlinear_arith)
            requires
                n < 0,
                d < 0,
        ;
    } else if n > 0 && d < 0 {
        assert(n * d < 0) by (nonlinear_arith)
            requires
                n > 0,
                d < 0,
        ;
    } else if n < 0 && d > 0 {
        assert(n * d < 0) by (nonlinear_arith)
            requires
                n < 0,
                d > 0,
        ;
    } else {
        assert(n * d == 0) by (nonlinear_arith)
            requires
                n == 0 || d == 0,
        ;
    }
}

/// A step of the interplay between the worker and the consumer that touches
/// the ready flag. Each step is one call, and [`after_step`] is exactly what
/// that call's contract says of the state: `PlayerState::publish_frame`
/// ensures [`published`], `PlayerState::take_frame_ready` ensures
/// [`ready_taken`] and returns the flag it found, and `PlayerState::finish_seek`
/// with a successful outcome ensures [`seeked`].
pub enum ReadyStep {
    /// The worker publishes a frame.
    Publish(Option<Seq<u8>>),
    /// The consumer takes the ready flag.
    Take,
    /// A seek succeeds.
    Seek,
}

/// The state after one step.
pub open spec fn after_step(v: PlayerView, s: ReadyStep) -> PlayerView {
    match s {
        ReadyStep::Publish(f) => published(v, f),
        ReadyStep::Take => ready_taken(v),
        ReadyStep::Seek => seeked(v),
    }
}

/// The state after the steps, in order.
pub open spec fn after_steps(v: PlayerView, steps: Seq<ReadyStep>) -> PlayerView
    decreases steps.len(),
{
    if steps.len() == 0 {
        v
    } else {
        after_step(after_steps(v, steps.drop_last()), steps.last())
    }
}

/// How many of the takes among the steps returned true (a take returns the
/// flag as it stood before it).
pub open spec fn true_takes(v: PlayerView, steps: Seq<ReadyStep>) -> nat
    decreases steps.len(),
{
    if steps.len() == 0 {
        0
    } else {
        true_takes(v, steps.drop_last()) + if steps.last() is Take && after_steps(
            v,
            steps.drop_last(),
        ).frame_ready {
            1nat
        } else {
            0nat
        }
    }
}

/// How many of the steps are publishes.
pub open spec fn publishes(steps: Seq<ReadyStep>) -> nat
    decreases steps.len(),
{
    if steps.len() == 0 {
        0
    } else {
        publishes(steps.drop_last()) + if steps.last() is Publish {
            1nat
        } else {
            0nat
        }
    }
}

/// A step that clears the ready flag.
pub open spec fn clears(s: ReadyStep) -> bool {
    s is Take || s is Seek
}

/// Over any history of publishes, takes and seeks, the takes that return
/// true are at most one per publish (counting a flag already raised at the
/// start as one); a flag still raised at the end counts against the same
/// publishes.
pub proof fn lemma_ready_at_most_once_per_publish(v: PlayerView, steps: Seq<ReadyStep>)
    ensures
        true_takes(v, steps) + (if after_steps(v, steps).frame_ready {
            1int
        } else {
            0
        }) <= publishes(steps) + (if v.frame_ready {
            1int
        } else {
            0
        }),
    decreases steps.len(),
{
    if steps.len() > 0 {
        lemma_ready_at_most_once_per_publish(v, steps.drop_last());
    }
}

/// After any history, the ready flag (what the next take returns) is raised
/// exactly when some publish came after every take and every successful seek,
/// or when it was raised at the start and no take or seek came at all.
pub proof fn lemma_ready_means_publish_since_clear(v: PlayerView, steps: Seq<ReadyStep>)
    ensures
        after_steps(v, steps).frame_ready <==> ((exists|i: int|
            0 <= i < steps.len() && #[trigger] steps[i] is Publish && forall|j: int|
                i < j < steps.len() ==> !clears(#[trigger] steps[j])) || (v.frame_ready
            && forall|j: int| 0 <= j < steps.len() ==> !clears(#[trigger] steps[j]))),
    decreases steps.len(),
{
    if steps.len() > 0 {
        let pre = steps.drop_last();
        let n = steps.len() - 1;
        lemma_ready_means_publish_since_clear(v, pre);
        assert forall|j: int| 0 <= j < n implies pre[j] == steps[j] by {}
        if steps.last() is Publish {
            assert(steps[n] is Publish);
            assert(forall|j: int| n < j < steps.len() ==> !clears(#[trigger] steps[j]));
        } else if clears(steps.last()) {
            assert(clears(steps[n]));
            if exists|i: int|
                0 <= i < steps.len() && #[trigger] steps[i] is Publish && forall|j: int|
                    i < j < steps.len() ==> !clears(#[trigger] steps[j]) {
                let i = choose|i: int|
                    0 <= i < steps.len() && #[trigger] steps[i] is Publish && forall|j: int|
                        i < j < steps.len() ==> !clears(#[trigger] steps[j]);
                if i < n {
                    assert(!clears(steps[n]));
                }
            }
        } else {
            assert(false);
        }
        if after_steps(v, pre).frame_ready && !clears(steps.last()) {
            if exists|i: int|
                0 <= i < pre.len() && #[trigger] pre[i] is Publish && forall|j: int|
                    i < j < pre.len() ==> !clears(#[trigger] pre[j]) {
                let i = choose|i: int|
                    0 <= i < pre.len() && #[trigger] pre[i] is Publish && forall|j: int|
                        i < j < pre.len() ==> !clears(#[trigger] pre[j]);
                assert(steps[i] is Publish);
                assert forall|j: int| i < j < steps.len() implies !clears(#[trigger] steps[j]) by {
                    if j < n {
                        assert(!clears(pre[j]));
                    }
                }
            }
        }
        if !after_steps(v, pre).frame_ready && !clears(steps.last()) {
            assert(steps[n] is Publish);
        }
        if clears(steps.last()) {
            assert(!(forall|j: int| 0 <= j < steps.len() ==> !clears(#[trigger] steps[j])));
        }
        if !clears(steps.last()) && (v.frame_ready && forall|j: int|
            0 <= j < pre.len() ==> !clears(#[trigger] pre[j])) {
            assert forall|j: int| 0 <= j < steps.len() implies !clears(#[trigger] steps[j]) by {
                if j < n {
                    assert(!clears(pre[j]));
                }
            }
        }
        if (v.frame_ready && forall|j: int| 0 <= j < steps.len() ==> !clears(#[trigger] steps[j])) {
            assert forall|j: int| 0 <= j < pre.len() implies !clears(#[trigger] pre[j]) by {
                assert(!clears(steps[j]));
            }
        }
        if exists|i: int|
            0 <= i < steps.len() && #[trigger] steps[i] is Publish && forall|j: int|
                i < j < steps.len() ==> !clears(#[trigger] steps[j]) {
            let i = choose|i: int|
                0 <= i < steps.len() && #[trigger] steps[i] is Publish && forall|j: int|
                    i < j < steps.len() ==> !clears(#[trigger] steps[j]);
            if i < n {
                assert(pre[i] is Publish);
                assert forall|j: int| i < j < pre.len() implies !clears(#[trigger] pre[j]) by {
                    assert(!clears(steps[j]));
                }
            }
        }
    }
}

/// With buffering on, publishing keeps the newest frames up to the capacity:
/// after `k` publishes the buffer holds as many as it held plus `k`, but no
/// more than the capacity.
pub proof fn lemma_buffered_after_publishes(v: PlayerView, frames: Seq<Option<Seq<u8>>>)
    requires
        v.wf(),
        v.capacity > 0,
    ensures
        published_all(v, frames).buffered.len() == if v.buffered.len() + frames.len()
            <= v.capacity {
            v.buffered.len() + frames.len()
        } else {
            v.capacity as nat
        },
    decreases frames.len(),
{
    if frames.len() > 0 {
        lemma_buffered_after_publishes(v, frames.drop_last());
        lemma_buffer_within_capacity(v, frames.drop_last());
    }
}

/// Buffering resumes once the capacity is raised again: from an empty buffer
/// of capacity zero, raising it to `n > 0` and publishing `k` frames leaves
/// `min(k, n)` of them buffered.
pub proof fn lemma_buffering_resumes(v: PlayerView, n: nat, frames: Seq<Option<Seq<u8>>>)
    requires
        v.wf(),
        v.capacity == 0,
        n > 0,
    ensures
        published_all(with_capacity(v, n), frames).buffered.len() == if frames.len() <= n {
            frames.len()
        } else {
            n
        },
{
    assert(v.buffered.len() == 0);
    lemma_buffered_after_publishes(with_capacity(v, n), frames);
}

/// Pausing does not empty the frame slot: reading it after a publish and a
/// pause (or a resume) gives what it gave before, so a decoded frame with bytes
/// is still there to show.
pub proof fn lemma_pause_keeps_frame(v: PlayerView, f: Option<Seq<u8>>, paused: bool)
    ensures
        slot_output(paused_to(published(v, f), paused)) == slot_output(published(v, f)),
        visible(f) ==> slot_output(paused_to(published(v, f), paused)) == Some(
            (f.unwrap(), v.width as u32, v.height as u32),
        ),
{
}

} // verus!
