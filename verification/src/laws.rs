//! What holds of every run of frames.

use vstd::prelude::*;
use crate::frame::{is_silent, Frame};
use crate::gate::{emitted, run};
use crate::sink::Event;
use crate::state::{transition, State};

verus! {

/// A countdown never grows. Whenever a transition ends in `Closing`, either
/// the noise gate was open and the countdown starts at the release time, or
/// a countdown was running and is now one shorter. A closed gate never
/// starts one.
pub proof fn lemma_countdown_only_starts_or_shrinks(
    state: State,
    silent: bool,
    release_time: usize,
)
    ensures
        transition(state, silent, release_time) matches State::Closing { remaining_samples: left }
            ==> silent && match state {
            State::Open => left == release_time,
            State::Closing { remaining_samples } => left + 1 == remaining_samples,
            State::Closed => false,
        },
{
}

/// Signal during a countdown throws the countdown away: when silence
/// returns, it starts again from the full release time, however little was
/// left before.
pub proof fn lemma_reopening_resets_countdown<F: Frame>(
    left: usize,
    loud: F,
    quiet: F,
    threshold: F::Sample,
    release_time: usize,
)
    requires
        !is_silent(loud, threshold),
        is_silent(quiet, threshold),
    ensures
        run(State::Closing { remaining_samples: left }, seq![loud], threshold, release_time)
            == State::Open,
        run(
            State::Closing { remaining_samples: left },
            seq![loud, quiet],
            threshold,
            release_time,
        ) == (State::Closing { remaining_samples: release_time }),
{
    let start = State::Closing { remaining_samples: left };
    let one = seq![loud];
    let two = seq![loud, quiet];
    assert(one.drop_last() == Seq::<F>::empty());
    assert(two.drop_last() == one);
    assert(one.last() == loud);
    assert(two.last() == quiet);
    assert(run(start, Seq::<F>::empty(), threshold, release_time) == start);
    assert(run(start, one, threshold, release_time) == State::Open);
}

/// Cutting a stream into batches changes nothing: the second batch starts
/// from the state that the first one left, and the calls of the two batches,
/// one after the other, are the calls of the whole.
pub proof fn lemma_batches_compose<F: Frame>(
    state: State,
    first: Seq<F>,
    second: Seq<F>,
    threshold: F::Sample,
    release_time: usize,
)
    ensures
        run(state, first + second, threshold, release_time) == run(
            run(state, first, threshold, release_time),
            second,
            threshold,
            release_time,
        ),
        emitted(state, first + second, threshold, release_time) == emitted(
            state,
            first,
            threshold,
            release_time,
        ) + emitted(run(state, first, threshold, release_time), second, threshold, release_time),
    decreases second.len(),
{
    if second.len() == 0 {
        assert(first + second == first);
    } else {
        let whole = first + second;
        assert(whole.drop_last() == first + second.drop_last());
        assert(whole.last() == second.last());
        lemma_batches_compose(state, first, second.drop_last(), threshold, release_time);
    }
}

/// A stream of nothing but silence, met by a closed gate, leaves it closed
/// and makes no call on the sink at all.
pub proof fn lemma_silence_makes_no_calls<F: Frame>(
    frames: Seq<F>,
    threshold: F::Sample,
    release_time: usize,
)
    requires
        forall|i: int| 0 <= i < frames.len() ==> is_silent(#[trigger] frames[i], threshold),
    ensures
        run(State::Closed, frames, threshold, release_time) == State::Closed,
        emitted(State::Closed, frames, threshold, release_time) == Seq::<Event<F>>::empty(),
    decreases frames.len(),
{
    if frames.len() > 0 {
        let earlier = frames.drop_last();
        assert forall|i: int| 0 <= i < earlier.len() implies is_silent(
            #[trigger] earlier[i],
            threshold,
        ) by {
            assert(earlier[i] == frames[i]);
        }
        lemma_silence_makes_no_calls(earlier, threshold, release_time);
        assert(is_silent(frames[frames.len() - 1], threshold));
    }
}

/// The last call on the sink tells where the noise gate stands. After any
/// run, frames pass exactly if the last call was a `record`; where the run
/// made no call, the noise gate passes exactly if it did before.
pub proof fn lemma_last_call_tells_state<F: Frame>(
    state: State,
    frames: Seq<F>,
    threshold: F::Sample,
    release_time: usize,
)
    ensures
        ({
            let calls = emitted(state, frames, threshold, release_time);
            run(state, frames, threshold, release_time).passes() == if calls.len() == 0 {
                state.passes()
            } else {
                calls.last() is Record
            }
        }),
    decreases frames.len(),
{
    if frames.len() > 0 {
        lemma_last_call_tells_state(state, frames.drop_last(), threshold, release_time);
    }
}

/// A stream that ends while frames still pass ends without
/// `end_of_transmission`: its last frame was recorded, and that `record` is
/// the last call made.
pub proof fn lemma_open_end_has_no_trailing_end<F: Frame>(
    state: State,
    frames: Seq<F>,
    threshold: F::Sample,
    release_time: usize,
)
    requires
        frames.len() > 0,
        run(state, frames, threshold, release_time).passes(),
    ensures
        emitted(state, frames, threshold, release_time).len() > 0,
        emitted(state, frames, threshold, release_time).last() == Event::Record(frames.last()),
{
}

/// Every `end_of_transmission` closes a recording: the call just before it
/// is a `record`. The one exception is an `end_of_transmission` that is the
/// first call of a run, which closes a recording that was under way when the
/// run began.
pub proof fn lemma_end_follows_record<F: Frame>(
    state: State,
    frames: Seq<F>,
    threshold: F::Sample,
    release_time: usize,
    at: int,
)
    requires
        0 <= at < emitted(state, frames, threshold, release_time).len(),
        emitted(state, frames, threshold, release_time)[at] is EndOfTransmission,
    ensures
        if at == 0 {
            state.passes()
        } else {
            emitted(state, frames, threshold, release_time)[at - 1] is Record
        },
    decreases frames.len(),
{
    let earlier = emitted(state, frames.drop_last(), threshold, release_time);
    if at < earlier.len() {
        lemma_end_follows_record(state, frames.drop_last(), threshold, release_time, at);
    } else {
        lemma_last_call_tells_state(state, frames.drop_last(), threshold, release_time);
    }
}

/// With a release time of zero, one silent frame after signal is still
/// recorded, and the next one closes: from an open gate, two silent frames
/// in a row give one `record`, of the first, and then `end_of_transmission`.
pub proof fn lemma_zero_release_closes_on_second_silent_frame<F: Frame>(
    first: F,
    second: F,
    threshold: F::Sample,
)
    requires
        is_silent(first, threshold),
        is_silent(second, threshold),
    ensures
        run(State::Open, seq![first], threshold, 0) == (State::Closing { remaining_samples: 0 }),
        run(State::Open, seq![first, second], threshold, 0) == State::Closed,
        emitted(State::Open, seq![first, second], threshold, 0) == seq![
            Event::Record(first),
            Event::EndOfTransmission,
        ],
{
    let one = seq![first];
    let two = seq![first, second];
    assert(one.drop_last() == Seq::<F>::empty());
    assert(two.drop_last() == one);
    assert(one.last() == first);
    assert(two.last() == second);
    assert(run(State::Open, Seq::<F>::empty(), threshold, 0) == State::Open);
    assert(run(State::Open, one, threshold, 0) == (State::Closing { remaining_samples: 0 }));
    assert(emitted(State::Open, Seq::<F>::empty(), threshold, 0) == Seq::<Event<F>>::empty());
    assert(emitted(State::Open, one, threshold, 0) == Seq::<Event<F>>::empty().push(
        Event::Record(first),
    ));
}

} // verus!
