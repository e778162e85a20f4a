//! The noise gate and its drive loop.

use vstd::prelude::*;
use crate::frame::{is_silent, Frame};
use crate::sample::Sample;
use crate::sink::{reaction, Event, Sink};
use crate::state::{next_state, transition, State};

verus! {

/// A noise gate: splits a stream of audio by volume, skipping periods of
/// silence.
#[derive(Debug, Clone, PartialEq)]
pub struct NoiseGate<S> {
    /// The volume level at which the noise gate will open (begin recording).
    pub open_threshold: S,
    /// The amount of time (in samples) the noise gate takes to go from open to
    /// fully closed.
    pub release_time: usize,
    state: State,
}

/// What a [`NoiseGate`] holds, as contracts see it.
pub ghost struct GateView<S> {
    /// The configured threshold.
    pub open_threshold: S,
    /// The configured release time, in frames.
    pub release_time: usize,
    /// The automaton state carried from one frame to the next.
    pub state: State,
}

impl<S> View for NoiseGate<S> {
    type V = GateView<S>;

    closed spec fn view(&self) -> GateView<S> {
        GateView {
            open_threshold: self.open_threshold,
            release_time: self.release_time,
            state: self.state,
        }
    }
}

/// The state that a run of frames leaves behind, starting from `state`.
pub open spec fn run<F: Frame>(
    state: State,
    frames: Seq<F>,
    threshold: F::Sample,
    release_time: usize,
) -> State
    decreases frames.len(),
{
    if frames.len() == 0 {
        state
    } else {
        transition(
            run(state, frames.drop_last(), threshold, release_time),
            is_silent(frames.last(), threshold),
            release_time,
        )
    }
}

/// The calls that a run of frames makes on the sink, in order, starting from
/// `state`: for each frame in turn, its [`reaction`], if it has one.
pub open spec fn emitted<F: Frame>(
    state: State,
    frames: Seq<F>,
    threshold: F::Sample,
    release_time: usize,
) -> Seq<Event<F>>
    decreases frames.len(),
{
    if frames.len() == 0 {
        Seq::empty()
    } else {
        let before = run(state, frames.drop_last(), threshold, release_time);
        let after = transition(before, is_silent(frames.last(), threshold), release_time);
        let earlier = emitted(state, frames.drop_last(), threshold, release_time);
        match reaction(before, after, frames.last()) {
            Some(event) => earlier.push(event),
            None => earlier,
        }
    }
}

impl<S> NoiseGate<S> {
    /// Create a new gate. It starts out closed.
    pub fn new(open_threshold: S, release_time: usize) -> (gate: Self)
        ensures
            gate@.open_threshold == open_threshold,
            gate@.release_time == release_time,
            gate@.state == State::Closed,
    {
        NoiseGate { open_threshold, release_time, state: State::Closed }
    }

    /// Is the noise gate currently passing samples through to the sink?
    pub fn is_open(&self) -> (open: bool)
        ensures
            open == (self@.state is Open || self@.state is Closing),
            open == self@.state.passes(),
    {
        match self.state {
            State::Open | State::Closing { .. } => true,
            State::Closed => false,
        }
    }

    /// Is the noise gate currently ignoring silence?
    pub fn is_closed(&self) -> (closed: bool)
        ensures
            closed == (self@.state is Closed),
            closed == !self@.state.passes(),
    {
        !self.is_open()
    }

    /// Takes the noise gate through one frame that the caller has already
    /// judged silent or not, and says what to tell the sink about it.
    pub fn step<F>(&mut self, frame: F, silent: bool) -> (event: Option<Event<F>>)
        ensures
            final(self)@.state == transition(old(self)@.state, silent, old(self)@.release_time),
            final(self)@.open_threshold == old(self)@.open_threshold,
            final(self)@.release_time == old(self)@.release_time,
            event == reaction(old(self)@.state, final(self)@.state, frame),
    {
        let previously_open = self.is_open();
        self.state = self.state.after(silent, self.release_time);
        if self.is_open() {
            Some(Event::Record(frame))
        } else if previously_open {
            Some(Event::EndOfTransmission)
        } else {
            None
        }
    }
}

impl<S: Sample> NoiseGate<S> {
    /// Process a batch of frames, passing spans of noise through to a `sink`.
    ///
    /// Each frame in turn moves the state on by one transition. A frame that
    /// leaves the noise gate passing is handed to `sink.record`; a frame that
    /// shuts it is answered with one `sink.end_of_transmission`. The state is
    /// kept for the next batch, and a batch that ends while frames still
    /// pass ends without `end_of_transmission`.
    ///
    /// Nothing can be said of what a sink does when called. What is returned
    /// is the list of the calls made on it, in order: a ghost value, kept
    /// beside each call as it is made.
    pub fn process_frames<K, F>(&mut self, frames: &[F], sink: &mut K) -> (calls: Ghost<
        Seq<Event<F>>,
    >) where F: Frame<Sample = S>, K: Sink<F>
        ensures
            final(self)@.state == run(
                old(self)@.state,
                frames@,
                old(self)@.open_threshold,
                old(self)@.release_time,
            ),
            final(self)@.open_threshold == old(self)@.open_threshold,
            final(self)@.release_time == old(self)@.release_time,
            calls@ == emitted(
                old(self)@.state,
                frames@,
                old(self)@.open_threshold,
                old(self)@.release_time,
            ),
    {
        let ghost start = self@;
        let ghost mut made: Seq<Event<F>> = Seq::empty();
        let mut idx: usize = 0;
        while idx < frames.len()
            invariant
                idx <= frames.len(),
                self@.open_threshold == start.open_threshold,
                self@.release_time == start.release_time,
                self@.state == run(
                    start.state,
                    frames@.take(idx as int),
                    start.open_threshold,
                    start.release_time,
                ),
                made == emitted(
                    start.state,
                    frames@.take(idx as int),
                    start.open_threshold,
                    start.release_time,
                ),
            decreases frames.len() - idx,
        {
            let frame = frames[idx];
            proof {
                let upto = frames@.take(idx as int + 1);
                assert(upto.drop_last() == frames@.take(idx as int));
                assert(upto.last() == frame);
            }
            let previously_open = self.is_open();
            self.state = next_state(self.state, frame, self.open_threshold, self.release_time);
            if self.is_open() {
                sink.record(frame);
                proof {
                    made = made.push(Event::Record(frame));
                }
            } else if previously_open {
                // the noise gate was previously open and has just closed
                sink.end_of_transmission();
                proof {
                    made = made.push(Event::EndOfTransmission);
                }
            }
            idx += 1;
        }
        assert(frames@.take(idx as int) == frames@);
        Ghost(made)
    }
}

} // verus!
