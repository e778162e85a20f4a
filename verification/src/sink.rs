//! The consumer that the noise gate reports to.

use vstd::prelude::*;
use crate::state::State;

verus! {

/// A consumer of frames.
///
/// The noise gate never reads a sink; it only tells it things. Both calls
/// are free to do anything: write to disk, count, buffer.
pub trait Sink<F> {
    /// Add a frame to the current recording, starting a new recording if
    /// necessary.
    fn record(&mut self, frame: F);

    /// The current recording is over: do the necessary cleanup (e.g. flush
    /// to disk).
    fn end_of_transmission(&mut self);
}

/// One call made on a [`Sink`].
#[derive(Debug, Copy, Clone, PartialEq, Eq)]
pub enum Event<F> {
    /// `record`, with this frame.
    Record(F),
    /// `end_of_transmission`.
    EndOfTransmission,
}

/// What one frame makes the noise gate tell its sink, given the state before
/// the frame and the state after it.
///
/// A frame that leaves the noise gate passing is recorded, the frames of the
/// closing countdown included. A frame that shuts a passing gate ends the
/// transmission. A frame that finds the noise gate closed and leaves it
/// closed goes unreported.
pub open spec fn reaction<F>(before: State, after: State, frame: F) -> Option<Event<F>> {
    if after.passes() {
        Some(Event::Record(frame))
    } else if before.passes() {
        Some(Event::EndOfTransmission)
    } else {
        None
    }
}

} // verus!
