//! The three-state hysteresis automaton.

use vstd::prelude::*;
use crate::frame::{below_threshold, is_silent, Frame};

verus! {

/// Where the noise gate stands between two frames.
#[derive(Debug, Copy, Clone, PartialEq, Eq)]
pub enum State {
    /// Signal is present and frames pass through.
    Open,
    /// Signal has dropped away; frames still pass through while the
    /// countdown runs.
    Closing {
        /// How many more silent frames pass before the noise gate closes.
        remaining_samples: usize,
    },
    /// Frames are dropped.
    Closed,
}

/// The transition table: the state after one frame, given whether that frame
/// was silent.
///
/// Any frame that carries signal opens the noise gate, whatever went before.
/// A silent frame starts the countdown at `release_time` when the noise gate
/// is open, steps a running countdown down by one, closes the noise gate
/// when the countdown has run out, and leaves a closed gate closed.
pub open spec fn transition(state: State, silent: bool, release_time: usize) -> State {
    if !silent {
        State::Open
    } else {
        match state {
            State::Open => State::Closing { remaining_samples: release_time },
            State::Closing { remaining_samples } => if remaining_samples == 0 {
                State::Closed
            } else {
                State::Closing { remaining_samples: (remaining_samples - 1) as usize }
            },
            State::Closed => State::Closed,
        }
    }
}

impl State {
    /// Whether frames pass through in this state: they do while it is `Open`
    /// or `Closing`.
    pub open spec fn passes(self) -> bool {
        self !is Closed
    }

    /// The state after a frame that is already known to be silent or not.
    pub fn after(self, silent: bool, release_time: usize) -> (next: State)
        ensures
            next == transition(self, silent, release_time),
    {
        match self {
            State::Open => {
                if silent {
                    State::Closing { remaining_samples: release_time }
                } else {
                    State::Open
                }
            },
            State::Closing { remaining_samples } => {
                if silent {
                    if remaining_samples == 0 {
                        State::Closed
                    } else {
                        State::Closing { remaining_samples: remaining_samples - 1 }
                    }
                } else {
                    State::Open
                }
            },
            State::Closed => {
                if silent {
                    State::Closed
                } else {
                    State::Open
                }
            },
        }
    }
}

/// The state after one frame.
///
/// The frame is tested against the threshold and the transition table is
/// applied to the outcome. In particular, a frame with signal always leaves
/// the state `Open`, and a silent frame during a countdown steps it down by
/// one, or closes once it has reached zero.
pub fn next_state<F: Frame>(
    state: State,
    frame: F,
    open_threshold: F::Sample,
    release_time: usize,
) -> (next: State)
    ensures
        next == transition(state, is_silent(frame, open_threshold), release_time),
        !is_silent(frame, open_threshold) ==> next == State::Open,
        is_silent(frame, open_threshold) ==> (match state {
            State::Open => next == (State::Closing { remaining_samples: release_time }),
            State::Closing { remaining_samples } => if remaining_samples > 0 {
                next == (State::Closing {
                    remaining_samples: (remaining_samples - 1) as usize,
                })
            } else {
                next == State::Closed
            },
            State::Closed => next == State::Closed,
        }),
{
    state.after(below_threshold(frame, open_threshold), release_time)
}

} // verus!
