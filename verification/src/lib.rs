//! A noise gate: a streaming filter that forwards the loud spans of an audio
//! stream to a consumer and drops the silence between them.

pub mod frame;
pub mod gate;
pub mod laws;
pub mod sample;
pub mod sink;
pub mod state;

pub use frame::{below_threshold, Frame};
pub use gate::NoiseGate;
pub use sample::{abs, Sample};
pub use sink::{Event, Sink};
pub use state::{next_state, State};
