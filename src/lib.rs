//! Kuramoto model of coupled phase oscillators: the oscillator state, its
//! synchronous (Jacobi-style) update, the per-step trajectory batches and the
//! decisions of the run loop that streams them to a writer.
//!
//! The library is generic over the phase type: the arithmetic of one update
//! (the coupling sum, the Euler step and the wrap into one turn) is handed in
//! by the caller as a function of the pre-step snapshot.
pub mod simulator;
pub mod run_loop;
pub mod trajectory;

pub use simulator::{ConfigurationError, Simulator};
pub use run_loop::{RunAction, RunEvent, RunLoop, RunStage};
pub use trajectory::TrajectoryBatch;
