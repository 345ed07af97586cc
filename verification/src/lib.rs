//! A verified two-player Pong match simulator.
//!
//! The simulator owns two paddles, one ball and a score pair, and advances
//! them by a fixed set of rules once per tick. All geometry is kept in
//! integer subpixels (thousandths of a pixel) and elapsed time in whole
//! milliseconds, so every rule is exact integer arithmetic. A host loop
//! (windowing, input sampling, rendering) drives the simulator from outside.

pub mod sim;
pub mod laws;
mod rng;

pub use sim::GameState;
pub use sim::InputState;
