//! A terminal "digital rain" animation engine.
//!
//! The library holds the verified core of the animation: cells, columns and
//! the grid of columns, the per-frame state machine that spawns and decays
//! glyph streams, the two downward-shift policies, the computation of render
//! operations for a frame, and a small deterministic generator. Terminal
//! setup, signal handling and argument parsing live outside the library and
//! drive it through plain values.

pub mod block;
pub mod column;
pub mod config;
pub mod laws;
pub mod matrix;
pub mod randxor;
pub mod rng;
pub mod term;

pub use block::Block;
pub use block::Color;
pub use column::Column;
pub use config::Config;
pub use matrix::DrawOp;
pub use matrix::Matrix;
pub use randxor::RandXor;
