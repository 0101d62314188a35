//! Verified core of a batched immediate-mode 2D renderer.
//!
//! The crate accepts a stream of per-frame draw calls (rectangles, textured
//! quads, text quads), groups them by compatible GPU pipeline state, and emits
//! one GPU draw submission per maximal run of same-kind draws while preserving
//! the order in which the draws were issued.  The GPU itself, the window
//! system, font rasterization and audio playback are external collaborators:
//! the engine encodes everything it wants from the GPU as a queue of plain
//! commands that a thin unverified driver executes.

pub mod batch;
pub mod engine;
pub mod geom;
pub mod input;
pub mod sound;
pub mod text;
pub mod types;
