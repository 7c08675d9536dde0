//! Seeded procedural noise behind a flat, handle-based calling surface.
//!
//! A [`NoiseSeed`] is created from a `u32` with [`noise_seed_new`], handed out as
//! an owned box, borrowed read-only by every evaluation, and reclaimed with
//! [`noise_seed_delete`]. The [`catalog`] module lists the noise functions
//! that can be evaluated against a seed, one entry per family, output mode,
//! metric and dimensionality.

pub mod catalog;
pub mod seed;

pub use catalog::{catalog, Algorithm, CellOutput, Entry, Metric};
pub use seed::{heap_mut_ptr, noise_seed_delete, noise_seed_new, NoiseSeed};
