//! Core logic of an osu! difficulty and performance calculator.
//!
//! The crate models charts with plain integer values (times in
//! milliseconds, positions in playfield units) and verifies the parts
//! of the pipeline that are exact integer computations: the pre-flight
//! suspicion check that rejects pathological charts, the reconstruction
//! of hit-result breakdowns from a target accuracy, the visual
//! stacking resolution applied to chart objects, and the decoding of
//! the modifier bitset.

pub mod chart;
pub mod hitresults;
pub mod mods;
pub mod stacking;
pub mod suspicious;
pub mod taiko;
mod util;

pub use util::i32_unwrap_or;
