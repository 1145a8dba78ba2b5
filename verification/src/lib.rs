//! Headless RGBA snapshots, pure RGBA8 comparison, and the decision logic of
//! PNG-backed visual regression tests.

pub mod comparison;
pub mod comparison_laws;
pub mod frame;
pub mod png_codec;
pub mod runtime;
pub mod testing;
mod text;

pub use comparison::{compare, ComparisonOutcome, ComparisonPolicy, RgbaView};
pub use frame::RenderedFrame;
