//! A lightweight 2D sprite engine core: colors, shapes, attribute
//! resolution, depth-ordered frame composition, geometry generation
//! and text layout, with machine-checked contracts.
//!
//! Device-facing floating-point work (trigonometry, GPU buffers,
//! window and audio backends) lives outside this crate; everything
//! here is stated and proved over exact integer arithmetic.

pub mod attrs;
pub mod color;
pub mod compose;
pub mod coords;
pub mod geometry;
pub mod input;
pub mod prelude;
pub mod shape;
pub mod sprite;
pub mod spritemap;
pub mod state;
pub mod store;
pub mod textlayout;
