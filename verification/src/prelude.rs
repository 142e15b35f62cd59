//! The things you're most likely to need when using the engine.

pub use crate::attrs::{resolve, Angle, Depth, Fill, SpriteData, StrokeWeight};
pub use crate::color::Color;
pub use crate::compose::compose;
pub use crate::geometry::{
    circle_geometry, geometry_for, rect_geometry, text_quad_geometry, texture_geometry,
    transform_for, triangle_geometry,
};
pub use crate::input::{Key, Keys, VirtualKey};
pub use crate::shape::{circle, rect, triangle, Circle, Contains, Point, Rect, Triangle};
pub use crate::sprite::{
    text, texture, texture_raw, DrawEntry, ImageFormat, Shape, Text, Texture,
};
pub use crate::spritemap::Spritemap;
pub use crate::state::GameState;
pub use crate::store::Store;
