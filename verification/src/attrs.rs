//! Sprite attribute components and the per-frame attribute resolver.
//!
//! A drawable entity may carry any subset of the optional attribute
//! components; every frame the resolver flattens whatever is attached
//! into one complete [`SpriteData`] record, starting from the
//! documented defaults and overwriting a field exactly where the
//! matching component is present. An entity without a position is not
//! drawn at all.
//!
//! Angles are carried in millidegrees (thousandths of a degree), the
//! crate's exact stand-in for fractional degrees; the device-facing
//! caller divides by 1000 when it builds its rotation matrix.

use vstd::prelude::*;

use crate::color::Color;
use crate::shape::Point;

verus! {

/// A sprite's depth. `0` hides the sprite; higher values draw
/// further back. Defaults to `1`.
#[derive(Debug, Clone, Copy, PartialEq, Eq, Structural, PartialOrd, Ord)]
pub struct Depth(pub u32);

/// The rotation of a sprite, in millidegrees (clockwise-positive).
/// Defaults to `0`.
#[derive(Debug, Clone, Copy, PartialEq, Eq, Structural, PartialOrd, Ord)]
pub struct Angle(pub i64);

/// Whether or not to fill the sprite (only for shapes).
/// Defaults to `true`.
#[derive(Debug, Clone, Copy, PartialEq, Eq, Structural, PartialOrd, Ord)]
pub struct Fill(pub bool);

/// The weight of the outline if not filled (only for shapes).
/// Defaults to `4`.
#[derive(Debug, Clone, Copy, PartialEq, Eq, Structural, PartialOrd, Ord)]
pub struct StrokeWeight(pub u32);

/// The fully-resolved data required to draw one sprite.
#[derive(Debug, Clone, Copy, PartialEq, Eq, Structural)]
pub struct SpriteData {
    /// The horizontal position of the sprite. Defaults to `0`.
    pub x: i32,
    /// The vertical position of the sprite. Defaults to `0`.
    pub y: i32,
    /// The z-level of the sprite. `0` hides it. Defaults to `1`.
    pub depth: u32,
    /// The rotation of the sprite, in millidegrees. Defaults to `0`.
    pub angle: i64,
    /// Whether to fill the sprite (only for shapes). Defaults to
    /// `true`.
    pub fill: bool,
    /// The weight of the outline if not filled. Defaults to `4`.
    pub stroke_weight: u32,
    /// The color of the sprite. Defaults to opaque white.
    pub color: Color,
}

impl SpriteData {
    /// The default attribute record before any component overrides.
    pub open spec fn default_spec() -> SpriteData {
        SpriteData {
            x: 0,
            y: 0,
            depth: 1,
            angle: 0,
            fill: true,
            stroke_weight: 4,
            color: Color { r: 255, g: 255, b: 255, a: 255 },
        }
    }

    /// Creates an attribute record with every field at its default.
    pub fn new() -> (s: Self)
        ensures
            s == Self::default_spec(),
    {
        SpriteData {
            x: 0,
            y: 0,
            depth: 1,
            angle: 0,
            fill: true,
            stroke_weight: 4,
            color: Color::default(),
        }
    }
}

impl Default for SpriteData {
    fn default() -> (s: Self)
        ensures
            s == Self::default_spec(),
    {
        SpriteData::new()
    }
}

/// The record that resolving the given components must produce: the
/// defaults, with the position mandatory and each present component
/// overriding its field exactly.
pub open spec fn resolve_spec(
    pos: Point,
    angle: Option<Angle>,
    color: Option<Color>,
    depth: Option<Depth>,
    fill: Option<Fill>,
    stroke_weight: Option<StrokeWeight>,
) -> SpriteData {
    SpriteData {
        x: pos.0,
        y: pos.1,
        depth: match depth {
            Some(d) => d.0,
            None => 1,
        },
        angle: match angle {
            Some(a) => a.0,
            None => 0,
        },
        fill: match fill {
            Some(f) => f.0,
            None => true,
        },
        stroke_weight: match stroke_weight {
            Some(sw) => sw.0,
            None => 4,
        },
        color: match color {
            Some(c) => c,
            None => Color { r: 255, g: 255, b: 255, a: 255 },
        },
    }
}

/// Resolves an entity's optional attribute components into one
/// complete draw record.
///
/// Returns `None` — do not draw — exactly when the entity has no
/// position. Otherwise every absent component keeps its documented
/// default and every present component overrides its field exactly.
pub fn resolve(
    pos: Option<Point>,
    angle: Option<Angle>,
    color: Option<Color>,
    depth: Option<Depth>,
    fill: Option<Fill>,
    stroke_weight: Option<StrokeWeight>,
) -> (r: Option<SpriteData>)
    ensures
        r is Some <==> pos is Some,
        pos matches Some(p) ==> r == Some(resolve_spec(p, angle, color, depth, fill, stroke_weight)),
{
    let p = match pos {
        Some(p) => p,
        None => {
            return None;
        },
    };
    let mut ex = SpriteData::new();
    ex.x = p.0;
    ex.y = p.1;
    if let Some(a) = angle {
        ex.angle = a.0;
    }
    if let Some(c) = color {
        ex.color = c;
    }
    if let Some(d) = depth {
        ex.depth = d.0;
    }
    if let Some(f) = fill {
        ex.fill = f.0;
    }
    if let Some(sw) = stroke_weight {
        ex.stroke_weight = sw.0;
    }
    Some(ex)
}

/// Resolving an entity that carries only a position yields exactly
/// the default record at that position: angle zero, filled, stroke
/// weight four, depth one, opaque white.
pub proof fn lemma_resolve_defaults(pos: Point)
    ensures
        resolve_spec(pos, None, None, None, None, None) == (SpriteData {
            x: pos.0,
            y: pos.1,
            ..SpriteData::default_spec()
        }),
{
}

} // verus!
