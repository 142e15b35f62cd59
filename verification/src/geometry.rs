//! Per-primitive geometry generation.
//!
//! Each generator is a pure function from a shape and its resolved
//! attributes to a vertex list and a topology. Positions are device
//! coordinates in the fixed-point representation of [`crate::coords`]
//! (numerators over [`crate::coords::COORD_DEN`]); texture
//! coordinates are carried in half-units (0, 1, 2 standing for 0.0,
//! 0.5, 1.0). Circle boundary positions are trigonometric, so circle
//! geometry names each vertex by its half-degree step and leaves the
//! sine and cosine to the device-facing caller.
//!
//! The rotation, aspect-ratio and translation transform is likewise
//! split: its exact parts (translation numerators, depth, angle) are
//! computed here, the trigonometry outside.

use vstd::prelude::*;

use crate::attrs::SpriteData;
use crate::color::Color;
use crate::coords::{coord, coord_spec};
use crate::shape::{Circle, Rect, Triangle};
use crate::sprite::{Shape, Texture};

verus! {

/// One device vertex: a fixed-point position, texture coordinates in
/// half-units, and a color.
#[derive(Debug, Clone, Copy, PartialEq, Eq, Structural)]
pub struct Vertex {
    /// The device x position, a numerator over [`crate::coords::COORD_DEN`].
    pub x_q: i64,
    /// The device y position, a numerator over [`crate::coords::COORD_DEN`].
    pub y_q: i64,
    /// The texture u coordinate, in half-units.
    pub u_half: u8,
    /// The texture v coordinate, in half-units.
    pub v_half: u8,
    /// The vertex color.
    pub color: Color,
}

/// How a vertex list is assembled into primitives.
#[derive(Debug, Clone, Copy, PartialEq, Eq, Structural)]
pub enum Topology {
    /// A strip of triangles.
    TriangleStrip,
    /// A strip of connected lines.
    LineStrip,
    /// A list of independent triangles.
    TriangleList,
}

/// A generated vertex mesh with its topology, and the device line
/// width to stroke it with when it is an outline.
#[derive(Debug, Clone, PartialEq, Eq)]
pub struct Mesh {
    /// The vertices, in submission order.
    pub vertices: Vec<Vertex>,
    /// The primitive topology.
    pub topology: Topology,
    /// For outlines, the line width as a numerator over
    /// [`crate::coords::COORD_DEN`].
    pub line_width_q: Option<i64>,
}

/// One circle vertex: either the boundary point at the given
/// half-degree step, or the circle's center (inserted to fan the
/// interior when filled).
#[derive(Debug, Clone, Copy, PartialEq, Eq, Structural)]
pub struct CircleSample {
    /// The angle step, in half-degrees from zero to 720 inclusive.
    pub half_deg: u16,
    /// Whether this vertex is the center rather than the boundary.
    pub center: bool,
}

/// Generated circle geometry: the radius as a device numerator, the
/// ordered angle samples, the topology, and the outline line width.
#[derive(Debug, Clone, PartialEq, Eq)]
pub struct CircleMesh {
    /// The device radius, a numerator over [`crate::coords::COORD_DEN`].
    pub radius_q: i64,
    /// The ordered vertex samples.
    pub samples: Vec<CircleSample>,
    /// The primitive topology.
    pub topology: Topology,
    /// For outlines, the device line width numerator.
    pub line_width_q: Option<i64>,
    /// The color of every vertex.
    pub color: Color,
}

/// The exact parts of a sprite's transform: device translation
/// numerators, the depth (the backend's far-plane ratio is depth
/// over 256), and the rotation angle in millidegrees.
#[derive(Debug, Clone, Copy, PartialEq, Eq, Structural)]
pub struct Transform {
    /// The device x translation, a numerator over [`crate::coords::COORD_DEN`].
    pub tx_q: i64,
    /// The device y translation, a numerator over [`crate::coords::COORD_DEN`].
    pub ty_q: i64,
    /// The sprite's depth; the backend encodes depth over 256.
    pub depth: u32,
    /// The clockwise rotation, in millidegrees.
    pub angle_mdeg: i64,
}

/// The device line width used to stroke outlines: the stroke weight
/// offset by the calibration constant 500, through the coordinate
/// mapping.
pub open spec fn line_width_spec(stroke_weight: u32) -> int {
    2 * (stroke_weight + 500)
}

/// Computes the outline line width numerator for a stroke weight.
pub fn line_width_q(stroke_weight: u32) -> (r: i64)
    ensures
        r == line_width_spec(stroke_weight),
{
    2 * (stroke_weight as i64 + 500)
}

/// Builds the exact transform parts for a resolved sprite.
pub fn transform_for(attrs: &SpriteData) -> (t: Transform)
    ensures
        t.tx_q == coord_spec(attrs.x),
        t.ty_q == coord_spec(attrs.y),
        t.depth == attrs.depth,
        t.angle_mdeg == attrs.angle,
{
    Transform {
        tx_q: coord(attrs.x),
        ty_q: coord(attrs.y),
        depth: attrs.depth,
        angle_mdeg: attrs.angle,
    }
}

/// The four corners of a filled quad with the given half extents, in
/// triangle-strip order: top-left, top-right, bottom-left,
/// bottom-right, texture coordinates matching.
pub open spec fn quad_filled_spec(hw: int, hh: int, color: Color) -> Seq<Vertex> {
    seq![
        Vertex { x_q: (-hw) as i64, y_q: hh as i64, u_half: 0, v_half: 2, color },
        Vertex { x_q: hw as i64, y_q: hh as i64, u_half: 2, v_half: 2, color },
        Vertex { x_q: (-hw) as i64, y_q: (-hh) as i64, u_half: 0, v_half: 0, color },
        Vertex { x_q: hw as i64, y_q: (-hh) as i64, u_half: 2, v_half: 0, color },
    ]
}

/// The five vertices of a closed quad outline with the given half
/// extents, tracing the perimeter and returning to the first corner.
pub open spec fn quad_outline_spec(hw: int, hh: int, color: Color) -> Seq<Vertex> {
    seq![
        Vertex { x_q: (-hw) as i64, y_q: hh as i64, u_half: 0, v_half: 2, color },
        Vertex { x_q: hw as i64, y_q: hh as i64, u_half: 2, v_half: 2, color },
        Vertex { x_q: hw as i64, y_q: (-hh) as i64, u_half: 2, v_half: 0, color },
        Vertex { x_q: (-hw) as i64, y_q: (-hh) as i64, u_half: 0, v_half: 0, color },
        Vertex { x_q: (-hw) as i64, y_q: hh as i64, u_half: 0, v_half: 2, color },
    ]
}

/// Builds a quad mesh with the given device half extents.
///
/// Filled quads are four-vertex triangle strips. Outlines are line
/// strips with the stroke line width; `closed_outline` chooses
/// between the five-vertex closed perimeter (rectangles, textures)
/// and the four-vertex strip layout (text quads).
fn quad_mesh(hw: i64, hh: i64, attrs: &SpriteData, closed_outline: bool) -> (m: Mesh)
    requires
        -0x8000_0000 <= hw <= 0x8000_0000,
        -0x8000_0000 <= hh <= 0x8000_0000,
    ensures
        attrs.fill ==> m.vertices@ == quad_filled_spec(hw as int, hh as int, attrs.color)
            && m.topology == Topology::TriangleStrip && m.line_width_q is None,
        !attrs.fill ==> m.vertices@ == (if closed_outline {
            quad_outline_spec(hw as int, hh as int, attrs.color)
        } else {
            quad_filled_spec(hw as int, hh as int, attrs.color)
        }) && m.topology == Topology::LineStrip && m.line_width_q == Some(
            line_width_spec(attrs.stroke_weight) as i64,
        ),
{
    let color = attrs.color;
    let nw = -hw;
    let nh = -hh;
    if attrs.fill {
        let vertices = vec![
            Vertex { x_q: nw, y_q: hh, u_half: 0, v_half: 2, color },
            Vertex { x_q: hw, y_q: hh, u_half: 2, v_half: 2, color },
            Vertex { x_q: nw, y_q: nh, u_half: 0, v_half: 0, color },
            Vertex { x_q: hw, y_q: nh, u_half: 2, v_half: 0, color },
        ];
        proof {
            assert(vertices@ =~= quad_filled_spec(hw as int, hh as int, color));
        }
        Mesh { vertices, topology: Topology::TriangleStrip, line_width_q: None }
    } else {
        let lw = line_width_q(attrs.stroke_weight);
        let vertices = if closed_outline {
            let vs = vec![
                Vertex { x_q: nw, y_q: hh, u_half: 0, v_half: 2, color },
                Vertex { x_q: hw, y_q: hh, u_half: 2, v_half: 2, color },
                Vertex { x_q: hw, y_q: nh, u_half: 2, v_half: 0, color },
                Vertex { x_q: nw, y_q: nh, u_half: 0, v_half: 0, color },
                Vertex { x_q: nw, y_q: hh, u_half: 0, v_half: 2, color },
            ];
            proof {
                assert(vs@ =~= quad_outline_spec(hw as int, hh as int, color));
            }
            vs
        } else {
            let vs = vec![
                Vertex { x_q: nw, y_q: hh, u_half: 0, v_half: 2, color },
                Vertex { x_q: hw, y_q: hh, u_half: 2, v_half: 2, color },
                Vertex { x_q: nw, y_q: nh, u_half: 0, v_half: 0, color },
                Vertex { x_q: hw, y_q: nh, u_half: 2, v_half: 0, color },
            ];
            proof {
                assert(vs@ =~= quad_filled_spec(hw as int, hh as int, color));
            }
            vs
        };
        Mesh { vertices, topology: Topology::LineStrip, line_width_q: Some(lw) }
    }
}

/// Generates rectangle geometry: a quad whose half extents are half
/// the mapped width and height (numerators `w` and `h` over
/// [`crate::coords::COORD_DEN`]).
pub fn rect_geometry(rect: &Rect, attrs: &SpriteData) -> (m: Mesh)
    ensures
        attrs.fill ==> m.vertices@ == quad_filled_spec(rect.w as int, rect.h as int, attrs.color)
            && m.topology == Topology::TriangleStrip && m.line_width_q is None,
        !attrs.fill ==> m.vertices@ == quad_outline_spec(rect.w as int, rect.h as int, attrs.color)
            && m.topology == Topology::LineStrip && m.line_width_q == Some(
            line_width_spec(attrs.stroke_weight) as i64,
        ),
{
    quad_mesh(rect.w as i64, rect.h as i64, attrs, true)
}

/// Generates texture geometry: the same quad as a rectangle of the
/// texture's drawn size.
pub fn texture_geometry(tex: &Texture, attrs: &SpriteData) -> (m: Mesh)
    ensures
        attrs.fill ==> m.vertices@ == quad_filled_spec(tex.w as int, tex.h as int, attrs.color)
            && m.topology == Topology::TriangleStrip && m.line_width_q is None,
        !attrs.fill ==> m.vertices@ == quad_outline_spec(tex.w as int, tex.h as int, attrs.color)
            && m.topology == Topology::LineStrip && m.line_width_q == Some(
            line_width_spec(attrs.stroke_weight) as i64,
        ),
{
    quad_mesh(tex.w as i64, tex.h as i64, attrs, true)
}

/// Generates the textured quad for a rasterized text run of the
/// given pixel size. The half extents are half the mapped pixel
/// dimensions scaled by the intentional one-half factor (numerators
/// `w` and `h`), which sharpens minified text; outlines keep the
/// four-vertex strip layout.
pub fn text_quad_geometry(w_px: usize, h_px: usize, attrs: &SpriteData) -> (m: Mesh)
    requires
        w_px <= 0x8000_0000,
        h_px <= 0x8000_0000,
    ensures
        attrs.fill ==> m.vertices@ == quad_filled_spec(w_px as int, h_px as int, attrs.color)
            && m.topology == Topology::TriangleStrip && m.line_width_q is None,
        !attrs.fill ==> m.vertices@ == quad_filled_spec(w_px as int, h_px as int, attrs.color)
            && m.topology == Topology::LineStrip && m.line_width_q == Some(
            line_width_spec(attrs.stroke_weight) as i64,
        ),
{
    quad_mesh(w_px as i64, h_px as i64, attrs, false)
}

/// The three vertices of a drawn triangle: base corners half the
/// width left and right, half the height down, and the tip at the
/// mapped offset, half the height up.
pub open spec fn triangle_vertices_spec(t: Triangle, color: Color) -> Seq<Vertex> {
    seq![
        Vertex { x_q: (-t.w) as i64, y_q: (-t.h) as i64, u_half: 0, v_half: 0, color },
        Vertex { x_q: t.w as i64, y_q: (-t.h) as i64, u_half: 2, v_half: 0, color },
        Vertex { x_q: (2 * t.o) as i64, y_q: t.h as i64, u_half: 1, v_half: 2, color },
    ]
}

/// Generates triangle geometry: a three-vertex triangle list.
/// Triangles are always drawn filled; the fill flag and stroke
/// weight do not apply.
pub fn triangle_geometry(tri: &Triangle, attrs: &SpriteData) -> (m: Mesh)
    ensures
        m.vertices@ == triangle_vertices_spec(*tri, attrs.color),
        m.topology == Topology::TriangleList,
        m.line_width_q is None,
{
    let color = attrs.color;
    let w = tri.w as i64;
    let h = tri.h as i64;
    let nw = -w;
    let nh = -h;
    let o2 = 2 * (tri.o as i64);
    let vertices = vec![
        Vertex { x_q: nw, y_q: nh, u_half: 0, v_half: 0, color },
        Vertex { x_q: w, y_q: nh, u_half: 2, v_half: 0, color },
        Vertex { x_q: o2, y_q: h, u_half: 1, v_half: 2, color },
    ];
    proof {
        assert(vertices@ =~= triangle_vertices_spec(*tri, color));
    }
    Mesh { vertices, topology: Topology::TriangleList, line_width_q: None }
}

/// The circle samples for the first `n` half-degree steps: the
/// boundary point at each step, and after each whole-degree boundary
/// point of a filled circle, the center.
pub open spec fn circle_samples_upto(fill: bool, n: int) -> Seq<CircleSample>
    decreases n,
{
    if n <= 0 {
        Seq::empty()
    } else {
        circle_samples_upto(fill, n - 1) + seq![
            CircleSample { half_deg: (n - 1) as u16, center: false },
        ] + if fill && (n - 1) % 2 == 0 {
            seq![CircleSample { half_deg: (n - 1) as u16, center: true }]
        } else {
            Seq::empty()
        }
    }
}

/// How many samples the first `n` half-degree steps produce: one per
/// step, plus one per even step when filled.
pub proof fn lemma_circle_sample_count(fill: bool, n: int)
    requires
        n >= 0,
    ensures
        circle_samples_upto(fill, n).len() == if fill {
            n + (n + 1) / 2
        } else {
            n
        },
    decreases n,
{
    if n > 0 {
        lemma_circle_sample_count(fill, n - 1);
    }
}

/// Generates circle geometry: boundary samples every half degree
/// from 0 to 360 degrees inclusive — 721 boundary vertices — with
/// the center inserted after each whole-degree sample when filled
/// (1082 vertices in all).
pub fn circle_geometry(c: &Circle, attrs: &SpriteData) -> (m: CircleMesh)
    ensures
        m.radius_q == coord_spec(c.r),
        m.color == attrs.color,
        m.samples@ == circle_samples_upto(attrs.fill, 721),
        !attrs.fill ==> m.samples@.len() == 721 && m.topology == Topology::LineStrip
            && m.line_width_q == Some(line_width_spec(attrs.stroke_weight) as i64),
        attrs.fill ==> m.samples@.len() == 1082 && m.topology == Topology::TriangleStrip
            && m.line_width_q is None,
{
    let fill = attrs.fill;
    let mut samples: Vec<CircleSample> = Vec::new();
    let mut k: u16 = 0;
    while k <= 720
        invariant
            k <= 721,
            samples@ == circle_samples_upto(fill, k as int),
        decreases 721 - k,
    {
        samples.push(CircleSample { half_deg: k, center: false });
        if fill && k % 2 == 0 {
            samples.push(CircleSample { half_deg: k, center: true });
        }
        proof {
            assert(samples@ =~= circle_samples_upto(fill, k as int + 1));
        }
        k += 1;
    }
    proof {
        lemma_circle_sample_count(fill, 721);
    }
    let (topology, line_width) = if fill {
        (Topology::TriangleStrip, None)
    } else {
        (Topology::LineStrip, Some(line_width_q(attrs.stroke_weight)))
    };
    CircleMesh {
        radius_q: coord(c.r),
        samples,
        topology,
        line_width_q: line_width,
        color: attrs.color,
    }
}

/// Generated geometry for one sprite: either a concrete vertex mesh
/// or symbolic circle samples.
#[derive(Debug, Clone, PartialEq, Eq)]
pub enum Geometry {
    /// A concrete vertex mesh.
    Mesh(Mesh),
    /// Circle samples awaiting trigonometric evaluation.
    Circle(CircleMesh),
}

/// Generates the geometry for any sprite kind.
///
/// Text needs its rasterized pixel dimensions, supplied in
/// `text_px`; a text sprite without them yields `None` (the skipped
/// draw of an empty run). Every other kind always yields geometry.
pub fn geometry_for(shape: &Shape, attrs: &SpriteData, text_px: Option<(usize, usize)>) -> (g:
    Option<Geometry>)
    requires
        text_px matches Some(d) ==> d.0 <= 0x8000_0000 && d.1 <= 0x8000_0000,
    ensures
        match shape {
            Shape::Rect(r) => g matches Some(Geometry::Mesh(m)) && (attrs.fill ==> m.vertices@
                == quad_filled_spec(r.w as int, r.h as int, attrs.color) && m.topology
                == Topology::TriangleStrip) && (!attrs.fill ==> m.vertices@ == quad_outline_spec(
                r.w as int,
                r.h as int,
                attrs.color,
            ) && m.topology == Topology::LineStrip && m.line_width_q == Some(
                line_width_spec(attrs.stroke_weight) as i64,
            )),
            Shape::Circle(c) => g matches Some(Geometry::Circle(cm)) && cm.samples@
                == circle_samples_upto(attrs.fill, 721) && cm.radius_q == coord_spec(c.r),
            Shape::Triangle(t) => g matches Some(Geometry::Mesh(m)) && m.vertices@
                == triangle_vertices_spec(*t, attrs.color) && m.topology == Topology::TriangleList,
            Shape::Text(_) => match text_px {
                Some(d) => g matches Some(Geometry::Mesh(m)) && m.vertices@ == quad_filled_spec(
                    d.0 as int,
                    d.1 as int,
                    attrs.color,
                ),
                None => g is None,
            },
            Shape::Texture(t) => g matches Some(Geometry::Mesh(m)) && (attrs.fill ==> m.vertices@
                == quad_filled_spec(t.w as int, t.h as int, attrs.color)) && (!attrs.fill
                ==> m.vertices@ == quad_outline_spec(t.w as int, t.h as int, attrs.color)
                && m.line_width_q == Some(line_width_spec(attrs.stroke_weight) as i64)),
        },
{
    match shape {
        Shape::Rect(r) => Some(Geometry::Mesh(rect_geometry(r, attrs))),
        Shape::Circle(c) => Some(Geometry::Circle(circle_geometry(c, attrs))),
        Shape::Triangle(t) => Some(Geometry::Mesh(triangle_geometry(t, attrs))),
        Shape::Text(_) => match text_px {
            Some((w, h)) => Some(Geometry::Mesh(text_quad_geometry(w, h, attrs))),
            None => None,
        },
        Shape::Texture(t) => Some(Geometry::Mesh(texture_geometry(t, attrs))),
    }
}

} // verus!
