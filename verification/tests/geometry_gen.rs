use genji::attrs::{resolve, Depth, Fill, SpriteData, StrokeWeight};
use genji::compose::compose;
use genji::shape::Point;
use genji::sprite::DrawEntry;
use genji::color::Color;
use genji::geometry::{
    circle_geometry, geometry_for, line_width_q, rect_geometry, texture_geometry,
    text_quad_geometry, transform_for, triangle_geometry, Geometry, Topology,
};
use genji::shape::{Circle, Rect, Triangle};
use genji::sprite::{texture_raw, Shape};

fn attrs() -> SpriteData {
    SpriteData::new()
}

#[test]
fn rect_filled_quad() {
    let m = rect_geometry(&Rect { w: 100, h: 50 }, &attrs());
    assert_eq!(m.topology, Topology::TriangleStrip);
    assert!(m.line_width_q.is_none());
    let pos: Vec<(i64, i64)> = m.vertices.iter().map(|v| (v.x_q, v.y_q)).collect();
    // Corners: top-left, top-right, bottom-left, bottom-right, at
    // half extents 100 and 50 over the 400 denominator.
    assert_eq!(pos, vec![(-100, 50), (100, 50), (-100, -50), (100, -50)]);
    let uv: Vec<(u8, u8)> = m.vertices.iter().map(|v| (v.u_half, v.v_half)).collect();
    assert_eq!(uv, vec![(0, 2), (2, 2), (0, 0), (2, 0)]);
}

#[test]
fn rect_outline_strip_and_line_width() {
    let mut a = attrs();
    a.fill = false;
    a.stroke_weight = 8;
    let m = rect_geometry(&Rect { w: 100, h: 50 }, &a);
    assert_eq!(m.topology, Topology::LineStrip);
    // Line width is coord(stroke_weight + 500): numerator 2 * 508.
    assert_eq!(m.line_width_q, Some(1016));
    assert_eq!(m.line_width_q, Some(line_width_q(8)));
    let pos: Vec<(i64, i64)> = m.vertices.iter().map(|v| (v.x_q, v.y_q)).collect();
    // A closed five-vertex perimeter returning to the first corner.
    assert_eq!(
        pos,
        vec![(-100, 50), (100, 50), (100, -50), (-100, -50), (-100, 50)]
    );
}

#[test]
fn circle_unfilled_has_721_boundary_vertices() {
    let mut a = attrs();
    a.fill = false;
    let m = circle_geometry(&Circle { r: 30 }, &a);
    assert_eq!(m.samples.len(), 721);
    assert_eq!(m.radius_q, 60); // coord(30)
    assert_eq!(m.topology, Topology::LineStrip);
    assert!(m.samples.iter().all(|s| !s.center));
    assert_eq!(m.samples[0].half_deg, 0);
    assert_eq!(m.samples[720].half_deg, 720);
}

#[test]
fn circle_filled_fans_through_center() {
    let m = circle_geometry(&Circle { r: 30 }, &attrs());
    // 721 boundary vertices plus a center vertex after each of the
    // 361 whole-degree steps.
    assert_eq!(m.samples.len(), 1082);
    assert_eq!(m.topology, Topology::TriangleStrip);
    assert_eq!(m.samples.iter().filter(|s| s.center).count(), 361);
    // The center vertex follows each even (whole-degree) boundary step.
    assert!(m.samples[0].half_deg == 0 && !m.samples[0].center);
    assert!(m.samples[1].half_deg == 0 && m.samples[1].center);
    assert!(m.samples[2].half_deg == 1 && !m.samples[2].center);
}

#[test]
fn triangle_vertices_and_topology() {
    let m = triangle_geometry(&Triangle { w: 12, h: 34, o: 8 }, &attrs());
    assert_eq!(m.topology, Topology::TriangleList);
    let pos: Vec<(i64, i64)> = m.vertices.iter().map(|v| (v.x_q, v.y_q)).collect();
    assert_eq!(pos, vec![(-12, -34), (12, -34), (16, 34)]);
    let uv: Vec<(u8, u8)> = m.vertices.iter().map(|v| (v.u_half, v.v_half)).collect();
    assert_eq!(uv, vec![(0, 0), (2, 0), (1, 2)]);
}

#[test]
fn texture_quad_uses_drawn_size() {
    let tex = texture_raw(vec![0; 4], (1, 1), Some(80), Some(60));
    let m = texture_geometry(&tex, &attrs());
    let pos: Vec<(i64, i64)> = m.vertices.iter().map(|v| (v.x_q, v.y_q)).collect();
    assert_eq!(pos, vec![(-80, 60), (80, 60), (-80, -60), (80, -60)]);
}

#[test]
fn text_quad_halves_pixel_extents() {
    // The quad's half extents are coord(px) * 0.5, numerator px.
    let m = text_quad_geometry(120, 40, &attrs());
    let pos: Vec<(i64, i64)> = m.vertices.iter().map(|v| (v.x_q, v.y_q)).collect();
    assert_eq!(pos, vec![(-120, 40), (120, 40), (-120, -40), (120, -40)]);
}

#[test]
fn transform_maps_translation() {
    let mut a = attrs();
    a.x = 100;
    a.y = -50;
    a.depth = 5;
    a.angle = 32300;
    let t = transform_for(&a);
    assert_eq!(t.tx_q, 200);
    assert_eq!(t.ty_q, -100);
    assert_eq!(t.depth, 5);
    assert_eq!(t.angle_mdeg, 32300);
}

#[test]
fn geometry_dispatch_covers_shapes() {
    let a = attrs();
    match geometry_for(&Shape::Rect(Rect { w: 10, h: 10 }), &a, None) {
        Some(Geometry::Mesh(m)) => assert_eq!(m.vertices.len(), 4),
        _ => panic!("rect should yield a mesh"),
    }
    match geometry_for(&Shape::Circle(Circle { r: 5 }), &a, None) {
        Some(Geometry::Circle(c)) => assert_eq!(c.samples.len(), 1082),
        _ => panic!("circle should yield circle samples"),
    }
    match geometry_for(&Shape::Triangle(Triangle { w: 1, h: 2, o: 0 }), &a, None) {
        Some(Geometry::Mesh(m)) => assert_eq!(m.vertices.len(), 3),
        _ => panic!("triangle should yield a mesh"),
    }
}

#[test]
fn end_to_end_rect_over_circle() {
    // One rectangle at depth 5, unfilled with stroke weight 8; one
    // circle at depth 2.
    let rect_attrs = resolve(
        Some(Point(0, 0)),
        None,
        None,
        Some(Depth(5)),
        Some(Fill(false)),
        Some(StrokeWeight(8)),
    )
    .unwrap();
    let circle_attrs = resolve(Some(Point(10, 10)), None, None, Some(Depth(2)), None, None)
        .unwrap();

    let entries = vec![
        DrawEntry { shape: Shape::Circle(Circle { r: 30 }), attrs: circle_attrs },
        DrawEntry { shape: Shape::Rect(Rect { w: 100, h: 50 }), attrs: rect_attrs },
    ];
    let ordered = compose(entries);
    // The rectangle (depth 5) is drawn before the circle (depth 2).
    assert_eq!(ordered.len(), 2);
    assert_eq!(ordered[0].attrs.depth, 5);
    assert!(matches!(ordered[0].shape, Shape::Rect(_)));
    assert_eq!(ordered[1].attrs.depth, 2);
    assert!(matches!(ordered[1].shape, Shape::Circle(_)));

    // The rectangle's geometry is a five-vertex outline strip with
    // line width coord(8 + 500).
    match geometry_for(&ordered[0].shape, &ordered[0].attrs, None) {
        Some(Geometry::Mesh(m)) => {
            assert_eq!(m.vertices.len(), 5);
            assert_eq!(m.topology, Topology::LineStrip);
            assert_eq!(m.line_width_q, Some(line_width_q(8)));
        }
        _ => panic!("rect should yield a mesh"),
    }
}

#[test]
fn uniform_color_reaches_vertices() {
    let mut a = attrs();
    a.color = Color::new(1, 2, 3, 4);
    let m = rect_geometry(&Rect { w: 10, h: 10 }, &a);
    assert!(m.vertices.iter().all(|v| v.color == Color::new(1, 2, 3, 4)));
}
