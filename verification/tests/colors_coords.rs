use genji::attrs::{resolve, Angle, Depth, Fill, SpriteData, StrokeWeight};
use genji::color::Color;
use genji::coords::coord;
use genji::shape::Point;
use genji::state::GameState;

#[test]
fn color_builder_matches_new() {
    let color1 = Color::new(12, 34, 56, 255);
    let color2 = Color::default().r(12).g(34).b(56);
    assert_eq!(color1, color2);
}

#[test]
fn color_unit_round_trip_all_bytes() {
    for v in 0..=255u8 {
        let c = Color::new(v, v, v, v);
        let u = c.to_unit();
        assert_eq!(Color::from_unit(u), c);
    }
}

#[test]
fn color_unit_endpoints() {
    // 0 maps to 0.0 and 255 maps to 1.0 exactly.
    let u0 = Color::new(0, 0, 0, 0).to_unit();
    assert_eq!(u0, [0, 0, 0, 0]);
    let u1 = Color::new(255, 255, 255, 255).to_unit();
    assert_eq!(u1, [65536, 65536, 65536, 65536]);
}

#[test]
fn color_from_unit_saturates() {
    let c = Color::from_unit([70000, 65536, 0, 32768]);
    assert_eq!(c.r, 255);
    assert_eq!(c.g, 255);
    assert_eq!(c.b, 0);
    // 32768 / 65536 = 0.5; round(0.5 * 255) = 128.
    assert_eq!(c.a, 128);
}

#[test]
fn coord_linearity() {
    assert_eq!(coord(0), 0);
    assert_eq!(coord(200), 400); // device 1.0 over the 400 denominator
    assert_eq!(coord(-200), -400); // device -1.0
    assert_eq!(coord(400), 800); // device 2.0
    let mut prev = coord(-500);
    for x in -499..500 {
        let q = coord(x);
        assert!(q > prev);
        prev = q;
    }
}

#[test]
fn resolve_defaults_round_trip() {
    let r = resolve(Some(Point(7, -3)), None, None, None, None, None).unwrap();
    assert_eq!(
        r,
        SpriteData {
            x: 7,
            y: -3,
            depth: 1,
            angle: 0,
            fill: true,
            stroke_weight: 4,
            color: Color::new(255, 255, 255, 255),
        }
    );
}

#[test]
fn resolve_without_position_skips() {
    assert!(resolve(None, Some(Angle(1000)), None, Some(Depth(3)), None, None).is_none());
}

#[test]
fn resolve_overrides_every_present_component() {
    let r = resolve(
        Some(Point(1, 2)),
        Some(Angle(32300)),
        Some(Color::new(9, 8, 7, 6)),
        Some(Depth(11)),
        Some(Fill(false)),
        Some(StrokeWeight(8)),
    )
    .unwrap();
    assert_eq!(r.x, 1);
    assert_eq!(r.y, 2);
    assert_eq!(r.angle, 32300);
    assert_eq!(r.color, Color::new(9, 8, 7, 6));
    assert_eq!(r.depth, 11);
    assert!(!r.fill);
    assert_eq!(r.stroke_weight, 8);
}

#[test]
fn game_state_defaults() {
    let st = GameState::new((), String::from("hello"), None, None, None, None);
    assert_eq!(st.title, "hello");
    assert_eq!(st.width, 640);
    assert_eq!(st.height, 480);
    assert_eq!(st.fps, 10); // 1000 / 100
    assert_eq!(st.delta, 0);
    assert!(st.clear_color.is_none());
    assert!(!st.close_on_request);
    assert!(!st.asked_to_close);
}

#[test]
fn game_state_explicit_values() {
    let st = GameState::new(
        5u8,
        String::from("t"),
        Some(800),
        Some(600),
        Some(30),
        Some(Color::new(12, 34, 56, 255)),
    );
    assert_eq!(st.width, 800);
    assert_eq!(st.height, 600);
    assert_eq!(st.fps, 1000 / 30);
    assert_eq!(st.clear_color, Some(Color::new(12, 34, 56, 255)));
    assert_eq!(st.state, 5);
}
