use genji::input::{Key, Keys, VirtualKey};
use genji::sprite::texture_raw;
use genji::shape::{circle, rect, triangle, Circle, Contains, Point, Rect, Triangle};
use genji::store::Store;

#[test]
fn shape_constructors() {
    let r = rect(12, 34);
    assert_eq!((r.w, r.h), (12, 34));
    let c = circle(30);
    assert_eq!(c.r, 30);
    let t = triangle(12, 34, 8);
    assert_eq!((t.w, t.h, t.o), (12, 34, 8));
}

#[test]
fn point_arithmetic() {
    let a = Point(3, 4);
    let b = Point(-1, 2);
    assert_eq!(a.add(b), Point(2, 6));
    assert_eq!(a.sub(b), Point(4, 2));
    assert_eq!(a.mul(3), Point(9, 12));
    assert_eq!(Point(7, -7).div(2), Point(3, -3));
    // The cross product of (3,4) and (-1,2): 3*2 - 4*(-1) = 10.
    assert_eq!(a.cross(b), 10);
}

#[test]
fn point_partial_order() {
    assert!(Point(0, 0) < Point(1, 1));
    assert!(Point(2, 2) > Point(1, 1));
    // Mixed coordinates are incomparable.
    assert_eq!(Point(0, 2).partial_cmp(&Point(1, 1)), None);
    assert_eq!(Point(1, 1).partial_cmp(&Point(1, 1)), Some(std::cmp::Ordering::Equal));
}

#[test]
fn circle_containment() {
    let c = Circle { r: 10 };
    assert!(c.contains_corrected(Point(0, 0), Point(3, 4)));
    assert!(!c.contains_corrected(Point(0, 0), Point(10, 0)));
    assert!(c.contains_corrected(Point(100, 100), Point(105, 100)));
    // A non-positive radius contains nothing.
    assert!(!Circle { r: 0 }.contains_corrected(Point(0, 0), Point(0, 0)));
}

#[test]
fn rect_containment() {
    let r = Rect { w: 10, h: 6 };
    assert!(r.contains_corrected(Point(0, 0), Point(5, 3)));
    assert!(r.contains_corrected(Point(0, 0), Point(-5, -3)));
    assert!(!r.contains_corrected(Point(0, 0), Point(6, 0)));
}

#[test]
fn texture_containment_is_strict() {
    let t = texture_raw(Vec::new(), (1, 1), Some(10), Some(6));
    // Strictly inside counts.
    assert!(t.contains_corrected(Point(0, 0), Point(4, 2)));
    assert!(t.contains_corrected(Point(0, 0), Point(-4, -2)));
    // Unlike a rectangle's inclusive box, the boundary is outside.
    assert!(!t.contains_corrected(Point(0, 0), Point(5, 0)));
    assert!(!t.contains_corrected(Point(0, 0), Point(0, 3)));
    let r = Rect { w: 10, h: 6 };
    assert!(r.contains_corrected(Point(0, 0), Point(5, 0)));
}

#[test]
fn triangle_containment() {
    let t = Triangle { w: 10, h: 10, o: 0 };
    assert!(t.contains_corrected(Point(0, 0), Point(0, 0)));
    assert!(!t.contains_corrected(Point(0, 0), Point(20, 20)));
}

#[test]
fn keys_toggle() {
    let mut keys = Keys::new();
    assert!(!keys.get(Key::Space));
    keys.set(Key::Space, true);
    assert!(keys.get(Key::Space));
    assert!(!keys.get(Key::A));
    keys.set(Key::Space, false);
    assert!(!keys.get(Key::Space));
}

#[test]
fn keycode_table() {
    assert_eq!(Key::from_keycode(30), Some(Key::A));
    assert_eq!(Key::from_keycode(57), Some(Key::Space));
    assert_eq!(Key::from_keycode(88), Some(Key::F12));
    assert_eq!(Key::from_keycode(255), None);
}

#[test]
fn virtual_key_table() {
    assert_eq!(Key::from_virtual(Some(VirtualKey::A)), Some(vec![Key::A]));
    assert_eq!(Key::from_virtual(Some(VirtualKey::Numpad7)), Some(vec![Key::Seven]));
    // A shifted character maps to its two-key chord.
    assert_eq!(
        Key::from_virtual(Some(VirtualKey::At)),
        Some(vec![Key::Shift, Key::Two])
    );
    assert_eq!(Key::from_virtual(Some(VirtualKey::Unmapped)), None);
    assert_eq!(Key::from_virtual(None), None);
}

#[test]
fn store_round_trip() {
    let mut store: Store<u32> = Store::new();
    store.add(String::from("item"), 7);
    assert_eq!(store.get(&String::from("item")), Some(7));
    assert_eq!(store.get(&String::from("other")), None);
    // Adding under an existing name replaces the item.
    store.add(String::from("item"), 9);
    assert_eq!(store.get(&String::from("item")), Some(9));
    assert_eq!(store.remove(&String::from("item")), Some(9));
    assert_eq!(store.remove(&String::from("item")), None);
    assert_eq!(store.get(&String::from("item")), None);
}

#[test]
fn store_builder() {
    let store = Store::new()
        .with(String::from("a"), 1u8)
        .with(String::from("b"), 2u8);
    assert_eq!(store.get(&String::from("a")), Some(1));
    assert_eq!(store.get(&String::from("b")), Some(2));
}
