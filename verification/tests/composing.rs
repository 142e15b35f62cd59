use genji::attrs::SpriteData;
use genji::compose::compose;
use genji::shape::Rect;
use genji::sprite::{DrawEntry, Shape};

fn entry(depth: u32, tag: i32) -> DrawEntry {
    let mut attrs = SpriteData::new();
    attrs.depth = depth;
    DrawEntry {
        shape: Shape::Rect(Rect { w: tag, h: tag }),
        attrs,
    }
}

fn tag_of(e: &DrawEntry) -> i32 {
    match &e.shape {
        Shape::Rect(r) => r.w,
        _ => panic!("unexpected shape"),
    }
}

#[test]
fn compose_orders_back_to_front() {
    let entries = vec![entry(2, 1), entry(9, 2), entry(5, 3), entry(1, 4)];
    let out = compose(entries);
    let depths: Vec<u32> = out.iter().map(|e| e.attrs.depth).collect();
    assert_eq!(depths, vec![9, 5, 2, 1]);
}

#[test]
fn compose_drops_hidden_entries() {
    let entries = vec![entry(0, 1), entry(3, 2), entry(0, 3), entry(7, 4), entry(0, 5)];
    let out = compose(entries);
    assert_eq!(out.len(), 2);
    assert!(out.iter().all(|e| e.attrs.depth != 0));
    assert_eq!(out[0].attrs.depth, 7);
    assert_eq!(out[1].attrs.depth, 3);
}

#[test]
fn compose_hidden_never_appears_anywhere() {
    // A depth-0 entry is discarded wherever it sits in the input.
    for pos in 0..4 {
        let mut entries: Vec<DrawEntry> = vec![entry(4, 10), entry(2, 11), entry(6, 12)];
        entries.insert(pos, entry(0, 99));
        let out = compose(entries);
        assert_eq!(out.len(), 3);
        assert!(out.iter().all(|e| tag_of(e) != 99));
    }
}

#[test]
fn compose_is_stable_for_equal_depths() {
    let entries = vec![entry(5, 1), entry(5, 2), entry(3, 3), entry(5, 4)];
    let out = compose(entries);
    let tags: Vec<i32> = out.iter().map(tag_of).collect();
    // The three depth-5 entries keep their input order; the depth-3
    // entry comes last.
    assert_eq!(tags, vec![1, 2, 4, 3]);
}

#[test]
fn compose_is_deterministic_across_calls() {
    let make = || vec![entry(4, 1), entry(4, 2), entry(8, 3), entry(4, 4), entry(8, 5)];
    let out1 = compose(make());
    let out2 = compose(make());
    let tags1: Vec<i32> = out1.iter().map(tag_of).collect();
    let tags2: Vec<i32> = out2.iter().map(tag_of).collect();
    assert_eq!(tags1, tags2);
}

#[test]
fn compose_empty_frame_is_empty() {
    let out = compose(Vec::new());
    assert!(out.is_empty());
}
