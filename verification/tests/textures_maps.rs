use genji::sprite::{text, texture, texture_raw, ImageFormat};
use genji::spritemap::Spritemap;

/// Encodes a small RGBA image as PNG bytes.
fn png_bytes(w: u32, h: u32, pixels: Vec<u8>) -> Vec<u8> {
    let img = image::RgbaImage::from_raw(w, h, pixels).unwrap();
    let mut out = std::io::Cursor::new(Vec::new());
    image::DynamicImage::ImageRgba8(img)
        .write_to(&mut out, image::ImageFormat::Png)
        .unwrap();
    out.into_inner()
}

#[test]
fn texture_decodes_png_pixels() {
    let pixels = vec![
        255, 0, 0, 255, // red
        0, 255, 0, 255, // green
    ];
    let bytes = png_bytes(2, 1, pixels.clone());
    let tex = texture(bytes, ImageFormat::Png, None, None).unwrap();
    assert_eq!(tex.dimensions, (2, 1));
    assert_eq!(tex.data, pixels);
    assert_eq!((tex.w, tex.h), (2, 1));
}

#[test]
fn texture_decodes_pnm_pixels() {
    // A 2x1 ASCII PPM: one red pixel, one green pixel.
    let bytes = b"P3\n2 1\n255\n255 0 0 0 255 0\n".to_vec();
    let tex = texture(bytes, ImageFormat::Pnm, None, None).unwrap();
    assert_eq!(tex.dimensions, (2, 1));
    assert_eq!(tex.data, vec![255, 0, 0, 255, 0, 255, 0, 255]);
}

#[test]
fn texture_rejects_garbage() {
    assert!(texture(vec![1, 2, 3, 4], ImageFormat::Png, None, None).is_none());
}

#[test]
fn texture_raw_keeps_explicit_size() {
    let t = texture_raw(vec![0; 8], (2, 1), Some(30), Some(40));
    assert_eq!((t.w, t.h), (30, 40));
    assert_eq!(t.dimensions, (2, 1));
    assert_eq!(t.data.len(), 8);
}

#[test]
fn texture_raw_scales_missing_axis() {
    // Height missing: scaled from the width, preserving 100:50.
    let t = texture_raw(Vec::new(), (100, 50), Some(200), None);
    assert_eq!((t.w, t.h), (200, 100));
    // Width missing: scaled from the height, rounding to nearest.
    let t = texture_raw(Vec::new(), (3, 2), None, Some(3));
    // 3 * 3 / 2 = 4.5, rounded away from zero to 5.
    assert_eq!((t.w, t.h), (5, 3));
    // Negative sizes scale with their sign.
    let t = texture_raw(Vec::new(), (100, 50), None, Some(-100));
    assert_eq!((t.w, t.h), (-200, -100));
}

#[test]
fn texture_raw_defaults_to_pixel_ratio() {
    let t = texture_raw(Vec::new(), (320, 200), None, None);
    assert_eq!((t.w, t.h), (320, 200));
}

#[test]
fn spritemap_cuts_cells() {
    // A 2x2-pixel image of four distinct pixels, cells of 1x1.
    let pixels = vec![
        10, 11, 12, 13, /* */ 20, 21, 22, 23, //
        30, 31, 32, 33, /* */ 40, 41, 42, 43,
    ];
    let bytes = png_bytes(2, 2, pixels);
    let map = Spritemap::new(bytes, ImageFormat::Png, 1, 1).unwrap();
    // Cell 0 is the top-left pixel, cell 3 the bottom-right.
    let t0 = map.get_id(0, None, None).unwrap();
    assert_eq!(t0.data, vec![10, 11, 12, 13]);
    assert_eq!(t0.dimensions, (1, 1));
    let t3 = map.get_id(3, None, None).unwrap();
    assert_eq!(t3.data, vec![40, 41, 42, 43]);
    // A cell index past the grid is rejected.
    assert!(map.get_id(4, None, None).is_none());
}

#[test]
fn spritemap_rejects_uneven_grid() {
    let bytes = png_bytes(3, 2, vec![0; 24]);
    assert!(Spritemap::new(bytes, ImageFormat::Png, 2, 1).is_none());
}

#[test]
fn spritemap_get_rect_bounds() {
    let pixels = vec![
        1, 2, 3, 4, /* */ 5, 6, 7, 8, /* */ 9, 10, 11, 12, //
        13, 14, 15, 16, /* */ 17, 18, 19, 20, /* */ 21, 22, 23, 24,
    ];
    let bytes = png_bytes(3, 2, pixels);
    let map = Spritemap::new(bytes, ImageFormat::Png, 1, 1).unwrap();
    let t = map.get_rect(1, 0, 1, 1, None, None).unwrap();
    assert_eq!(t.data, vec![5, 6, 7, 8]);
    // A rectangle reaching the texture's edge is rejected.
    assert!(map.get_rect(2, 0, 1, 1, None, None).is_none());
    assert!(map.get_rect(0, 0, 3, 2, None, None).is_none());
}

#[test]
fn text_rejects_bad_font_bytes() {
    assert!(text(String::from("hi"), vec![0, 1, 2, 3], 24_000).is_none());
}
