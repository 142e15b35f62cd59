use genji::color::Color;
use genji::textlayout::{
    glyph_alpha, layout_paragraph, run_dimensions, CoverageSample, GlyphInput, RasterBuf,
};

fn plain(advance: i64, kern: i64) -> GlyphInput {
    GlyphInput { control: false, newline: false, whitespace: false, advance, kern }
}

fn newline() -> GlyphInput {
    GlyphInput { control: true, newline: true, whitespace: false, advance: 0, kern: 0 }
}

#[test]
fn layout_empty_run_is_empty() {
    let placed = layout_paragraph(&Vec::new(), 20, 20, 9999, 12, 10);
    assert!(placed.is_empty());
}

#[test]
fn empty_run_has_no_dimensions() {
    // An empty text run is a skipped draw, not a fault.
    let placed = layout_paragraph(&Vec::new(), 20, 20, 9999, 12, 10);
    assert!(run_dimensions(&placed, 1, 16).is_none());
}

#[test]
fn layout_advances_and_kerns() {
    let glyphs = vec![plain(10, 0), plain(12, -2), plain(8, 1)];
    let placed = layout_paragraph(&glyphs, 20, 20, 9999, 12, 10);
    // The pen starts at (20, 20 + ascent 10); kerning applies only
    // after a previous glyph.
    assert_eq!(placed.len(), 3);
    assert_eq!((placed[0].x, placed[0].y), (20, 30));
    assert_eq!((placed[1].x, placed[1].y), (28, 30)); // 20 + 10 - 2
    assert_eq!((placed[2].x, placed[2].y), (41, 30)); // 28 + 12 + 1
}

#[test]
fn layout_newline_resets_pen() {
    let glyphs = vec![plain(10, 0), newline(), plain(10, 5)];
    let placed = layout_paragraph(&glyphs, 20, 20, 9999, 12, 10);
    // The newline emits nothing; the next glyph starts a fresh line
    // with no kerning.
    assert_eq!(placed.len(), 2);
    assert_eq!((placed[0].x, placed[0].y), (20, 30));
    assert_eq!((placed[1].x, placed[1].y), (20, 42));
}

#[test]
fn layout_wraps_long_line() {
    let glyphs = vec![plain(30, 0), plain(30, 0), plain(30, 0)];
    let placed = layout_paragraph(&glyphs, 0, 0, 70, 12, 10);
    assert_eq!(placed.len(), 3);
    assert_eq!((placed[0].x, placed[0].y), (0, 10));
    assert_eq!((placed[1].x, placed[1].y), (30, 10));
    // The third glyph would end at 90 > 70, so it wraps to the next
    // line's origin.
    assert_eq!((placed[2].x, placed[2].y), (0, 22));
}

#[test]
fn layout_whitespace_does_not_wrap() {
    let mut space = plain(30, 0);
    space.whitespace = true;
    let glyphs = vec![plain(30, 0), plain(30, 0), space];
    let placed = layout_paragraph(&glyphs, 0, 0, 70, 12, 10);
    // The trailing whitespace passes the limit but stays on the line.
    assert_eq!((placed[2].x, placed[2].y), (60, 10));
}

#[test]
fn run_dimensions_pads_by_margin() {
    let glyphs = vec![plain(64, 0), plain(64, 0)];
    // Subpixel scale of 64 per pixel.
    let placed = layout_paragraph(&glyphs, 0, 0, 99999, 64, 0);
    let (w, h) = run_dimensions(&placed, 64, 16).unwrap();
    // Width spans first.x to last.x + last.advance = 128 subpixels =
    // 2 pixels, plus the fixed margin of 50 on each axis.
    assert_eq!(w, 52);
    assert_eq!(h, 66);
}

#[test]
fn glyph_alpha_scales_and_clamps() {
    // Full coverage at full alpha saturates: 255 * 1.5 clamps to 255.
    assert_eq!(glyph_alpha(255, 100, 100), 255);
    // One-third coverage: 255 * (1/3) * 1.5 = 127.5, truncated.
    assert_eq!(glyph_alpha(255, 1, 3), 127);
    // Zero base alpha stays transparent at any coverage.
    assert_eq!(glyph_alpha(0, 100, 100), 0);
    // Half coverage at half alpha: 128 * 0.5 * 1.5 = 96.
    assert_eq!(glyph_alpha(128, 1, 2), 96);
}

#[test]
fn raster_composites_coverage() {
    let mut buf = RasterBuf::new_raster(2, 2);
    assert_eq!(buf.data.len(), 16);
    assert!(buf.data.iter().all(|&b| b == 0));
    let color = Color::new(10, 20, 30, 255);
    let samples = vec![CoverageSample { dx: 1, dy: 0, cov_num: 100 }];
    buf.composite_glyph(0, 1, &samples, 100, color);
    // The sample lands at pixel (1, 1): bytes from 4 * (1 * 2 + 1) = 12.
    assert_eq!(&buf.data[12..16], &[10, 20, 30, 255]);
    // Other pixels stay untouched.
    assert!(buf.data[0..12].iter().all(|&b| b == 0));
}

#[test]
fn raster_clips_out_of_bounds_samples() {
    let mut buf = RasterBuf::new_raster(2, 2);
    let color = Color::new(1, 2, 3, 255);
    let samples = vec![CoverageSample { dx: 5, dy: 5, cov_num: 1 }];
    buf.composite_glyph(0, 0, &samples, 1, color);
    assert!(buf.data.iter().all(|&b| b == 0));
}
