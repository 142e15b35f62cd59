//! Text layout and glyph rasterization bookkeeping.
//!
//! A text run is laid out left to right in abstract subpixel units:
//! the pen advances by each glyph's horizontal advance plus its
//! kerning against the previous glyph, a newline resets the pen to
//! the line origin and moves it down one line, and a non-whitespace
//! glyph that would pass the maximum width wraps the same way. The
//! run's raster size is the bounding box from the first and last
//! glyph, padded by a fixed margin; an empty run has no bounding box
//! and is reported as a skipped draw rather than a fault.
//!
//! The font's metrics (advances, kerning, ascent, line height,
//! per-glyph coverage) are measured by the device-facing caller with
//! its font library and handed in as plain integer values; every
//! decision made from them is verified here.

use vstd::prelude::*;

use crate::color::Color;

verus! {

/// The magnitude bound on one glyph metric (an advance or a
/// kerning), in subpixel units.
pub const METRIC_LIMIT: i64 = 0x10_0000;

/// The magnitude bound on a layout origin or maximum width, in
/// subpixel units.
pub const ORIGIN_LIMIT: i64 = 0x100_0000_0000;

/// The bound on how many glyphs one run may hold.
pub const GLYPH_LIMIT: usize = 0x10_0000;

/// One input glyph: the character class flags the layout needs, the
/// glyph's horizontal advance, and its kerning against the previous
/// character, all in subpixel units.
#[derive(Debug, Clone, Copy, PartialEq, Eq, Structural)]
pub struct GlyphInput {
    /// Whether the character is a control character (laid out only
    /// as a possible newline).
    pub control: bool,
    /// Whether the character is a newline.
    pub newline: bool,
    /// Whether the character is whitespace (exempt from wrapping).
    pub whitespace: bool,
    /// The glyph's horizontal advance.
    pub advance: i64,
    /// The kerning between the previous character's glyph and this
    /// one.
    pub kern: i64,
}

/// One placed glyph: its pen position and its advance, in subpixel
/// units.
#[derive(Debug, Clone, Copy, PartialEq, Eq, Structural)]
pub struct PlacedGlyph {
    /// The glyph's x position.
    pub x: i64,
    /// The glyph's y position (the baseline of its line).
    pub y: i64,
    /// The glyph's horizontal advance.
    pub advance: i64,
}

/// Whether a glyph's metrics are within the layout's bounds.
pub open spec fn glyph_ok(g: GlyphInput) -> bool {
    &&& -METRIC_LIMIT <= g.advance <= METRIC_LIMIT
    &&& -METRIC_LIMIT <= g.kern <= METRIC_LIMIT
}

/// The pen state after laying out one character, from the state
/// `(pen x, pen y, had a previous glyph)` before it.
pub open spec fn layout_step_state(
    ox: int,
    max_w: int,
    v_adv: int,
    st: (int, int, bool),
    g: GlyphInput,
) -> (int, int, bool) {
    if g.control {
        if g.newline {
            (ox, st.1 + v_adv, false)
        } else {
            st
        }
    } else {
        let cx1 = if st.2 {
            st.0 + g.kern
        } else {
            st.0
        };
        let cx2 = cx1 + g.advance;
        if !g.whitespace && cx2 > ox + max_w {
            (ox, st.1 + v_adv, false)
        } else {
            (cx2, st.1, true)
        }
    }
}

/// The glyphs emitted for one character: control characters emit
/// nothing; a wrapped glyph is emitted at the fresh line origin;
/// any other glyph is emitted at the kerned pen position. Each
/// emitted triple is `(x, y, advance)`.
pub open spec fn layout_step_out(
    ox: int,
    max_w: int,
    v_adv: int,
    st: (int, int, bool),
    g: GlyphInput,
) -> Seq<(int, int, int)> {
    if g.control {
        Seq::empty()
    } else {
        let cx1 = if st.2 {
            st.0 + g.kern
        } else {
            st.0
        };
        let cx2 = cx1 + g.advance;
        if !g.whitespace && cx2 > ox + max_w {
            seq![(ox, st.1 + v_adv, g.advance as int)]
        } else {
            seq![(cx1, st.1, g.advance as int)]
        }
    }
}

/// The glyphs emitted for a whole run from a starting pen state.
pub open spec fn layout_from(
    gs: Seq<GlyphInput>,
    ox: int,
    max_w: int,
    v_adv: int,
    st: (int, int, bool),
) -> Seq<(int, int, int)>
    decreases gs.len(),
{
    if gs.len() == 0 {
        Seq::empty()
    } else {
        layout_step_out(ox, max_w, v_adv, st, gs[0]) + layout_from(
            gs.drop_first(),
            ox,
            max_w,
            v_adv,
            layout_step_state(ox, max_w, v_adv, st, gs[0]),
        )
    }
}

/// The laid-out positions of a run: the pen starts at the origin
/// moved down by the font's ascent, with no previous glyph.
pub open spec fn layout_spec(
    gs: Seq<GlyphInput>,
    ox: int,
    oy: int,
    max_w: int,
    v_adv: int,
    ascent: int,
) -> Seq<(int, int, int)> {
    layout_from(gs, ox, max_w, v_adv, (ox, oy + ascent, false))
}

/// The placed triple of a glyph, for relating executable output to
/// the layout specification.
pub open spec fn placed_triple(p: PlacedGlyph) -> (int, int, int) {
    (p.x as int, p.y as int, p.advance as int)
}

/// Whether one placed glyph lies within the bounds that run
/// measurement ([`run_dimensions`]) asks of its input: positions
/// well inside the 64-bit range and a bounded advance.
pub open spec fn placed_bounded(p: PlacedGlyph) -> bool {
    &&& -0x1000_0000_0000 <= p.x <= 0x1000_0000_0000
    &&& -0x1000_0000_0000 <= p.y <= 0x1000_0000_0000
    &&& -METRIC_LIMIT <= p.advance <= METRIC_LIMIT
}

/// Lays out a run of glyphs.
///
/// The pen starts at `(ox, oy + ascent)`. For each non-control
/// character the pen is kerned against the previous glyph, the glyph
/// is placed, and the pen advances; a newline, or a non-whitespace
/// glyph passing `ox + max_width`, resets the pen to the line origin
/// one line (`v_advance`) further down. Control characters other
/// than newline are skipped.
pub fn layout_paragraph(
    glyphs: &Vec<GlyphInput>,
    ox: i64,
    oy: i64,
    max_width: i64,
    v_advance: i64,
    ascent: i64,
) -> (placed: Vec<PlacedGlyph>)
    requires
        glyphs@.len() <= GLYPH_LIMIT,
        forall|i: int| 0 <= i < glyphs@.len() ==> glyph_ok(#[trigger] glyphs@[i]),
        -ORIGIN_LIMIT <= ox <= ORIGIN_LIMIT,
        -ORIGIN_LIMIT <= oy <= ORIGIN_LIMIT,
        -ORIGIN_LIMIT <= max_width <= ORIGIN_LIMIT,
        -METRIC_LIMIT <= v_advance <= METRIC_LIMIT,
        -METRIC_LIMIT <= ascent <= METRIC_LIMIT,
    ensures
        placed@.map_values(|p: PlacedGlyph| placed_triple(p)) == layout_spec(
            glyphs@,
            ox as int,
            oy as int,
            max_width as int,
            v_advance as int,
            ascent as int,
        ),
        placed@.len() <= glyphs@.len(),
        forall|i: int| 0 <= i < placed@.len() ==> placed_bounded(#[trigger] placed@[i]),
{
    let ghost gs = glyphs@;
    let ghost oxi = ox as int;
    let ghost mwi = max_width as int;
    let ghost vai = v_advance as int;
    let mut placed: Vec<PlacedGlyph> = Vec::new();
    let mut cx: i64 = ox;
    let mut cy: i64 = oy + ascent;
    let mut has_prev: bool = false;
    let mut i: usize = 0;
    proof {
        assert(layout_spec(gs, oxi, oy as int, mwi, vai, ascent as int) == placed@.map_values(
            |p: PlacedGlyph| placed_triple(p),
        ) + layout_from(gs.skip(0), oxi, mwi, vai, (cx as int, cy as int, has_prev))) by {
            assert(gs.skip(0) =~= gs);
            assert(placed@.map_values(|p: PlacedGlyph| placed_triple(p))
                =~= Seq::<(int, int, int)>::empty());
        }
    }
    while i < glyphs.len()
        invariant
            i <= gs.len(),
            gs == glyphs@,
            gs.len() <= GLYPH_LIMIT,
            forall|j: int| 0 <= j < gs.len() ==> glyph_ok(#[trigger] gs[j]),
            -ORIGIN_LIMIT <= ox <= ORIGIN_LIMIT,
            -ORIGIN_LIMIT <= max_width <= ORIGIN_LIMIT,
            -METRIC_LIMIT <= v_advance <= METRIC_LIMIT,
            oxi == ox as int,
            mwi == max_width as int,
            vai == v_advance as int,
            -(0x100_0000_0000 + 0x20_0000 * (i as int)) <= cx as int <= 0x100_0000_0000
                + 0x20_0000 * (i as int),
            -(0x200_0000_0000 + 0x10_0000 * (1 + i as int)) <= cy as int <= 0x200_0000_0000
                + 0x10_0000 * (1 + i as int),
            placed@.len() <= i,
            forall|j: int| 0 <= j < placed@.len() ==> placed_bounded(#[trigger] placed@[j]),
            layout_spec(gs, oxi, oy as int, mwi, vai, ascent as int) == placed@.map_values(
                |p: PlacedGlyph| placed_triple(p),
            ) + layout_from(gs.skip(i as int), oxi, mwi, vai, (cx as int, cy as int, has_prev)),
        decreases gs.len() - i,
    {
        let g = glyphs[i];
        let ghost st = (cx as int, cy as int, has_prev);
        let ghost rest = gs.skip(i as int);
        proof {
            assert(g == gs[i as int]);
            assert(glyph_ok(gs[i as int]));
            assert(rest[0] == gs[i as int]);
            assert(rest.drop_first() =~= gs.skip(i as int + 1));
        }
        let ghost placed_prev = placed@;
        if g.control {
            if g.newline {
                cx = ox;
                cy = cy + v_advance;
                has_prev = false;
            }
        } else {
            if has_prev {
                cx = cx + g.kern;
            }
            let gx = cx;
            cx = cx + g.advance;
            let limit = ox + max_width;
            if !g.whitespace && cx > limit {
                cx = ox;
                cy = cy + v_advance;
                placed.push(PlacedGlyph { x: cx, y: cy, advance: g.advance });
                has_prev = false;
            } else {
                placed.push(PlacedGlyph { x: gx, y: cy, advance: g.advance });
                has_prev = true;
            }
        }
        proof {
            assert(placed@.map_values(|p: PlacedGlyph| placed_triple(p))
                =~= placed_prev.map_values(|p: PlacedGlyph| placed_triple(p)) + layout_step_out(
                oxi,
                mwi,
                vai,
                st,
                gs[i as int],
            ));
        }
        i += 1;
    }
    proof {
        assert(gs.skip(gs.len() as int) =~= Seq::<GlyphInput>::empty());
    }
    placed
}

/// Rounds a nonnegative subpixel length up to whole pixels:
/// `ceil(a / den)` for positive `den`.
pub open spec fn ceil_div_spec(a: int, den: int) -> int {
    (a + den - 1) / den
}

/// The padded raster width of a run, in pixels: the distance from
/// the first glyph's position to the last glyph's position plus its
/// advance, rounded up to pixels (clamped at zero, as the saturating
/// float-to-integer conversion does), plus the fixed margin of 50.
pub open spec fn run_width_spec(first: PlacedGlyph, last: PlacedGlyph, den: int) -> int {
    let dx = last.x + last.advance - first.x;
    (if dx <= 0 {
        0int
    } else {
        ceil_div_spec(dx, den)
    }) + 50
}

/// The padded raster size of a laid-out run, in pixels.
///
/// Returns `None` — the run is empty, a zero-size skipped draw —
/// exactly when no glyph was placed. Otherwise the width spans the
/// first to the last glyph with the fixed margin of 50, and the
/// height is the font height (already in whole pixels) plus the
/// same margin.
pub fn run_dimensions(placed: &Vec<PlacedGlyph>, scale_den: i64, height_px: i64) -> (r: Option<
    (i64, i64)>)
    requires
        1 <= scale_den <= 0x10_0000,
        0 <= height_px <= 0x1000_0000,
        forall|i: int| 0 <= i < placed@.len() ==> placed_bounded(#[trigger] placed@[i]),
    ensures
        r is Some <==> placed@.len() > 0,
        r matches Some(d) ==> d.0 == run_width_spec(
            placed@[0],
            placed@[placed@.len() - 1],
            scale_den as int,
        ) && d.1 == height_px + 50,
{
    if placed.len() == 0 {
        return None;
    }
    let first = placed[0];
    let last = placed[placed.len() - 1];
    let dx = last.x + last.advance - first.x;
    let w_px: i64 = if dx <= 0 {
        0
    } else {
        proof {
            assert(0 <= (dx as int + scale_den as int - 1) / (scale_den as int) <= dx)
                by (nonlinear_arith)
                requires
                    dx >= 1,
                    scale_den >= 1,
            ;
        }
        (dx + scale_den - 1) / scale_den
    };
    Some((w_px + 50, height_px + 50))
}

/// The rendered alpha of one glyph pixel: the resolved base alpha
/// scaled by the coverage and the legacy brightness boost of one and
/// a half (the empirical 382.5-per-unit multiplier over the 255 of
/// plain coverage), truncated and clamped to a byte.
pub open spec fn glyph_alpha_spec(base_alpha: u8, cov_num: u32, cov_den: u32) -> int {
    let v = (3 * base_alpha * cov_num) / (2 * cov_den);
    if v > 255 {
        255int
    } else {
        v
    }
}

/// Computes the rendered alpha of one glyph pixel from the sprite's
/// base alpha and the rasterizer's coverage fraction.
pub fn glyph_alpha(base_alpha: u8, cov_num: u32, cov_den: u32) -> (r: u8)
    requires
        cov_den >= 1,
        cov_num <= cov_den,
    ensures
        r == glyph_alpha_spec(base_alpha, cov_num, cov_den),
{
    proof {
        crate::shape::lemma_mul_abs_bound(
            3 * base_alpha as int,
            cov_num as int,
            0x300,
            0xffff_ffff,
        );
    }
    let v = (3 * base_alpha as u64 * cov_num as u64) / (2 * cov_den as u64);
    if v > 255 {
        255
    } else {
        v as u8
    }
}

/// One coverage sample from rasterizing a glyph's outline: a pixel
/// offset within the glyph's bounds and the coverage numerator
/// there.
#[derive(Debug, Clone, Copy, PartialEq, Eq, Structural)]
pub struct CoverageSample {
    /// The x offset within the glyph's bounding box.
    pub dx: u32,
    /// The y offset within the glyph's bounding box.
    pub dy: u32,
    /// The coverage numerator at this pixel.
    pub cov_num: u32,
}

/// A raster buffer of RGBA8 pixels being filled with glyph
/// coverage.
#[derive(Debug, Clone, PartialEq, Eq)]
pub struct RasterBuf {
    /// The pixel bytes, four per pixel, rows first.
    pub data: Vec<u8>,
    /// The width, in pixels.
    pub w: usize,
    /// The height, in pixels.
    pub h: usize,
}

impl RasterBuf {
    /// A raster buffer is well-formed when it holds exactly four
    /// bytes per pixel and is small enough to index.
    pub open spec fn wf(&self) -> bool {
        &&& self.data@.len() == 4 * self.w * self.h
        &&& 4 * self.w * self.h <= 0xffff_ffff
    }

    /// The byte index of a pixel's first channel.
    pub open spec fn pixel_index(&self, x: int, y: int) -> int {
        4 * (y * self.w + x)
    }

    /// Creates a zeroed raster buffer of the given pixel size.
    pub fn new_raster(w: usize, h: usize) -> (r: RasterBuf)
        requires
            w * h <= 0x3fff_ffff,
        ensures
            r.wf(),
            r.w == w,
            r.h == h,
            r.data@ == Seq::new((4 * w * h) as nat, |i: int| 0u8),
    {
        let n = 4 * (w * h);
        let data = vec![0u8; n];
        let r = RasterBuf { data, w, h };
        proof {
            assert(4 * ((w as int) * (h as int)) == 4 * (w as int) * (h as int))
                by (nonlinear_arith);
            assert forall|i: int| 0 <= i < r.data@.len() implies r.data@[i] == 0u8 by {
                assert(cloned(0u8, r.data@[i]));
            }
            assert(r.data@ =~= Seq::new((4 * w * h) as nat, |i: int| 0u8));
        }
        r
    }

    /// Writes one pixel's four channels.
    pub fn set_pixel(&mut self, x: usize, y: usize, color: Color, alpha: u8)
        requires
            old(self).wf(),
            x < old(self).w,
            y < old(self).h,
        ensures
            final(self).wf(),
            final(self).w == old(self).w,
            final(self).h == old(self).h,
            final(self).data@ == old(self).data@.update(
                old(self).pixel_index(x as int, y as int),
                color.r,
            ).update(old(self).pixel_index(x as int, y as int) + 1, color.g).update(
                old(self).pixel_index(x as int, y as int) + 2,
                color.b,
            ).update(old(self).pixel_index(x as int, y as int) + 3, alpha),
    {
        proof {
            let wi = self.w as int;
            let hi = self.h as int;
            let xi = x as int;
            let yi = y as int;
            assert(yi * wi + xi < wi * hi) by (nonlinear_arith)
                requires
                    0 <= xi < wi,
                    0 <= yi < hi,
            ;
            assert(0 <= yi * wi) by (nonlinear_arith)
                requires
                    0 <= yi,
                    0 <= wi,
            ;
            assert(4 * (wi * hi) == 4 * wi * hi) by (nonlinear_arith);
        }
        let idx = 4 * (y * self.w + x);
        self.data[idx] = color.r;
        self.data[idx + 1] = color.g;
        self.data[idx + 2] = color.b;
        self.data[idx + 3] = alpha;
    }

    /// The buffer after compositing the first `n` coverage samples
    /// of a glyph whose bounding box starts at `(min_x, min_y)`:
    /// each in-bounds sample writes the sprite color with the
    /// coverage-scaled alpha at its offset pixel, later samples
    /// overwriting earlier ones; out-of-bounds samples are clipped.
    pub open spec fn composite_upto(
        data: Seq<u8>,
        w: int,
        h: int,
        min_x: int,
        min_y: int,
        samples: Seq<CoverageSample>,
        cov_den: u32,
        color: Color,
        n: int,
    ) -> Seq<u8>
        decreases n,
    {
        if n <= 0 {
            data
        } else {
            let prev = Self::composite_upto(data, w, h, min_x, min_y, samples, cov_den, color, n - 1);
            let s = samples[n - 1];
            let x = min_x + s.dx;
            let y = min_y + s.dy;
            if x < w && y < h {
                let idx = 4 * (y * w + x);
                prev.update(idx, color.r).update(idx + 1, color.g).update(idx + 2, color.b).update(
                    idx + 3,
                    glyph_alpha_spec(color.a, s.cov_num, cov_den) as u8,
                )
            } else {
                prev
            }
        }
    }

    /// Composites one glyph's coverage samples into the buffer.
    ///
    /// The glyph's bounding box starts at `(min_x, min_y)`; each
    /// sample colors the pixel at its offset with the sprite color
    /// and the coverage-scaled alpha. Samples falling outside the
    /// buffer are clipped rather than faulting.
    pub fn composite_glyph(
        &mut self,
        min_x: usize,
        min_y: usize,
        samples: &Vec<CoverageSample>,
        cov_den: u32,
        color: Color,
    )
        requires
            old(self).wf(),
            cov_den >= 1,
            min_x <= 0xffff_ffff,
            min_y <= 0xffff_ffff,
            forall|i: int| 0 <= i < samples@.len() ==> (#[trigger] samples@[i]).cov_num <= cov_den,
        ensures
            final(self).wf(),
            final(self).w == old(self).w,
            final(self).h == old(self).h,
            final(self).data@ == RasterBuf::composite_upto(
                old(self).data@,
                old(self).w as int,
                old(self).h as int,
                min_x as int,
                min_y as int,
                samples@,
                cov_den,
                color,
                samples@.len() as int,
            ),
    {
        let ghost orig = self.data@;
        let ghost w = self.w as int;
        let ghost h = self.h as int;
        let mut i: usize = 0;
        while i < samples.len()
            invariant
                self.wf(),
                self.w == old(self).w,
                self.h == old(self).h,
                i <= samples@.len(),
                cov_den >= 1,
                min_x <= 0xffff_ffff,
                min_y <= 0xffff_ffff,
                w == old(self).w as int,
                h == old(self).h as int,
                orig == old(self).data@,
                forall|j: int| 0 <= j < samples@.len() ==> (#[trigger] samples@[j]).cov_num
                    <= cov_den,
                self.data@ == RasterBuf::composite_upto(
                    orig,
                    w,
                    h,
                    min_x as int,
                    min_y as int,
                    samples@,
                    cov_den,
                    color,
                    i as int,
                ),
            decreases samples@.len() - i,
        {
            let s = samples[i];
            let x = min_x as u64 + s.dx as u64;
            let y = min_y as u64 + s.dy as u64;
            if x < self.w as u64 && y < self.h as u64 {
                let alpha = glyph_alpha(color.a, s.cov_num, cov_den);
                self.set_pixel(x as usize, y as usize, color, alpha);
            }
            i += 1;
        }
    }
}

} // verus!
