//! Spritemaps: one decoded texture holding a grid of equally-sized
//! sprites, with utilities for cutting individual sprites out.
//!
//! A spritemap is created with a default sprite cell width and
//! height, which [`Spritemap::get_id`] uses to cut cell number `id`
//! out of the grid; [`Spritemap::get_rect`] cuts an arbitrarily
//! placed rectangle. Cutting a sprite copies the pixel data.
//!
//! Requests that would read outside the texture yield `None` rather
//! than a fault; in particular a cell index past the grid is
//! rejected.

use vstd::prelude::*;

use crate::sprite::{decode_image, decoded_rgba, format_ext, format_ext_spec, texture_raw,
    ImageFormat, Texture};

verus! {

/// A decoded texture with utilities for retrieving sprites from a
/// grid of cells.
pub struct Spritemap {
    /// The RGBA8 pixel bytes of the whole texture.
    tex: Vec<u8>,
    /// The texture width, in pixels.
    tw: u32,
    /// The texture height, in pixels.
    th: u32,
    /// The width of one sprite cell.
    w: u32,
    /// The height of one sprite cell.
    h: u32,
    /// The number of cells across.
    sw: u32,
    /// The number of cells down.
    sh: u32,
}

/// The four bytes of the pixel at `(px, py)` of a row-major RGBA8
/// texture of width `tw`.
pub open spec fn pixel_spec(tex: Seq<u8>, tw: int, px: int, py: int) -> Seq<u8> {
    seq![
        tex[4 * (py * tw + px)],
        tex[4 * (py * tw + px) + 1],
        tex[4 * (py * tw + px) + 2],
        tex[4 * (py * tw + px) + 3],
    ]
}

/// The bytes of one row segment: `w` pixels starting at `(x, py)`.
pub open spec fn row_spec(tex: Seq<u8>, tw: int, x: int, py: int, w: int) -> Seq<u8>
    decreases w,
{
    if w <= 0 {
        Seq::empty()
    } else {
        row_spec(tex, tw, x, py, w - 1) + pixel_spec(tex, tw, x + w - 1, py)
    }
}

/// The bytes of a `w` by `h` rectangle of pixels starting at
/// `(x, y)`, rows first.
pub open spec fn sample_spec(tex: Seq<u8>, tw: int, x: int, y: int, w: int, h: int) -> Seq<u8>
    decreases h,
{
    if h <= 0 {
        Seq::empty()
    } else {
        sample_spec(tex, tw, x, y, w, h - 1) + row_spec(tex, tw, x, y + h - 1, w)
    }
}

/// A row segment holds four bytes per pixel.
proof fn lemma_row_len(tex: Seq<u8>, tw: int, x: int, py: int, w: int)
    requires
        w >= 0,
    ensures
        row_spec(tex, tw, x, py, w).len() == 4 * w,
    decreases w,
{
    if w > 0 {
        lemma_row_len(tex, tw, x, py, w - 1);
    }
}

/// A sampled rectangle holds four bytes per pixel.
proof fn lemma_sample_len(tex: Seq<u8>, tw: int, x: int, y: int, w: int, h: int)
    requires
        w >= 0,
        h >= 0,
    ensures
        sample_spec(tex, tw, x, y, w, h).len() == 4 * w * h,
    decreases h,
{
    if h > 0 {
        lemma_sample_len(tex, tw, x, y, w, h - 1);
        lemma_row_len(tex, tw, x, y + h - 1, w);
        assert(4 * w * (h - 1) + 4 * w == 4 * w * h) by (nonlinear_arith);
    } else {
        assert(4 * w * h == 0) by (nonlinear_arith)
            requires
                h == 0,
        ;
    }
}

impl Spritemap {
    /// A spritemap is well-formed when the pixel buffer matches the
    /// texture size, the cell size is positive and divides the
    /// texture evenly, and the grid counts are the quotients.
    pub closed spec fn wf(&self) -> bool {
        &&& self.tex@.len() == 4 * self.tw * self.th
        &&& self.w >= 1
        &&& self.h >= 1
        &&& self.tw % self.w == 0
        &&& self.th % self.h == 0
        &&& self.sw == self.tw / self.w
        &&& self.sh == self.th / self.h
    }

    /// The texture's pixel bytes.
    pub closed spec fn tex_spec(&self) -> Seq<u8> {
        self.tex@
    }

    /// The texture's width in pixels.
    pub closed spec fn tex_w(&self) -> u32 {
        self.tw
    }

    /// The texture's height in pixels.
    pub closed spec fn tex_h(&self) -> u32 {
        self.th
    }

    /// The sprite cell size the map was created with.
    pub closed spec fn cell_size(&self) -> (u32, u32) {
        (self.w, self.h)
    }

    /// The grid size in cells: across and down.
    pub closed spec fn grid_size(&self) -> (u32, u32) {
        (self.sw, self.sh)
    }

    /// Creates a spritemap by decoding image bytes in the given
    /// format, with sprite cells `w` by `h` pixels.
    ///
    /// Returns `None` when the bytes do not decode or the image's
    /// dimensions do not divide evenly into the cell size.
    pub fn new(data: Vec<u8>, fmt: ImageFormat, w: u32, h: u32) -> (r: Option<Spritemap>)
        requires
            w >= 1,
            h >= 1,
        ensures
            decoded_rgba(data@, format_ext_spec(fmt)) is None ==> r is None,
            decoded_rgba(data@, format_ext_spec(fmt)) matches Some(d) ==> if d.1 % w == 0 && d.2
                % h == 0 {
                r matches Some(sm) && sm.wf() && sm.tex_spec() == d.0 && sm.tex_w() == d.1
                    && sm.tex_h() == d.2 && sm.cell_size() == (w, h) && sm.grid_size() == (
                d.1 / w,
                d.2 / h,
                )
            } else {
                r is None
            },
    {
        let (pixels, tw, th) = match decode_image(data, format_ext(fmt)) {
            Some(p) => p,
            None => {
                return None;
            },
        };
        if tw % w != 0 || th % h != 0 {
            return None;
        }
        let sw = tw / w;
        let sh = th / h;
        Some(Spritemap { tex: pixels, tw, th, w, h, sw, sh })
    }

    /// Copies out a rectangle of pixels, rows first.
    fn sample_rect(&self, x: u32, y: u32, w: u32, h: u32) -> (r: Vec<u8>)
        requires
            self.wf(),
            x + w <= self.tw,
            y + h <= self.th,
        ensures
            r@ == sample_spec(self.tex@, self.tw as int, x as int, y as int, w as int, h as int),
    {
        let ghost txs = self.tex@;
        let ghost twi = self.tw as int;
        let total = self.tex.len();
        let mut pb: Vec<u8> = Vec::new();
        proof {
            assert(pb@ =~= sample_spec(txs, twi, x as int, y as int, w as int, 0));
        }
        let mut yy: u32 = 0;
        while yy < h
            invariant
                self.wf(),
                x + w <= self.tw,
                y + h <= self.th,
                yy <= h,
                total == self.tex@.len(),
                txs == self.tex@,
                twi == self.tw as int,
                pb@ == sample_spec(txs, twi, x as int, y as int, w as int, yy as int),
            decreases h - yy,
        {
            let py = y + yy;
            let mut xx: u32 = 0;
            proof {
                assert(row_spec(txs, twi, x as int, py as int, 0)
                    =~= Seq::<u8>::empty());
                assert(pb@ =~= sample_spec(txs, twi, x as int, y as int, w as int, yy as int)
                    + row_spec(txs, twi, x as int, py as int, 0));
            }
            while xx < w
                invariant
                    self.wf(),
                    x + w <= self.tw,
                    y + h <= self.th,
                    yy < h,
                    xx <= w,
                    py == y + yy,
                    total == self.tex@.len(),
                    txs == self.tex@,
                    twi == self.tw as int,
                    pb@ == sample_spec(txs, twi, x as int, y as int, w as int, yy as int)
                        + row_spec(txs, twi, x as int, py as int, xx as int),
                decreases w - xx,
            {
                let px = x + xx;
                proof {
                    let pxi = px as int;
                    let pyi = py as int;
                    let thi = self.th as int;
                    assert(pyi * twi + pxi < twi * thi) by (nonlinear_arith)
                        requires
                            0 <= pxi < twi,
                            0 <= pyi < thi,
                    ;
                    assert(0 <= pyi * twi) by (nonlinear_arith)
                        requires
                            0 <= pyi,
                            0 <= twi,
                    ;
                    assert(4 * (twi * thi) == 4 * twi * thi) by (nonlinear_arith);
                }
                let ghost pb_prev = pb@;
                let idx: usize = 4 * (py as usize * self.tw as usize + px as usize);
                pb.push(self.tex[idx]);
                pb.push(self.tex[idx + 1]);
                pb.push(self.tex[idx + 2]);
                pb.push(self.tex[idx + 3]);
                proof {
                    assert(pb@ =~= pb_prev + pixel_spec(txs, twi, px as int, py as int));
                    assert(pb@ =~= sample_spec(txs, twi, x as int, y as int, w as int, yy as int)
                        + row_spec(txs, twi, x as int, py as int, xx as int + 1));
                }
                xx += 1;
            }
            proof {
                assert(pb@ =~= sample_spec(txs, twi, x as int, y as int, w as int, yy as int + 1));
            }
            yy += 1;
        }
        pb
    }

    /// Cuts out sprite cell number `id` using the preset cell size,
    /// counting cells across then down.
    ///
    /// Returns `None` when `id` lies past the grid. `w` and `h` size
    /// the drawn texture as in [`texture_raw`].
    pub fn get_id(&self, id: u32, w: Option<i32>, h: Option<i32>) -> (r: Option<Texture>)
        requires
            self.wf(),
        ensures
            r is Some <==> id < self.grid_size().0 * self.grid_size().1,
            r matches Some(t) ==> t.data@ == sample_spec(
                self.tex_spec(),
                self.tex_w() as int,
                (id % self.grid_size().0) as int * self.cell_size().0 as int,
                (id / self.grid_size().0) as int * self.cell_size().1 as int,
                self.cell_size().0 as int,
                self.cell_size().1 as int,
            ) && t.dimensions == self.cell_size(),
    {
        proof {
            crate::shape::lemma_mul_abs_bound(
                self.sw as int,
                self.sh as int,
                0xffff_ffff,
                0xffff_ffff,
            );
        }
        if (id as u64) >= self.sw as u64 * self.sh as u64 {
            return None;
        }
        proof {
            let idi = id as int;
            let swi = self.sw as int;
            let shi = self.sh as int;
            let wi = self.w as int;
            let hi = self.h as int;
            let twi = self.tw as int;
            let thi = self.th as int;
            assert(swi >= 1 && shi >= 1) by (nonlinear_arith)
                requires
                    idi < swi * shi,
                    0 <= idi,
                    0 <= swi,
                    0 <= shi,
            ;
            vstd::arithmetic::div_mod::lemma_fundamental_div_mod(twi, wi);
            vstd::arithmetic::div_mod::lemma_fundamental_div_mod(thi, hi);
            vstd::arithmetic::div_mod::lemma_fundamental_div_mod(idi, swi);
            assert(idi / swi < shi) by (nonlinear_arith)
                requires
                    idi < swi * shi,
                    swi >= 1,
                    0 <= idi,
            ;
            assert((idi % swi) * wi + wi <= swi * wi) by (nonlinear_arith)
                requires
                    0 <= idi % swi < swi,
                    wi >= 1,
            ;
            assert((idi / swi) * hi + hi <= shi * hi) by (nonlinear_arith)
                requires
                    0 <= idi / swi < shi,
                    hi >= 1,
            ;
            assert(swi * wi == twi && shi * hi == thi) by (nonlinear_arith)
                requires
                    swi == twi / wi,
                    shi == thi / hi,
                    twi % wi == 0,
                    thi % hi == 0,
                    twi == wi * (twi / wi) + twi % wi,
                    thi == hi * (thi / hi) + thi % hi,
            ;
        }
        let x = (id % self.sw) * self.w;
        let y = (id / self.sw) * self.h;
        let pb = self.sample_rect(x, y, self.w, self.h);
        Some(texture_raw(pb, (self.w, self.h), w, h))
    }

    /// Cuts out an arbitrary sub-rectangle of the spritemap,
    /// ignoring the cell grid.
    ///
    /// Returns `None` when the rectangle reaches the texture's right
    /// or bottom edge or beyond. `tw` and `th` size the drawn
    /// texture as in [`texture_raw`].
    pub fn get_rect(&self, x: u32, y: u32, w: u32, h: u32, tw: Option<i32>, th: Option<i32>) -> (r:
        Option<Texture>)
        requires
            self.wf(),
        ensures
            r is Some <==> x + w < self.tex_w() && y + h < self.tex_h(),
            r matches Some(t) ==> t.data@ == sample_spec(
                self.tex_spec(),
                self.tex_w() as int,
                x as int,
                y as int,
                w as int,
                h as int,
            ) && t.dimensions == (w, h),
    {
        if x as u64 + w as u64 >= self.tw as u64 || y as u64 + h as u64 >= self.th as u64 {
            return None;
        }
        let pb = self.sample_rect(x, y, w, h);
        Some(texture_raw(pb, (w, h), tw, th))
    }
}

} // verus!
