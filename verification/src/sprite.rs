//! The sprite variants and their constructors.
//!
//! The drawable sprite kinds form a closed set: [`Rect`], [`Circle`],
//! [`Triangle`], [`Text`] and [`Texture`], gathered in the [`Shape`]
//! sum type. Textures are decoded from encoded image bytes through
//! the `image` crate; fonts are parsed through `ab_glyph`. A decode
//! or parse failure yields `None` — the shape is simply never
//! created — rather than a fault.

use vstd::prelude::*;

use crate::attrs::SpriteData;
use crate::shape::{Circle, Rect, Triangle};

verus! {

/// An image format for decoding encoded image bytes, mirrored as a
/// plain closed enum; the decoder receives it as the format's
/// conventional file extension.
#[derive(Debug, Clone, Copy, PartialEq, Eq, Structural)]
pub enum ImageFormat {
    /// Portable Network Graphics.
    Png,
    /// JPEG.
    Jpeg,
    /// Graphics Interchange Format.
    Gif,
    /// WebP.
    WebP,
    /// Portable aNy Map.
    Pnm,
    /// Tagged Image File Format.
    Tiff,
    /// Truevision TGA.
    Tga,
    /// DirectDraw Surface.
    Dds,
    /// Windows Bitmap.
    Bmp,
    /// Windows Icon.
    Ico,
    /// Radiance HDR.
    Hdr,
    /// OpenEXR.
    OpenExr,
    /// Farbfeld.
    Farbfeld,
    /// AVIF.
    Avif,
    /// Quite OK Image format.
    Qoi,
}

/// The file extension naming each image format — the extension the
/// decoder recognizes, so the PNM family travels as `"ppm"`.
pub open spec fn format_ext_spec(fmt: ImageFormat) -> Seq<char> {
    match fmt {
        ImageFormat::Png => "png"@,
        ImageFormat::Jpeg => "jpg"@,
        ImageFormat::Gif => "gif"@,
        ImageFormat::WebP => "webp"@,
        ImageFormat::Pnm => "ppm"@,
        ImageFormat::Tiff => "tiff"@,
        ImageFormat::Tga => "tga"@,
        ImageFormat::Dds => "dds"@,
        ImageFormat::Bmp => "bmp"@,
        ImageFormat::Ico => "ico"@,
        ImageFormat::Hdr => "hdr"@,
        ImageFormat::OpenExr => "exr"@,
        ImageFormat::Farbfeld => "ff"@,
        ImageFormat::Avif => "avif"@,
        ImageFormat::Qoi => "qoi"@,
    }
}

/// Returns the file extension naming an image format, as the
/// decoder recognizes it.
pub fn format_ext(fmt: ImageFormat) -> (r: &'static str)
    ensures
        r@ == format_ext_spec(fmt),
{
    match fmt {
        ImageFormat::Png => "png",
        ImageFormat::Jpeg => "jpg",
        ImageFormat::Gif => "gif",
        ImageFormat::WebP => "webp",
        ImageFormat::Pnm => "ppm",
        ImageFormat::Tiff => "tiff",
        ImageFormat::Tga => "tga",
        ImageFormat::Dds => "dds",
        ImageFormat::Bmp => "bmp",
        ImageFormat::Ico => "ico",
        ImageFormat::Hdr => "hdr",
        ImageFormat::OpenExr => "exr",
        ImageFormat::Farbfeld => "ff",
        ImageFormat::Avif => "avif",
        ImageFormat::Qoi => "qoi",
    }
}

/// What decoding encoded image bytes under a format extension
/// yields: the RGBA8 pixel bytes and the image's width and height,
/// or nothing if the bytes do not decode. A function of the bytes
/// and the extension alone.
pub uninterp spec fn decoded_rgba(data: Seq<u8>, ext: Seq<char>) -> Option<(Seq<u8>, u32, u32)>;

/// Relies on `image::ImageFormat::from_extension`, `image::load` and
/// `image::DynamicImage::to_rgba8`: decodes encoded image bytes into
/// an RGBA8 pixel buffer holding exactly four bytes per pixel of the
/// returned dimensions; the result depends on the bytes and the
/// extension alone.
#[verifier::external_body]
pub(crate) fn decode_image(data: Vec<u8>, ext: &str) -> (r: Option<(Vec<u8>, u32, u32)>)
    ensures
        r matches Some(p) ==> decoded_rgba(data@, ext@) == Some((p.0@, p.1, p.2))
            && p.0@.len() == 4 * p.1 * p.2,
        r is None ==> decoded_rgba(data@, ext@) is None,
{
    let fmt = image::ImageFormat::from_extension(ext)?;
    let img = image::load(std::io::Cursor::new(data), fmt).ok()?;
    let rgba = img.to_rgba8();
    let (w, h) = rgba.dimensions();
    Some((rgba.into_raw(), w, h))
}

/// Whether the given bytes parse as a font. A function of the bytes
/// alone.
pub uninterp spec fn parses_as_font(data: Seq<u8>) -> bool;

#[verifier::external_type_specification]
#[verifier::external_body]
pub struct ExFontArc(ab_glyph::FontArc);

/// Relies on `ab_glyph::FontArc::clone`: a `FontArc` is a shared
/// handle (`Arc`) to one parsed font, so its clone is the same value.
pub assume_specification[ <ab_glyph::FontArc as Clone>::clone ](f: &ab_glyph::FontArc) -> (r:
    ab_glyph::FontArc)
    ensures
        r == *f,
;

/// Relies on `ab_glyph::FontArc::try_from_vec`: parses font bytes,
/// succeeding or failing depending on the bytes alone.
#[verifier::external_body]
fn font_from_vec(data: Vec<u8>) -> (r: Option<ab_glyph::FontArc>)
    ensures
        r is Some == parses_as_font(data@),
{
    ab_glyph::FontArc::try_from_vec(data).ok()
}

/// A text sprite: the string to draw, the parsed font to draw it
/// with, and the font size in thousandths of a pixel.
#[derive(Clone)]
pub struct Text {
    /// The text to render.
    pub text: String,
    /// The parsed font.
    pub font: ab_glyph::FontArc,
    /// The font size, in thousandths of a pixel.
    pub font_size_milli: u32,
}

/// A texture sprite: RGBA8 pixel data with its source dimensions and
/// its drawn size in engine units.
#[derive(Debug)]
pub struct Texture {
    /// The RGBA8 pixel bytes, four per pixel.
    pub data: Vec<u8>,
    /// The width and height of the pixel data.
    pub dimensions: (u32, u32),
    /// The drawn width, in engine units.
    pub w: i32,
    /// The drawn height, in engine units.
    pub h: i32,
}

impl Clone for Texture {
    /// Cloning a texture preserves every field.
    fn clone(&self) -> (r: Self)
        ensures
            r.data@ == self.data@,
            r.dimensions == self.dimensions,
            r.w == self.w,
            r.h == self.h,
    {
        let data = self.data.clone();
        proof {
            assert(data@ =~= self.data@);
        }
        Texture {
            data,
            dimensions: (self.dimensions.0, self.dimensions.1),
            w: self.w,
            h: self.h,
        }
    }
}

/// One drawable sprite: the closed set of shape kinds.
#[derive(Clone)]
pub enum Shape {
    /// A rectangle.
    Rect(Rect),
    /// A circle.
    Circle(Circle),
    /// A triangle.
    Triangle(Triangle),
    /// A text run.
    Text(Text),
    /// A textured quad.
    Texture(Texture),
}

/// One sprite paired with its resolved attributes, alive for a
/// single frame.
#[derive(Clone)]
pub struct DrawEntry {
    /// The sprite to draw.
    pub shape: Shape,
    /// The resolved attributes to draw it with.
    pub attrs: SpriteData,
}

/// Creates a [`Text`] from a string, font bytes, and a font size in
/// thousandths of a pixel. Returns `None` exactly when the font
/// bytes do not parse.
pub fn text(content: String, font_data: Vec<u8>, font_size_milli: u32) -> (r: Option<Text>)
    ensures
        r is Some <==> parses_as_font(font_data@),
        r matches Some(t) ==> t.text == content && t.font_size_milli == font_size_milli,
{
    let font = match font_from_vec(font_data) {
        Some(f) => f,
        None => {
            return None;
        },
    };
    Some(Text { text: content, font, font_size_milli })
}

/// A signed 32-bit reinterpretation of an unsigned 32-bit value, as
/// the executable truncating cast produces.
pub open spec fn wrap_u32_i32(n: u32) -> int {
    if n <= 0x7fff_ffff {
        n as int
    } else {
        n - 0x1_0000_0000
    }
}

/// A value clamped to the signed 32-bit range.
pub open spec fn clamp_i32(v: int) -> int {
    if v < -0x8000_0000 {
        -0x8000_0000
    } else if v > 0x7fff_ffff {
        0x7fff_ffff
    } else {
        v
    }
}

/// `p / d` rounded half away from zero, written with integer
/// division; `d` must be positive.
pub open spec fn round_div_away(p: int, d: int) -> int {
    if p >= 0 {
        (2 * p + d) / (2 * d)
    } else {
        -((2 * (-p) + d) / (2 * d))
    }
}

/// The drawn size of one axis scaled to preserve aspect ratio:
/// `round(n * k / d)` saturated to the signed 32-bit range, with the
/// degenerate zero-denominator cases resolved as the saturating
/// float-to-integer conversion would resolve them.
pub open spec fn scaled_dim_spec(n: u32, k: i32, d: u32) -> int {
    if d == 0 {
        if n == 0 || k == 0 {
            0
        } else if k > 0 {
            0x7fff_ffff
        } else {
            -0x8000_0000
        }
    } else {
        clamp_i32(round_div_away(n * k, d as int))
    }
}

/// The drawn width and height chosen from optional requested sizes:
/// a missing axis is scaled from the given axis to preserve the
/// pixel aspect ratio, and when neither is given the image keeps a
/// one-pixel-to-one-unit ratio.
pub open spec fn fit_dims_spec(dims: (u32, u32), w: Option<i32>, h: Option<i32>) -> (int, int) {
    match (w, h) {
        (None, None) => (wrap_u32_i32(dims.0), wrap_u32_i32(dims.1)),
        (None, Some(hv)) => (scaled_dim_spec(dims.0, hv, dims.1), hv as int),
        (Some(wv), None) => (wv as int, scaled_dim_spec(dims.1, wv, dims.0)),
        (Some(wv), Some(hv)) => (wv as int, hv as int),
    }
}

/// Scales one axis: `round(n * k / d)` half away from zero,
/// saturating to the signed 32-bit range.
fn scale_dim(n: u32, k: i32, d: u32) -> (r: i32)
    ensures
        r == scaled_dim_spec(n, k, d),
{
    if d == 0 {
        if n == 0 || k == 0 {
            0
        } else if k > 0 {
            i32::MAX
        } else {
            i32::MIN
        }
    } else {
        proof {
            crate::shape::lemma_mul_abs_bound(
                n as int,
                k as int,
                0xffff_ffff,
                0x8000_0000,
            );
        }
        let p: i128 = n as i128 * k as i128;
        let ap: i128 = if p < 0 {
            -p
        } else {
            p
        };
        let q: i128 = (2 * ap + d as i128) / (2 * d as i128);
        proof {
            assert(0 <= q <= 2 * ap + d) by (nonlinear_arith)
                requires
                    q == (2 * ap + d as int) / (2 * d as int),
                    ap >= 0,
                    d >= 1,
            ;
        }
        let sq: i128 = if p < 0 {
            -q
        } else {
            q
        };
        if sq < i32::MIN as i128 {
            i32::MIN
        } else if sq > i32::MAX as i128 {
            i32::MAX
        } else {
            sq as i32
        }
    }
}

/// Reinterprets an unsigned 32-bit value as signed, wrapping as the
/// truncating cast does.
fn wrap_dim(n: u32) -> (r: i32)
    ensures
        r == wrap_u32_i32(n),
{
    if n <= 0x7fff_ffff {
        n as i32
    } else {
        ((n as i64) - 0x1_0000_0000) as i32
    }
}

/// The drawn width and height from the requested optional sizes, as
/// [`fit_dims_spec`] states.
fn fit_dims(dims: (u32, u32), w: Option<i32>, h: Option<i32>) -> (r: (i32, i32))
    ensures
        (r.0 as int, r.1 as int) == fit_dims_spec(dims, w, h),
{
    match (w, h) {
        (None, None) => (wrap_dim(dims.0), wrap_dim(dims.1)),
        (None, Some(hv)) => (scale_dim(dims.0, hv, dims.1), hv),
        (Some(wv), None) => (wv, scale_dim(dims.1, wv, dims.0)),
        (Some(wv), Some(hv)) => (wv, hv),
    }
}

/// Creates a [`Texture`] from raw RGBA8 pixel data.
///
/// `w` and `h` work like HTML image dimensions: if only one is
/// given, the other is scaled to match the pixel aspect ratio; if
/// neither, the image keeps a one-pixel-to-one-unit ratio. Errors in
/// the data surface when the texture is drawn, not here.
pub fn texture_raw(data: Vec<u8>, dimensions: (u32, u32), w: Option<i32>, h: Option<i32>) -> (r:
    Texture)
    ensures
        r.data == data,
        r.dimensions == dimensions,
        (r.w as int, r.h as int) == fit_dims_spec(dimensions, w, h),
{
    let (w, h) = fit_dims(dimensions, w, h);
    Texture { data, dimensions, w, h }
}

/// Creates a [`Texture`] by decoding encoded image bytes in the
/// given format. Returns `None` exactly when the bytes do not
/// decode; the drawn size follows [`fit_dims_spec`] over the decoded
/// dimensions.
pub fn texture(data: Vec<u8>, fmt: ImageFormat, w: Option<i32>, h: Option<i32>) -> (r: Option<
    Texture>)
    ensures
        r is Some <==> decoded_rgba(data@, format_ext_spec(fmt)) is Some,
        r matches Some(t) ==> decoded_rgba(data@, format_ext_spec(fmt)) matches Some(d) && {
            &&& t.data@ == d.0
            &&& t.dimensions == (d.1, d.2)
            &&& (t.w as int, t.h as int) == fit_dims_spec((d.1, d.2), w, h)
        },
{
    let ext = format_ext(fmt);
    let (pixels, dw, dh) = match decode_image(data, ext) {
        Some(p) => p,
        None => {
            return None;
        },
    };
    Some(texture_raw(pixels, (dw, dh), w, h))
}

} // verus!
