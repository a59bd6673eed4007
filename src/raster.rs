//! Pixel buffers as plain values, and the image decoding and resampling that
//! the `image` crate performs on them.

use vstd::prelude::*;

verus! {

#[verifier::external_type_specification]
#[verifier::external_body]
pub struct ExImageError(image::ImageError);

/// An image as 8-bit RGBA samples, four bytes per pixel, rows top to bottom.
pub struct Raster {
    pub width: u32,
    pub height: u32,
    pub pixels: Vec<u8>,
}

/// One luminance byte per pixel, rows top to bottom.
pub struct LumaPlane {
    pub width: u32,
    pub height: u32,
    pub pixels: Vec<u8>,
}

impl Raster {
    /// Both sides at least one pixel, and four samples for each pixel.
    pub open spec fn wf(&self) -> bool {
        &&& self.width > 0
        &&& self.height > 0
        &&& self.pixels@.len() == 4 * (self.width as int) * (self.height as int)
    }

    /// A raster from its sides and RGBA samples, if they agree.
    pub fn new(width: u32, height: u32, pixels: Vec<u8>) -> (r: Option<Raster>)
        ensures
            r is Some <==> (width > 0 && height > 0 && pixels@.len() == 4 * (width as int) * (
            height as int)),
            r matches Some(img) ==> img.width == width && img.height == height && img.pixels@
                == pixels@,
    {
        if width == 0 || height == 0 {
            return None;
        }
        let w = width as u128;
        let h = height as u128;
        assert(w * h <= 0xffff_ffff_ffff_ffff_u128) by (nonlinear_arith)
            requires w <= 0xffff_ffff, h <= 0xffff_ffff, w >= 1, h >= 1;
        assert(4 * (w * h) == 4 * (width as int) * (height as int)) by (nonlinear_arith)
            requires w == width, h == height;
        if pixels.len() as u128 == 4 * (w * h) {
            Some(Raster { width, height, pixels })
        } else {
            None
        }
    }
}

impl Raster {
    /// Whether the sides are positive and the samples match them.
    pub fn is_valid(&self) -> (r: bool)
        ensures
            r == self.wf(),
    {
        if self.width == 0 || self.height == 0 {
            return false;
        }
        let w = self.width as u128;
        let h = self.height as u128;
        assert(w * h <= 0xffff_ffff_ffff_ffff_u128) by (nonlinear_arith)
            requires w <= 0xffff_ffff, h <= 0xffff_ffff;
        assert(4 * (w * h) == 4 * (self.width as int) * (self.height as int)) by (nonlinear_arith)
            requires w == self.width, h == self.height;
        self.pixels.len() as u128 == 4 * (w * h)
    }
}

impl LumaPlane {
    pub open spec fn wf(&self) -> bool {
        self.pixels@.len() == (self.width as int) * (self.height as int)
    }
}

/// Perceptual luminance of one pixel: `(2126 r + 7152 g + 722 b) / 10000`,
/// rounded down; alpha does not count.
pub open spec fn luma_of(r: u8, g: u8, b: u8) -> u8 {
    ((2126 * r + 7152 * g + 722 * b) / 10000) as u8
}

/// The luminance plane of RGBA samples, one byte per pixel.
pub open spec fn luma_seq(rgba: Seq<u8>) -> Seq<u8> {
    Seq::new(rgba.len() / 4, |i: int| luma_of(rgba[4 * i], rgba[4 * i + 1], rgba[4 * i + 2]))
}

/// Whether `bytes` begins with `prefix`.
pub open spec fn starts_with(bytes: Seq<u8>, prefix: Seq<u8>) -> bool {
    prefix.len() <= bytes.len() && bytes.subrange(0, prefix.len() as int) == prefix
}

/// The leading bytes by which the `image` crate recognizes a format: PNG,
/// JPEG, GIF (two), WebP, TIFF (two), DDS, BMP, ICO, HDR, PNM (seven),
/// farbfeld, AVIF (two), OpenEXR and QOI.
pub open spec fn image_signatures() -> Seq<Seq<u8>> {
    seq![
        seq![0x89u8, 0x50, 0x4e, 0x47, 0x0d, 0x0a, 0x1a, 0x0a],
        seq![0xffu8, 0xd8, 0xff],
        seq![0x47u8, 0x49, 0x46, 0x38, 0x39, 0x61],
        seq![0x47u8, 0x49, 0x46, 0x38, 0x37, 0x61],
        seq![0x52u8, 0x49, 0x46, 0x46],
        seq![0x4du8, 0x4d, 0x00, 0x2a],
        seq![0x49u8, 0x49, 0x2a, 0x00],
        seq![0x44u8, 0x44, 0x53, 0x20],
        seq![0x42u8, 0x4d],
        seq![0x00u8, 0x00, 0x01, 0x00],
        seq![0x23u8, 0x3f, 0x52, 0x41, 0x44, 0x49, 0x41, 0x4e, 0x43, 0x45],
        seq![0x50u8, 0x31],
        seq![0x50u8, 0x32],
        seq![0x50u8, 0x33],
        seq![0x50u8, 0x34],
        seq![0x50u8, 0x35],
        seq![0x50u8, 0x36],
        seq![0x50u8, 0x37],
        seq![0x66u8, 0x61, 0x72, 0x62, 0x66, 0x65, 0x6c, 0x64],
        seq![0x00u8, 0x00, 0x00, 0x20, 0x66, 0x74, 0x79, 0x70, 0x61, 0x76, 0x69, 0x66],
        seq![0x00u8, 0x00, 0x00, 0x1c, 0x66, 0x74, 0x79, 0x70, 0x61, 0x76, 0x69, 0x66],
        seq![0x76u8, 0x2f, 0x31, 0x01],
        seq![0x71u8, 0x6f, 0x69, 0x66],
    ]
}

/// Whether `bytes` begins with one of the recognized format signatures.
pub open spec fn has_image_signature(bytes: Seq<u8>) -> bool {
    exists|i: int| 0 <= i < image_signatures().len() && #[trigger] starts_with(bytes, image_signatures()[i])
}

/// Relies on `image::load_from_memory`, which guesses the format from the
/// leading bytes (`guess_format` over its `MAGIC_BYTES` table, none of which
/// is empty) and refuses a buffer that starts with none of them, and on
/// `DynamicImage::to_rgba8`, whose buffer holds four samples per pixel.
#[verifier::external_body]
pub(crate) fn decode_rgba(bytes: &[u8]) -> (r: Result<Raster, image::ImageError>)
    ensures
        bytes@.len() == 0 ==> r is Err,
        !has_image_signature(bytes@) ==> r is Err,
        r matches Ok(img) ==> img.pixels@.len() == 4 * (img.width as int) * (img.height as int),
{
    match image::load_from_memory(bytes) {
        Ok(decoded) => {
            let buf = decoded.to_rgba8();
            let (width, height) = buf.dimensions();
            Ok(Raster { width, height, pixels: buf.into_raw() })
        },
        Err(e) => Err(e),
    }
}

/// Relies on `image::imageops::resize` with `FilterType::Lanczos3`: the result
/// has exactly the requested sides and four samples per pixel. The samples
/// come from floating-point kernel weights (`f32::sin`), so nothing more is
/// stated of them. `ImageBuffer::new` panics where the sample count overflows
/// `usize`, which `requires` leaves out.
#[verifier::external_body]
pub(crate) fn resize_lanczos3(src: &Raster, new_width: u32, new_height: u32) -> (r: Raster)
    requires
        src.wf(),
        new_width > 0,
        new_height > 0,
        4 * (new_width as int) * (new_height as int) <= usize::MAX,
    ensures
        r.width == new_width,
        r.height == new_height,
        r.pixels@.len() == 4 * (new_width as int) * (new_height as int),
{
    let buf = image::RgbaImage::from_raw(src.width, src.height, src.pixels.clone()).unwrap();
    let out = image::imageops::resize(&buf, new_width, new_height, image::imageops::FilterType::Lanczos3);
    Raster { width: new_width, height: new_height, pixels: out.into_raw() }
}

/// The luminance plane of a raster, pixel by pixel.
pub fn grayscale(img: &Raster) -> (r: LumaPlane)
    requires
        img.wf(),
    ensures
        r.wf(),
        r.width == img.width,
        r.height == img.height,
        r.pixels@ == luma_seq(img.pixels@),
{
    let len = img.pixels.len();
    let n = len / 4;
    let mut out: Vec<u8> = Vec::with_capacity(n);
    let mut i: usize = 0;
    while i < n
        invariant
            len == img.pixels@.len(),
            n == len / 4,
            i <= n,
            out@.len() == i,
            forall|k: int| 0 <= k < i ==> out@[k] == luma_seq(img.pixels@)[k],
        decreases n - i,
    {
        assert(4 * i + 3 < img.pixels@.len()) by (nonlinear_arith)
            requires i < n, n == len / 4, len == img.pixels@.len();
        let r = img.pixels[4 * i] as u32;
        let g = img.pixels[4 * i + 1] as u32;
        let b = img.pixels[4 * i + 2] as u32;
        let l = (2126 * r + 7152 * g + 722 * b) / 10000;
        assert(l <= 255) by (nonlinear_arith)
            requires l == (2126 * r + 7152 * g + 722 * b) / 10000, r <= 255, g <= 255, b <= 255;
        out.push(l as u8);
        i += 1;
    }
    assert(out@ =~= luma_seq(img.pixels@));
    assert(n == (img.width as int) * (img.height as int)) by (nonlinear_arith)
        requires
            n == img.pixels@.len() / 4,
            img.pixels@.len() == 4 * (img.width as int) * (img.height as int),
    ;
    LumaPlane { width: img.width, height: img.height, pixels: out }
}

} // verus!
