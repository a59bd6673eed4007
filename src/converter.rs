//! From a raster to an ASCII grid: optional resampling, grayscale, and one
//! palette character per pixel.

use vstd::prelude::*;
use crate::quantize::{quantize_index, quantize_spec, target_height, target_height_spec, Ratio};
use crate::raster::{
    decode_rgba, grayscale, has_image_signature, luma_seq, resize_lanczos3, LumaPlane, Raster,
};
use crate::text::push_char;

verus! {

/// Why a conversion was refused.
#[derive(Clone, Copy, Debug, PartialEq, Eq, Structural)]
pub enum ConvertError {
    /// The bytes are not a decodable image.
    Decode,
    /// The options cannot produce a grid: an empty palette, a zero target
    /// width or aspect ratio, or a grid too large for this machine.
    Configuration,
}

/// Options for one conversion.
pub struct AsciiConfig {
    /// Columns of the grid; ignored at full resolution.
    pub width: u32,
    /// Map each source pixel to one character, without resampling.
    pub use_full_resolution: bool,
    /// Characters from darkest to brightest (before inversion).
    pub character_set: Vec<char>,
    pub invert_mapping: bool,
    /// Scales the row count to make up for characters taller than wide.
    pub aspect_ratio_correction: Ratio,
    pub background_color: String,
    pub text_color: String,
}

/// The art as text, one line per row, each line ended by `'\n'`.
pub struct AsciiGrid {
    pub text: String,
    pub columns: u32,
    pub rows: u32,
}

pub struct AsciiConverter {
    pub config: AsciiConfig,
}

/// Character `i` of the text of a grid `width` columns wide: a line break at
/// the end of each row, else the palette character of the pixel.
pub open spec fn grid_char(
    luma: Seq<u8>,
    width: int,
    palette: Seq<char>,
    invert: bool,
    i: int,
) -> char {
    let x = i % (width + 1);
    let y = i / (width + 1);
    if x == width {
        '\n'
    } else {
        palette[quantize_spec(luma[y * width + x] as int, palette.len() as int, invert)]
    }
}

/// The text of the grid for a luminance plane: `height` lines of `width`
/// palette characters, each followed by `'\n'`.
pub open spec fn grid_text(
    luma: Seq<u8>,
    width: int,
    height: int,
    palette: Seq<char>,
    invert: bool,
) -> Seq<char> {
    Seq::new((height * (width + 1)) as nat, |i: int| grid_char(luma, width, palette, invert, i))
}

/// Accepts a decoded raster exactly when it is well formed (both sides
/// positive, four samples per pixel), and hands it back unchanged.
pub fn accept_decoded(img: Raster) -> (r: Result<Raster, ConvertError>)
    ensures
        r is Ok <==> img.wf(),
        r matches Ok(x) ==> x == img,
        r matches Err(e) ==> e == ConvertError::Decode,
{
    if img.is_valid() {
        Ok(img)
    } else {
        Err(ConvertError::Decode)
    }
}

impl AsciiConverter {
    pub fn new(config: AsciiConfig) -> (r: Self)
        ensures
            r.config == config,
    {
        AsciiConverter { config }
    }

    /// Rows of the resampled image.
    pub open spec fn resized_height(&self, img: &Raster) -> int {
        target_height_spec(
            img.width as int,
            img.height as int,
            self.config.width as int,
            self.config.aspect_ratio_correction,
        )
    }

    /// Resampling is possible: a positive width and aspect ratio, and a
    /// result whose samples fit in memory.
    pub open spec fn can_resize(&self, img: &Raster) -> bool {
        let h = self.resized_height(img);
        &&& self.config.width > 0
        &&& self.config.aspect_ratio_correction.is_positive()
        &&& h <= u32::MAX
        &&& 4 * (self.config.width as int) * h <= usize::MAX
    }

    pub open spec fn source_columns(&self, img: &Raster) -> int {
        if self.config.use_full_resolution {
            img.width as int
        } else {
            self.config.width as int
        }
    }

    pub open spec fn source_rows(&self, img: &Raster) -> int {
        if self.config.use_full_resolution {
            img.height as int
        } else {
            self.resized_height(img)
        }
    }

    /// The options can convert this image.
    pub open spec fn converts(&self, img: &Raster) -> bool {
        &&& self.config.character_set@.len() >= 1
        &&& (self.config.use_full_resolution || self.can_resize(img))
    }

    /// Decodes an encoded image (PNG, JPEG, GIF, BMP, WebP, ...).
    pub fn load_image_from_memory(&self, buffer: &[u8]) -> (r: Result<Raster, ConvertError>)
        ensures
            buffer@.len() == 0 ==> r == Err::<Raster, ConvertError>(ConvertError::Decode),
            !has_image_signature(buffer@) ==> r == Err::<Raster, ConvertError>(
                ConvertError::Decode,
            ),
            r matches Ok(img) ==> img.wf(),
            r matches Err(e) ==> e == ConvertError::Decode,
    {
        match decode_rgba(buffer) {
            Ok(img) => accept_decoded(img),
            Err(_) => Err(ConvertError::Decode),
        }
    }

    /// Resamples to `config.width` columns, the rows scaled by the aspect ratio.
    pub fn resize_image(&self, img: &Raster) -> (r: Result<Raster, ConvertError>)
        requires
            img.wf(),
        ensures
            r is Ok <==> self.can_resize(img),
            r matches Ok(out) ==> out.wf() && out.width == self.config.width && out.height
                == self.resized_height(img),
            r matches Err(e) ==> e == ConvertError::Configuration,
    {
        let width = self.config.width;
        let aspect = self.config.aspect_ratio_correction;
        if width == 0 || aspect.numerator == 0 || aspect.denominator == 0 {
            return Err(ConvertError::Configuration);
        }
        match target_height(img.width, img.height, width, aspect) {
            None => Err(ConvertError::Configuration),
            Some(height) => {
                assert(4 * (width as u128) * (height as u128) <= 4 * 0xffff_ffff_ffff_ffff_u128)
                    by (nonlinear_arith)
                    requires width <= 0xffff_ffff_u128, height <= 0xffff_ffff_u128;
                let samples = 4 * (width as u128) * (height as u128);
                if samples > usize::MAX as u128 {
                    Err(ConvertError::Configuration)
                } else {
                    Ok(resize_lanczos3(img, width, height))
                }
            },
        }
    }

    /// The palette character for one luminance sample.
    pub fn pixel_to_ascii(&self, brightness: u8) -> (r: char)
        requires
            self.config.character_set@.len() >= 1,
        ensures
            r == self.config.character_set@[quantize_spec(
                brightness as int,
                self.config.character_set@.len() as int,
                self.config.invert_mapping,
            )],
    {
        let index = quantize_index(
            brightness,
            self.config.character_set.len(),
            self.config.invert_mapping,
        );
        self.config.character_set[index]
    }

    /// The grid for a luminance plane: one character per pixel, row by row.
    pub fn grid_from_luma(&self, plane: &LumaPlane) -> (r: AsciiGrid)
        requires
            self.config.character_set@.len() >= 1,
            plane.wf(),
        ensures
            r.columns == plane.width,
            r.rows == plane.height,
            r.text@ == grid_text(
                plane.pixels@,
                plane.width as int,
                plane.height as int,
                self.config.character_set@,
                self.config.invert_mapping,
            ),
    {
        let w = plane.width;
        let h = plane.height;
        let ghost wi = w as int;
        let ghost total = grid_text(
            plane.pixels@,
            w as int,
            h as int,
            self.config.character_set@,
            self.config.invert_mapping,
        );
        let len = plane.pixels.len();
        let mut text = String::new();
        let mut y: u32 = 0;
        while y < h
            invariant
                y <= h,
                w == plane.width,
                h == plane.height,
                wi == w,
                plane.wf(),
                len == plane.pixels@.len(),
                self.config.character_set@.len() >= 1,
                total == grid_text(
                    plane.pixels@,
                    wi,
                    h as int,
                    self.config.character_set@,
                    self.config.invert_mapping,
                ),
                total.len() == (h as int) * (wi + 1),
                text@.len() == (y as int) * (wi + 1),
                forall|i: int| 0 <= i < text@.len() ==> text@[i] == total[i],
            decreases h - y,
        {
            assert((y as int) * wi + wi <= (h as int) * wi) by (nonlinear_arith)
                requires y < h, wi >= 0, y >= 0;
            assert((y as int) * wi + wi <= len) by (nonlinear_arith)
                requires
                    (y as int) * wi + wi <= (h as int) * wi,
                    len == wi * (h as int),
            ;
            let row_start = (y as usize) * (w as usize);
            let mut x: u32 = 0;
            while x < w
                invariant
                    y < h,
                    x <= w,
                    w == plane.width,
                    h == plane.height,
                    wi == w,
                    plane.wf(),
                    len == plane.pixels@.len(),
                    row_start == (y as int) * wi,
                    row_start + wi <= len,
                    (y as int) * wi + wi <= (h as int) * wi,
                    self.config.character_set@.len() >= 1,
                    total == grid_text(
                    plane.pixels@,
                    wi,
                    h as int,
                    self.config.character_set@,
                    self.config.invert_mapping,
                ),
                total.len() == (h as int) * (wi + 1),
                    text@.len() == (y as int) * (wi + 1) + x,
                    forall|i: int| 0 <= i < text@.len() ==> text@[i] == total[i],
                decreases w - x,
            {
                let idx = row_start + x as usize;
                let c = self.pixel_to_ascii(plane.pixels[idx]);
                proof {
                    let pos = (y as int) * (wi + 1) + x;
                    vstd::arithmetic::div_mod::lemma_fundamental_div_mod_converse(
                        pos,
                        wi + 1,
                        y as int,
                        x as int,
                    );
                    assert(pos < (h as int) * (wi + 1)) by (nonlinear_arith)
                        requires pos == (y as int) * (wi + 1) + x, 0 <= x < wi, 0 <= y < h;
                    assert(total[pos] == c);
                }
                push_char(&mut text, c);
                x += 1;
            }
            proof {
                let pos = (y as int) * (wi + 1) + wi;
                vstd::arithmetic::div_mod::lemma_fundamental_div_mod_converse(
                    pos,
                    wi + 1,
                    y as int,
                    wi,
                );
                assert(pos < (h as int) * (wi + 1)) by (nonlinear_arith)
                    requires pos == (y as int) * (wi + 1) + wi, 0 <= y < h, wi >= 0;
                assert(total[pos] == '\n');
                assert((y as int + 1) * (wi + 1) == pos + 1) by (nonlinear_arith)
                    requires pos == (y as int) * (wi + 1) + wi;
            }
            push_char(&mut text, '\n');
            y += 1;
        }
        assert(text@ =~= total);
        AsciiGrid { text, columns: w, rows: h }
    }

    /// Converts a raster: at full resolution pixel for pixel, else resampled to
    /// `config.width` columns first.
    pub fn convert_to_ascii(&self, img: &Raster) -> (r: Result<AsciiGrid, ConvertError>)
        requires
            img.wf(),
        ensures
            r is Ok <==> self.converts(img),
            r matches Ok(g) ==> g.columns == self.source_columns(img) && g.rows
                == self.source_rows(img),
            r matches Ok(g) ==> (self.config.use_full_resolution ==> g.text@ == grid_text(
                luma_seq(img.pixels@),
                img.width as int,
                img.height as int,
                self.config.character_set@,
                self.config.invert_mapping,
            )),
            r matches Ok(g) ==> (!self.config.use_full_resolution ==> exists|p: Seq<u8>|
                p.len() == 4 * (g.columns as int) * (g.rows as int) && #[trigger] grid_text(
                    luma_seq(p),
                    g.columns as int,
                    g.rows as int,
                    self.config.character_set@,
                    self.config.invert_mapping,
                ) == g.text@),
            r matches Err(e) ==> e == ConvertError::Configuration,
    {
        if self.config.character_set.len() == 0 {
            return Err(ConvertError::Configuration);
        }
        if self.config.use_full_resolution {
            Ok(self.grid_from_raster(img))
        } else {
            match self.resize_image(img) {
                Ok(small) => {
                    let g = self.grid_from_raster(&small);
                    assert(small.pixels@.len() == 4 * (g.columns as int) * (g.rows as int));
                    Ok(g)
                },
                Err(e) => Err(e),
            }
        }
    }

    /// The grid for a raster, pixel for pixel: grayscale, then one palette
    /// character per pixel.
    pub fn grid_from_raster(&self, src: &Raster) -> (r: AsciiGrid)
        requires
            self.config.character_set@.len() >= 1,
            src.wf(),
        ensures
            r.columns == src.width,
            r.rows == src.height,
            r.text@ == grid_text(
                luma_seq(src.pixels@),
                src.width as int,
                src.height as int,
                self.config.character_set@,
                self.config.invert_mapping,
            ),
    {
        let plane = grayscale(src);
        self.grid_from_luma(&plane)
    }
}

} // verus!
