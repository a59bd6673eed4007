//! Integer arithmetic behind the character mapping and the resampling size.

use vstd::prelude::*;

verus! {

/// The integer nearest to `p / q`, halves rounded up (for `p >= 0`, `q > 0`).
pub open spec fn round_div(p: int, q: int) -> int {
    (2 * p + q) / (2 * q)
}

/// Palette index for a luminance sample: `round(luminance / 255 * (n - 1))`,
/// mirrored to `n - 1 - index` when `invert` is set.
pub open spec fn quantize_spec(luminance: int, palette_len: int, invert: bool) -> int {
    let index = round_div(luminance * (palette_len - 1), 255);
    if invert {
        palette_len - 1 - index
    } else {
        index
    }
}

proof fn lemma_round_div_bounds(p: int, q: int, m: int)
    requires
        0 <= p <= m * q,
        q > 0,
        m >= 0,
    ensures
        0 <= round_div(p, q) <= m,
{
    assert(2 * p + q >= 0) by (nonlinear_arith)
        requires 0 <= p, q > 0;
    assert(2 * p + q < (m + 1) * (2 * q)) by (nonlinear_arith)
        requires p <= m * q, q > 0;
    assert((2 * p + q) / (2 * q) < m + 1) by (nonlinear_arith)
        requires 2 * p + q < (m + 1) * (2 * q), q > 0;
    assert((2 * p + q) / (2 * q) >= 0) by (nonlinear_arith)
        requires 2 * p + q >= 0, q > 0;
}

/// Every luminance sample maps into the palette.
pub proof fn lemma_quantize_in_range(luminance: int, palette_len: int, invert: bool)
    requires
        0 <= luminance <= 255,
        palette_len >= 1,
    ensures
        0 <= quantize_spec(luminance, palette_len, invert) < palette_len,
{
    assert(luminance * (palette_len - 1) <= (palette_len - 1) * 255) by (nonlinear_arith)
        requires luminance <= 255, palette_len >= 1;
    assert(luminance * (palette_len - 1) >= 0) by (nonlinear_arith)
        requires luminance >= 0, palette_len >= 1;
    lemma_round_div_bounds(luminance * (palette_len - 1), 255, palette_len - 1);
}

/// Index of the palette character for a luminance sample.
pub fn quantize_index(luminance: u8, palette_len: usize, invert: bool) -> (r: usize)
    requires
        palette_len >= 1,
    ensures
        r == quantize_spec(luminance as int, palette_len as int, invert),
        r < palette_len,
{
    proof {
        lemma_quantize_in_range(luminance as int, palette_len as int, invert);
    }
    let steps = (palette_len - 1) as u128;
    let scaled = luminance as u128 * steps;
    assert(scaled <= 255 * steps) by (nonlinear_arith)
        requires scaled == luminance as u128 * steps, luminance <= 255;
    let index = ((2 * scaled + 255) / 510) as usize;
    if invert {
        palette_len - 1 - index
    } else {
        index
    }
}

/// A positive rational number `numerator / denominator`.
#[derive(Clone, Copy, Debug, PartialEq, Eq, Structural)]
pub struct Ratio {
    pub numerator: u32,
    pub denominator: u32,
}

impl Ratio {
    pub open spec fn is_positive(self) -> bool {
        self.numerator > 0 && self.denominator > 0
    }
}

/// Row count after resampling to `target_width` columns:
/// `max(1, round(source_height * target_width / source_width * aspect))`.
pub open spec fn target_height_spec(
    source_width: int,
    source_height: int,
    target_width: int,
    aspect: Ratio,
) -> int {
    let h = round_div(
        source_height * target_width * aspect.numerator,
        source_width * aspect.denominator,
    );
    if h < 1 {
        1
    } else {
        h
    }
}

/// Row count after resampling, or `None` where it does not fit in a `u32`.
pub fn target_height(source_width: u32, source_height: u32, target_width: u32, aspect: Ratio) -> (r:
    Option<u32>)
    requires
        source_width > 0,
        aspect.denominator > 0,
    ensures
        ({
            let h = target_height_spec(
                source_width as int,
                source_height as int,
                target_width as int,
                aspect,
            );
            &&& h <= u32::MAX ==> r == Some(h as u32)
            &&& h > u32::MAX ==> r is None
        }),
{
    let sh = source_height as u128;
    let tw = target_width as u128;
    let num = aspect.numerator as u128;
    let sw = source_width as u128;
    let den = aspect.denominator as u128;
    proof {
        let m: int = 0xffff_ffff;
        assert(sh * tw <= m * m) by (nonlinear_arith)
            requires 0 <= sh <= m, 0 <= tw <= m;
        assert(sh * tw * num <= m * m * m) by (nonlinear_arith)
            requires 0 <= sh * tw <= m * m, 0 <= num <= m;
        assert(1 <= sw * den <= m * m) by (nonlinear_arith)
            requires 1 <= sw <= m, 1 <= den <= m;
    }
    let p = sh * tw * num;
    let q = sw * den;
    let h = (2 * p + q) / (2 * q);
    let h = if h < 1 {
        1
    } else {
        h
    };
    if h > u32::MAX as u128 {
        None
    } else {
        Some(h as u32)
    }
}

/// With `invert` unset, a brighter sample never maps to an earlier palette
/// character than a darker one.
pub proof fn lemma_quantize_monotonic(darker: int, brighter: int, palette_len: int)
    requires
        0 <= darker <= brighter <= 255,
        palette_len >= 1,
    ensures
        quantize_spec(darker, palette_len, false) <= quantize_spec(brighter, palette_len, false),
{
    let a = 2 * (darker * (palette_len - 1)) + 255;
    let b = 2 * (brighter * (palette_len - 1)) + 255;
    assert(a <= b) by (nonlinear_arith)
        requires
            a == 2 * (darker * (palette_len - 1)) + 255,
            b == 2 * (brighter * (palette_len - 1)) + 255,
            darker <= brighter,
            palette_len >= 1,
    ;
    vstd::arithmetic::div_mod::lemma_div_is_ordered(a, b, 510);
}

/// Inverting the mapping mirrors the index: `n - 1 - index`.
pub proof fn lemma_quantize_invert_symmetry(luminance: int, palette_len: int)
    requires
        0 <= luminance <= 255,
        palette_len >= 1,
    ensures
        quantize_spec(luminance, palette_len, true) == palette_len - 1 - quantize_spec(
            luminance,
            palette_len,
            false,
        ),
{
}

/// Black maps to the first palette character and white to the last.
pub proof fn lemma_quantize_boundaries(palette_len: int)
    requires
        palette_len >= 1,
    ensures
        quantize_spec(0, palette_len, false) == 0,
        quantize_spec(255, palette_len, false) == palette_len - 1,
{
    let m = palette_len - 1;
    assert(2 * (255 * m) + 255 == 510 * m + 255) by (nonlinear_arith);
    vstd::arithmetic::div_mod::lemma_fundamental_div_mod_converse(510 * m + 255, 510, m, 255);
}

} // verus!
