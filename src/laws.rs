//! Properties of the conversion and the viewer that span several items.

use vstd::prelude::*;
use crate::converter::{grid_char, grid_text, AsciiConverter};
use crate::quantize::lemma_quantize_in_range;
use crate::raster::Raster;
use crate::viewer::{escape_char, escaped};

verus! {

/// The text of every grid is `height` rows, each of `width` palette
/// characters followed by one line break.
pub proof fn lemma_grid_layout(
    luma: Seq<u8>,
    width: int,
    height: int,
    palette: Seq<char>,
    invert: bool,
)
    requires
        width >= 0,
        height >= 0,
        palette.len() >= 1,
    ensures
        grid_text(luma, width, height, palette, invert).len() == height * (width + 1),
        forall|y: int|
            0 <= y < height ==> #[trigger] grid_text(luma, width, height, palette, invert)[y * (
            width + 1) + width] == '\n',
        forall|y: int, x: int|
            0 <= y < height && 0 <= x < width ==> palette.contains(
                #[trigger] grid_text(luma, width, height, palette, invert)[y * (width + 1) + x],
            ),
{
    let text = grid_text(luma, width, height, palette, invert);
    assert(height * (width + 1) >= 0) by (nonlinear_arith)
        requires width >= 0, height >= 0;
    assert forall|y: int| 0 <= y < height implies #[trigger] text[y * (width + 1) + width] == '\n' by {
        let pos = y * (width + 1) + width;
        vstd::arithmetic::div_mod::lemma_fundamental_div_mod_converse(pos, width + 1, y, width);
        assert(pos < height * (width + 1)) by (nonlinear_arith)
            requires pos == y * (width + 1) + width, 0 <= y < height, width >= 0;
    }
    assert forall|y: int, x: int| 0 <= y < height && 0 <= x < width implies palette.contains(
        #[trigger] text[y * (width + 1) + x],
    ) by {
        let pos = y * (width + 1) + x;
        vstd::arithmetic::div_mod::lemma_fundamental_div_mod_converse(pos, width + 1, y, x);
        assert(pos < height * (width + 1)) by (nonlinear_arith)
            requires pos == y * (width + 1) + x, 0 <= y < height, 0 <= x < width;
        let l = luma[y * width + x] as int;
        lemma_quantize_in_range(l, palette.len() as int, invert);
        assert(text[pos] == grid_char(luma, width, palette, invert, pos));
        assert(palette[crate::quantize::quantize_spec(l, palette.len() as int, invert)]
            == text[pos]);
    }
}

/// At full resolution the grid has the image's own size, whatever target
/// width is configured.
pub proof fn lemma_full_resolution_keeps_size(conv: AsciiConverter, img: Raster)
    requires
        img.wf(),
        conv.config.use_full_resolution,
    ensures
        conv.source_columns(&img) == img.width,
        conv.source_rows(&img) == img.height,
        conv.converts(&img) <==> conv.config.character_set@.len() >= 1,
{
}

/// Escaping works character by character: the escape of a concatenation is
/// the concatenation of the escapes.
pub proof fn lemma_escape_concat(a: Seq<char>, b: Seq<char>)
    ensures
        escaped(a + b) == escaped(a) + escaped(b),
    decreases b.len(),
{
    if b.len() == 0 {
        assert(a + b =~= a);
        assert(escaped(b) =~= Seq::<char>::empty());
        assert(escaped(a) + escaped(b) =~= escaped(a));
    } else {
        assert((a + b).drop_last() =~= a + b.drop_last());
        assert((a + b).last() == b.last());
        lemma_escape_concat(a, b.drop_last());
        assert(escaped(a + b) =~= escaped(a) + escaped(b));
    }
}

/// No `<`, `>`, `"` or `'` survives escaping.
pub proof fn lemma_escaped_has_no_markup(s: Seq<char>)
    ensures
        forall|i: int|
            0 <= i < escaped(s).len() ==> {
                let c = #[trigger] escaped(s)[i];
                c != '<' && c != '>' && c != '"' && c != '\''
            },
    decreases s.len(),
{
    if s.len() > 0 {
        lemma_escaped_has_no_markup(s.drop_last());
        let prefix = escaped(s.drop_last());
        let tail = escape_char(s.last());
        assert(escaped(s) == prefix + tail);
        assert forall|i: int| 0 <= i < escaped(s).len() implies {
            let c = #[trigger] escaped(s)[i];
            c != '<' && c != '>' && c != '"' && c != '\''
        } by {
            if i < prefix.len() {
                assert(escaped(s)[i] == prefix[i]);
            } else {
                assert(escaped(s)[i] == tail[i - prefix.len()]);
            }
        }
    }
}

} // verus!
