//! The standalone HTML page that shows a grid and keeps it fitted to the
//! window.

use vstd::prelude::*;
use crate::text::push_char;

verus! {

broadcast use vstd::string::group_string_axioms;

/// The text that stands for one character in HTML: the five reserved
/// characters become entities, every other character stays.
pub open spec fn escape_char(c: char) -> Seq<char> {
    if c == '&' {
        seq!['&', 'a', 'm', 'p', ';']
    } else if c == '<' {
        seq!['&', 'l', 't', ';']
    } else if c == '>' {
        seq!['&', 'g', 't', ';']
    } else if c == '"' {
        seq!['&', 'q', 'u', 'o', 't', ';']
    } else if c == '\'' {
        seq!['&', '#', '3', '9', ';']
    } else {
        seq![c]
    }
}

/// Each character of `s` replaced by its HTML text, in order.
pub open spec fn escaped(s: Seq<char>) -> Seq<char>
    decreases s.len(),
{
    if s.len() == 0 {
        Seq::empty()
    } else {
        escaped(s.drop_last()) + escape_char(s.last())
    }
}

fn push_escaped(out: &mut String, c: char)
    ensures
        final(out)@ == old(out)@ + escape_char(c),
{
    if c == '&' {
        push_char(out, '&');
        push_char(out, 'a');
        push_char(out, 'm');
        push_char(out, 'p');
        push_char(out, ';');
    } else if c == '<' {
        push_char(out, '&');
        push_char(out, 'l');
        push_char(out, 't');
        push_char(out, ';');
    } else if c == '>' {
        push_char(out, '&');
        push_char(out, 'g');
        push_char(out, 't');
        push_char(out, ';');
    } else if c == '"' {
        push_char(out, '&');
        push_char(out, 'q');
        push_char(out, 'u');
        push_char(out, 'o');
        push_char(out, 't');
        push_char(out, ';');
    } else if c == '\'' {
        push_char(out, '&');
        push_char(out, '#');
        push_char(out, '3');
        push_char(out, '9');
        push_char(out, ';');
    } else {
        push_char(out, c);
    }
    assert(final(out)@ =~= old(out)@ + escape_char(c));
}

/// Escapes `&`, `<`, `>`, `"` and `'` for HTML text and attribute values.
pub fn html_escape(s: &str) -> (r: String)
    ensures
        r@ == escaped(s@),
{
    let mut out = String::new();
    for c in it: s.chars()
        invariant
            it.seq() == s@,
            out@ == escaped(s@.take(it.index() as int)),
    {
        proof {
            let done = s@.take(it.index() as int + 1);
            assert(done.drop_last() =~= s@.take(it.index() as int));
        }
        push_escaped(&mut out, c);
    }
    assert(s@.take(s@.len() as int) =~= s@);
    out
}

/// The page up to the background color.
pub const VIEWER_HEAD: &'static str = r#"<!DOCTYPE html>
<html lang="en">
<head>
    <meta charset="UTF-8">
    <meta name="viewport" content="width=device-width, initial-scale=1.0">
    <title>ASCII Art Viewer</title>
    <style>
        html, body { margin: 0; padding: 0; width: 100%; height: 100%; display: flex; justify-content: center; align-items: center; background-color: "#;

/// Between the background color and the text color.
pub const VIEWER_AFTER_BACKGROUND: &'static str = r#"; overflow: hidden; }
        pre { color: "#;

/// Between the text color and the art.
pub const VIEWER_AFTER_TEXT_COLOR: &'static str = r#"; font-family: 'Courier New', Courier, monospace; white-space: pre; font-size: 10px; line-height: 0.8em; }
    </style>
</head>
<body>
<pre id="ascii-art">"#;

/// Between the art and the column count.
pub const VIEWER_AFTER_ART: &'static str = r#"</pre>
<script>
    (function() {
        const artElement = document.getElementById('ascii-art');
        const artCols = "#;

/// Between the column count and the row count.
pub const VIEWER_AFTER_COLUMNS: &'static str = "; const artRows = ";

/// After the row count: the script that fits the font to the window.
pub const VIEWER_TAIL: &'static str = r#";
        const FONT_ASPECT_RATIO = 0.6;
        function resizeArt() {
            const fontSizeForWidth = (window.innerWidth / artCols) * FONT_ASPECT_RATIO;
            const fontSizeForHeight = window.innerHeight / artRows;
            artElement.style.fontSize = Math.min(fontSizeForWidth, fontSizeForHeight) + 'px';
        }
        window.addEventListener('resize', resizeArt);
        document.addEventListener('DOMContentLoaded', resizeArt);
    })();
</script>
</body>
</html>"#;

/// The decimal digit for `d < 10`.
pub open spec fn digit_char(d: nat) -> char {
    ((d + 48) as u8) as char
}

/// The decimal numeral of `n`, without leading zeros.
pub open spec fn decimal(n: nat) -> Seq<char>
    decreases n,
{
    if n < 10 {
        seq![digit_char(n)]
    } else {
        decimal(n / 10).push(digit_char(n % 10))
    }
}

fn push_decimal(out: &mut String, n: u32)
    ensures
        final(out)@ == old(out)@ + decimal(n as nat),
    decreases n,
{
    if n >= 10 {
        push_decimal(out, n / 10);
    }
    let d = (n % 10) as u8;
    push_char(out, (d + 48) as char);
    assert(final(out)@ =~= old(out)@ + decimal(n as nat));
}

/// The viewer page for escaped art, its size and its two colors.
pub open spec fn viewer_page(
    escaped_art: Seq<char>,
    columns: nat,
    rows: nat,
    background: Seq<char>,
    text_color: Seq<char>,
) -> Seq<char> {
    VIEWER_HEAD@ + background + VIEWER_AFTER_BACKGROUND@ + text_color
        + VIEWER_AFTER_TEXT_COLOR@ + escaped_art + VIEWER_AFTER_ART@ + decimal(columns)
        + VIEWER_AFTER_COLUMNS@ + decimal(rows) + VIEWER_TAIL@
}

/// The standalone viewer page: the escaped art in a `pre` block on the given
/// colors, and a script that sizes the font to fit the window.
pub fn generate_html_viewer(
    ascii_art: &str,
    dimensions: (u32, u32),
    bg_color: &str,
    txt_color: &str,
) -> (r: String)
    ensures
        r@ == viewer_page(
            escaped(ascii_art@),
            dimensions.0 as nat,
            dimensions.1 as nat,
            bg_color@,
            txt_color@,
        ),
{
    let escaped_art = html_escape(ascii_art);
    let (art_width, art_height) = dimensions;
    let mut page = String::new();
    page.append(VIEWER_HEAD);
    page.append(bg_color);
    page.append(VIEWER_AFTER_BACKGROUND);
    page.append(txt_color);
    page.append(VIEWER_AFTER_TEXT_COLOR);
    page.append(escaped_art.as_str());
    page.append(VIEWER_AFTER_ART);
    push_decimal(&mut page, art_width);
    page.append(VIEWER_AFTER_COLUMNS);
    push_decimal(&mut page, art_height);
    page.append(VIEWER_TAIL);
    assert(page@ =~= viewer_page(
        escaped(ascii_art@),
        art_width as nat,
        art_height as nat,
        bg_color@,
        txt_color@,
    ));
    page
}

/// A font size in CSS pixels, as the exact fraction `numerator / denominator`.
#[derive(Clone, Copy, Debug, PartialEq, Eq, Structural)]
pub struct FontSize {
    pub numerator: u64,
    pub denominator: u64,
}

/// The font size that the viewer's script sets, as (numerator, denominator):
/// the smaller of `viewport_width / columns * 0.6` (0.6 is the script's
/// `FONT_ASPECT_RATIO`) and `viewport_height / rows`.
pub open spec fn font_size_spec(
    viewport_width: int,
    viewport_height: int,
    columns: int,
    rows: int,
) -> (int, int) {
    if (3 * viewport_width) * rows <= viewport_height * (5 * columns) {
        (3 * viewport_width, 5 * columns)
    } else {
        (viewport_height, rows)
    }
}

/// The font size at which a grid of `columns` by `rows` characters fills as
/// much of the viewport as it can while showing whole.
pub fn fitted_font_size(viewport_width: u32, viewport_height: u32, columns: u32, rows: u32) -> (r:
    FontSize)
    requires
        columns > 0,
        rows > 0,
    ensures
        (r.numerator as int, r.denominator as int) == font_size_spec(
            viewport_width as int,
            viewport_height as int,
            columns as int,
            rows as int,
        ),
{
    let by_width_num = 3 * (viewport_width as u64);
    let by_width_den = 5 * (columns as u64);
    assert((by_width_num as u128) * (rows as u128) <= 0xffff_ffff_ffff_ffff_ffff_u128)
        by (nonlinear_arith)
        requires by_width_num <= 3 * 0xffff_ffff_u128, rows <= 0xffff_ffff_u128;
    assert((viewport_height as u128) * (by_width_den as u128) <= 0xffff_ffff_ffff_ffff_ffff_u128)
        by (nonlinear_arith)
        requires by_width_den <= 5 * 0xffff_ffff_u128, viewport_height <= 0xffff_ffff_u128;
    let lhs = (by_width_num as u128) * (rows as u128);
    let rhs = (viewport_height as u128) * (by_width_den as u128);
    if lhs <= rhs {
        FontSize { numerator: by_width_num, denominator: by_width_den }
    } else {
        FontSize { numerator: viewport_height as u64, denominator: rows as u64 }
    }
}

/// Computing the font size twice for the same viewport and grid gives the
/// same size both times.
pub proof fn lemma_font_size_idempotent(
    viewport_width: u32,
    viewport_height: u32,
    columns: u32,
    rows: u32,
    first: FontSize,
    second: FontSize,
)
    requires
        columns > 0,
        rows > 0,
        (first.numerator as int, first.denominator as int) == font_size_spec(
            viewport_width as int,
            viewport_height as int,
            columns as int,
            rows as int,
        ),
        (second.numerator as int, second.denominator as int) == font_size_spec(
            viewport_width as int,
            viewport_height as int,
            columns as int,
            rows as int,
        ),
    ensures
        first == second,
{
}

/// The fitted font size is at most 0.6 of the viewport width per column and
/// at most the viewport height per row, so the whole grid stays in view.
pub proof fn lemma_font_size_fits(
    viewport_width: int,
    viewport_height: int,
    columns: int,
    rows: int,
)
    requires
        viewport_width >= 0,
        viewport_height >= 0,
        columns > 0,
        rows > 0,
    ensures
        ({
            let (n, d) = font_size_spec(viewport_width, viewport_height, columns, rows);
            &&& d > 0
            &&& 5 * (n * columns) <= 3 * (viewport_width * d)
            &&& n * rows <= viewport_height * d
        }),
{
    let (n, d) = font_size_spec(viewport_width, viewport_height, columns, rows);
    if (3 * viewport_width) * rows <= viewport_height * (5 * columns) {
        assert(5 * (n * columns) == 3 * (viewport_width * d)) by (nonlinear_arith)
            requires n == 3 * viewport_width, d == 5 * columns;
        assert(n * rows <= viewport_height * d) by (nonlinear_arith)
            requires
                n == 3 * viewport_width,
                d == 5 * columns,
                (3 * viewport_width) * rows <= viewport_height * (5 * columns),
        ;
    } else {
        assert(5 * (n * columns) <= 3 * (viewport_width * d)) by (nonlinear_arith)
            requires
                n == viewport_height,
                d == rows,
                (3 * viewport_width) * rows > viewport_height * (5 * columns),
        ;
    }
}

} // verus!
