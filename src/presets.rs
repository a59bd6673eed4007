//! The built-in palettes and color themes, and the options that a request
//! picks from them.

use vstd::prelude::*;
use crate::converter::AsciiConfig;
use crate::quantize::Ratio;

verus! {

broadcast use vstd::string::group_string_axioms;

/// Ten characters from dark to bright.
pub const SIMPLE_CHARS: &'static str = " .:-=+*#%@";

/// Seventy characters from dark to bright.
pub const DETAILED_CHARS: &'static str = " .'`^\",:;Il!i><~+_-?][}{1)(|\\/tfjrxnuvczXYUJCLQ0OZmwqpdbkhao*#MW&8%B@$";

pub const DARK_BACKGROUND: &'static str = "#1a1a1a";

pub const DARK_TEXT: &'static str = "#e0e0e0";

pub const LIGHT_BACKGROUND: &'static str = "#f0f0f0";

pub const LIGHT_TEXT: &'static str = "#111111";

/// Columns of the grid when not at full resolution.
pub const DEFAULT_WIDTH: u32 = 150;

/// A character cell is about twice as tall as wide, so rows are halved.
pub const ASPECT_NUMERATOR: u32 = 1;

pub const ASPECT_DENOMINATOR: u32 = 2;

#[derive(Clone, Copy, Debug, PartialEq, Eq, Structural)]
pub enum ColorTheme {
    /// Light text on a dark page; bright pixels take the late characters.
    Dark,
    /// Dark text on a light page; the mapping is inverted.
    Light,
}

#[derive(Clone, Copy, Debug, PartialEq, Eq, Structural)]
pub enum CharacterSet {
    Simple,
    Detailed,
}

/// The characters of a string, in order.
fn chars_of(s: &str) -> (r: Vec<char>)
    ensures
        r@ == s@,
{
    let mut out: Vec<char> = Vec::new();
    for c in it: s.chars()
        invariant
            it.seq() == s@,
            out@ == s@.take(it.index() as int),
    {
        proof {
            assert(s@.take(it.index() as int + 1) =~= s@.take(it.index() as int).push(c));
        }
        out.push(c);
    }
    assert(s@.take(s@.len() as int) =~= s@);
    out
}

/// Whether two strings hold the same characters.
fn same_text(a: &str, b: &str) -> (r: bool)
    ensures
        r == (a@ == b@),
{
    let n = a.unicode_len();
    if n != b.unicode_len() {
        return false;
    }
    let mut i: usize = 0;
    while i < n
        invariant
            n == a@.len(),
            n == b@.len(),
            i <= n,
            forall|k: int| 0 <= k < i ==> a@[k] == b@[k],
        decreases n - i,
    {
        if a.get_char(i) != b.get_char(i) {
            return false;
        }
        i += 1;
    }
    assert(a@ =~= b@);
    true
}

impl CharacterSet {
    pub open spec fn chars_spec(self) -> Seq<char> {
        match self {
            CharacterSet::Simple => SIMPLE_CHARS@,
            CharacterSet::Detailed => DETAILED_CHARS@,
        }
    }

    /// The palette, darkest first.
    pub fn characters(self) -> (r: Vec<char>)
        ensures
            r@ == self.chars_spec(),
    {
        match self {
            CharacterSet::Simple => chars_of(SIMPLE_CHARS),
            CharacterSet::Detailed => chars_of(DETAILED_CHARS),
        }
    }

    /// `Detailed` for the form value `"true"`, else `Simple`.
    pub fn from_field(value: &str) -> (r: CharacterSet)
        ensures
            r == (if value@ == "true"@ {
                CharacterSet::Detailed
            } else {
                CharacterSet::Simple
            }),
    {
        if field_is_true(value) {
            CharacterSet::Detailed
        } else {
            CharacterSet::Simple
        }
    }
}

/// Whether a form value switches an option on: exactly `"true"`.
pub fn field_is_true(value: &str) -> (r: bool)
    ensures
        r == (value@ == "true"@),
{
    same_text(value, "true")
}

impl ColorTheme {
    pub open spec fn background_spec(self) -> Seq<char> {
        match self {
            ColorTheme::Dark => DARK_BACKGROUND@,
            ColorTheme::Light => LIGHT_BACKGROUND@,
        }
    }

    pub open spec fn text_spec(self) -> Seq<char> {
        match self {
            ColorTheme::Dark => DARK_TEXT@,
            ColorTheme::Light => LIGHT_TEXT@,
        }
    }

    /// `Light` for the form value `"light"`, else `Dark`.
    pub fn from_field(value: &str) -> (r: ColorTheme)
        ensures
            r == (if value@ == "light"@ {
                ColorTheme::Light
            } else {
                ColorTheme::Dark
            }),
    {
        if same_text(value, "light") {
            ColorTheme::Light
        } else {
            ColorTheme::Dark
        }
    }

    pub fn background_color(self) -> (r: &'static str)
        ensures
            r@ == self.background_spec(),
    {
        match self {
            ColorTheme::Dark => DARK_BACKGROUND,
            ColorTheme::Light => LIGHT_BACKGROUND,
        }
    }

    pub fn text_color(self) -> (r: &'static str)
        ensures
            r@ == self.text_spec(),
    {
        match self {
            ColorTheme::Dark => DARK_TEXT,
            ColorTheme::Light => LIGHT_TEXT,
        }
    }

    /// Whether the palette runs from bright to dark under this theme.
    pub fn inverts(self) -> (r: bool)
        ensures
            r == (self == ColorTheme::Light),
    {
        match self {
            ColorTheme::Dark => false,
            ColorTheme::Light => true,
        }
    }
}

impl AsciiConfig {
    /// The options for an upload: the theme's colors and inversion, the chosen
    /// palette, `DEFAULT_WIDTH` columns unless at full resolution, and rows
    /// halved for the character cell.
    pub fn for_request(theme: ColorTheme, set: CharacterSet, full_resolution: bool) -> (r:
        AsciiConfig)
        ensures
            r.width == DEFAULT_WIDTH,
            r.use_full_resolution == full_resolution,
            r.character_set@ == set.chars_spec(),
            r.invert_mapping == (theme == ColorTheme::Light),
            r.aspect_ratio_correction == (Ratio {
                numerator: ASPECT_NUMERATOR,
                denominator: ASPECT_DENOMINATOR,
            }),
            r.background_color@ == theme.background_spec(),
            r.text_color@ == theme.text_spec(),
    {
        AsciiConfig {
            width: DEFAULT_WIDTH,
            use_full_resolution: full_resolution,
            character_set: set.characters(),
            invert_mapping: theme.inverts(),
            aspect_ratio_correction: Ratio {
                numerator: ASPECT_NUMERATOR,
                denominator: ASPECT_DENOMINATOR,
            },
            background_color: String::from_str(theme.background_color()),
            text_color: String::from_str(theme.text_color()),
        }
    }
}

} // verus!
