//! The closed set of colour schemes and their display names.

use vstd::prelude::*;

verus! {

/// A colour scheme. `Monochrome` carries its hue in degrees as the bit pattern
/// of an IEEE-754 double, so that the value passes through unchanged.
#[derive(Clone, Copy, Debug, PartialEq, Eq, Structural)]
pub enum ColorScheme {
    Blue,
    Red,
    Rainbow,
    Greyscale,
    Blueish,
    Forest,
    Electric,
    Pastel,
    Monochrome(u64),
}

/// Number of scheme variants.
pub const SCHEME_COUNT: u32 = 9;

/// Bit pattern of the double 360.0. Non-negative doubles are ordered as their
/// bit patterns are, so a pattern below this one is a hue in `[0, 360)`.
pub const FULL_TURN_BITS: u64 = 0x4076_8000_0000_0000;

/// The scheme that a draw selects: `index` counts the variants in declaration
/// order, and every index from 8 on selects `Monochrome` with the given hue.
pub open spec fn scheme_for_draw(index: u32, hue_bits: u64) -> ColorScheme {
    if index == 0 {
        ColorScheme::Blue
    } else if index == 1 {
        ColorScheme::Red
    } else if index == 2 {
        ColorScheme::Rainbow
    } else if index == 3 {
        ColorScheme::Greyscale
    } else if index == 4 {
        ColorScheme::Blueish
    } else if index == 5 {
        ColorScheme::Forest
    } else if index == 6 {
        ColorScheme::Electric
    } else if index == 7 {
        ColorScheme::Pastel
    } else {
        ColorScheme::Monochrome(hue_bits)
    }
}

/// The display name of a scheme, as it appears in output file names.
pub open spec fn scheme_name(scheme: ColorScheme) -> Seq<char> {
    match scheme {
        ColorScheme::Blue => "blues"@,
        ColorScheme::Red => "fire"@,
        ColorScheme::Rainbow => "rainbow"@,
        ColorScheme::Greyscale => "greyscale"@,
        ColorScheme::Blueish => "ocean"@,
        ColorScheme::Forest => "forest"@,
        ColorScheme::Electric => "electric"@,
        ColorScheme::Pastel => "pastel"@,
        ColorScheme::Monochrome(_) => "monochrome"@,
    }
}

impl ColorScheme {
    /// Whether the scheme is within its domain: a `Monochrome` hue lies in `[0, 360)`.
    pub open spec fn wf(self) -> bool {
        match self {
            ColorScheme::Monochrome(hue_bits) => hue_bits < FULL_TURN_BITS,
            _ => true,
        }
    }
}

/// Whether a draw with this index uses the hue handed in with it.
pub fn draw_needs_hue(index: u32) -> (needed: bool)
    ensures
        needed == (index >= 8),
        !needed ==> forall|a: u64, b: u64| scheme_for_draw(index, a) == scheme_for_draw(index, b),
{
    index >= 8
}

/// Turns a draw into a scheme. `index` is uniform over `0..=8` when drawn by
/// the caller; `hue_bits` is only read when the draw lands on `Monochrome`.
pub fn get_random_color_scheme(index: u32, hue_bits: u64) -> (scheme: ColorScheme)
    ensures
        scheme == scheme_for_draw(index, hue_bits),
        hue_bits < FULL_TURN_BITS ==> scheme.wf(),
{
    match index {
        0 => ColorScheme::Blue,
        1 => ColorScheme::Red,
        2 => ColorScheme::Rainbow,
        3 => ColorScheme::Greyscale,
        4 => ColorScheme::Blueish,
        5 => ColorScheme::Forest,
        6 => ColorScheme::Electric,
        7 => ColorScheme::Pastel,
        _ => ColorScheme::Monochrome(hue_bits),
    }
}

/// The display name of a scheme.
pub fn get_color_scheme_name(color_scheme: &ColorScheme) -> (name: &'static str)
    ensures
        name@ == scheme_name(*color_scheme),
{
    match color_scheme {
        ColorScheme::Blue => "blues",
        ColorScheme::Red => "fire",
        ColorScheme::Rainbow => "rainbow",
        ColorScheme::Greyscale => "greyscale",
        ColorScheme::Blueish => "ocean",
        ColorScheme::Forest => "forest",
        ColorScheme::Electric => "electric",
        ColorScheme::Pastel => "pastel",
        ColorScheme::Monochrome(_) => "monochrome",
    }
}

/// Two schemes share a display name exactly when they are the same variant.
pub proof fn lemma_names_tell_variants_apart(a: ColorScheme, b: ColorScheme)
    ensures
        scheme_name(a) == scheme_name(b) <==> same_variant(a, b),
{
    reveal_strlit("blues");
    reveal_strlit("fire");
    reveal_strlit("rainbow");
    reveal_strlit("greyscale");
    reveal_strlit("ocean");
    reveal_strlit("forest");
    reveal_strlit("electric");
    reveal_strlit("pastel");
    reveal_strlit("monochrome");
    lemma_name_lengths_and_heads(a);
    lemma_name_lengths_and_heads(b);
}

/// Whether two schemes are the same variant, whatever hue they carry.
pub open spec fn same_variant(a: ColorScheme, b: ColorScheme) -> bool {
    match (a, b) {
        (ColorScheme::Monochrome(_), ColorScheme::Monochrome(_)) => true,
        _ => a == b,
    }
}

/// Each variant is selected by exactly one index below `SCHEME_COUNT`, so an
/// even draw of the index is an even draw of the variant.
pub proof fn lemma_one_index_per_variant(scheme: ColorScheme, hue_bits: u64)
    ensures
        exists|index: u32|
            index < SCHEME_COUNT && same_variant(
                #[trigger] scheme_for_draw(index, hue_bits),
                scheme,
            ),
        forall|i: u32, j: u32|
            i < SCHEME_COUNT && j < SCHEME_COUNT && same_variant(
                #[trigger] scheme_for_draw(i, hue_bits),
                #[trigger] scheme_for_draw(j, hue_bits),
            ) ==> i == j,
{
    let index: u32 = match scheme {
        ColorScheme::Blue => 0,
        ColorScheme::Red => 1,
        ColorScheme::Rainbow => 2,
        ColorScheme::Greyscale => 3,
        ColorScheme::Blueish => 4,
        ColorScheme::Forest => 5,
        ColorScheme::Electric => 6,
        ColorScheme::Pastel => 7,
        ColorScheme::Monochrome(_) => 8,
    };
    assert(same_variant(scheme_for_draw(index, hue_bits), scheme));
}

proof fn lemma_name_lengths_and_heads(s: ColorScheme)
    ensures
        scheme_name(s).len() >= 4,
        match s {
            ColorScheme::Blue => scheme_name(s)[0] == 'b',
            ColorScheme::Red => scheme_name(s)[0] == 'f' && scheme_name(s)[1] == 'i',
            ColorScheme::Rainbow => scheme_name(s)[0] == 'r',
            ColorScheme::Greyscale => scheme_name(s)[0] == 'g',
            ColorScheme::Blueish => scheme_name(s)[0] == 'o',
            ColorScheme::Forest => scheme_name(s)[0] == 'f' && scheme_name(s)[1] == 'o',
            ColorScheme::Electric => scheme_name(s)[0] == 'e',
            ColorScheme::Pastel => scheme_name(s)[0] == 'p',
            ColorScheme::Monochrome(_) => scheme_name(s)[0] == 'm',
        },
{
    reveal_strlit("blues");
    reveal_strlit("fire");
    reveal_strlit("rainbow");
    reveal_strlit("greyscale");
    reveal_strlit("ocean");
    reveal_strlit("forest");
    reveal_strlit("electric");
    reveal_strlit("pastel");
    reveal_strlit("monochrome");
}

} // verus!
