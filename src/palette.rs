//! The glyph palette of the rain: the Hiragana block, and random draws from it.

use vstd::prelude::*;

verus! {

/// Number of glyphs in the palette.
pub const PALETTE_LEN: usize = 91;

/// First code point of the palette's main run (HIRAGANA LETTER SMALL A).
pub const FIRST_RUN_START: u32 = 0x3041;

/// Number of code points in the main run, U+3041 through U+3096.
pub const FIRST_RUN_LEN: u32 = 86;

/// First code point of the trailing run of sound marks and iteration marks.
pub const SECOND_RUN_START: u32 = 0x309B;

/// The code point of the glyph at index `i` of the palette.
pub open spec fn glyph_code(i: int) -> int {
    if i < FIRST_RUN_LEN {
        FIRST_RUN_START + i
    } else {
        SECOND_RUN_START + (i - FIRST_RUN_LEN)
    }
}

/// The palette in order, as a sequence of characters.
pub open spec fn is_palette(s: Seq<char>) -> bool {
    &&& s.len() == PALETTE_LEN
    &&& forall|i: int| 0 <= i < PALETTE_LEN ==> #[trigger] s[i] as u32 == glyph_code(i)
}

/// Whether `c` is one of the palette's glyphs.
pub open spec fn is_glyph(c: char) -> bool {
    ||| (FIRST_RUN_START <= (c as u32) && (c as u32) < FIRST_RUN_START + FIRST_RUN_LEN)
    ||| (SECOND_RUN_START <= (c as u32) && (c as u32) <= 0x309F)
}

/// Every member of the palette is a glyph.
pub proof fn lemma_palette_members(s: Seq<char>, c: char)
    requires
        is_palette(s),
        s.contains(c),
    ensures
        is_glyph(c),
{
    let i = choose|i: int| 0 <= i < s.len() && s[i] == c;
    assert(s[i] as u32 == glyph_code(i));
}

/// The characters a drop can show: U+3041 to U+3096 and U+309B to U+309F.
pub fn palette() -> (v: Vec<char>)
    ensures
        is_palette(v@),
{
    let v: Vec<char> = vec![
        '\u{3041}', '\u{3042}', '\u{3043}', '\u{3044}', '\u{3045}', '\u{3046}', '\u{3047}', '\u{3048}',
        '\u{3049}', '\u{304A}', '\u{304B}', '\u{304C}', '\u{304D}', '\u{304E}', '\u{304F}', '\u{3050}',
        '\u{3051}', '\u{3052}', '\u{3053}', '\u{3054}', '\u{3055}', '\u{3056}', '\u{3057}', '\u{3058}',
        '\u{3059}', '\u{305A}', '\u{305B}', '\u{305C}', '\u{305D}', '\u{305E}', '\u{305F}', '\u{3060}',
        '\u{3061}', '\u{3062}', '\u{3063}', '\u{3064}', '\u{3065}', '\u{3066}', '\u{3067}', '\u{3068}',
        '\u{3069}', '\u{306A}', '\u{306B}', '\u{306C}', '\u{306D}', '\u{306E}', '\u{306F}', '\u{3070}',
        '\u{3071}', '\u{3072}', '\u{3073}', '\u{3074}', '\u{3075}', '\u{3076}', '\u{3077}', '\u{3078}',
        '\u{3079}', '\u{307A}', '\u{307B}', '\u{307C}', '\u{307D}', '\u{307E}', '\u{307F}', '\u{3080}',
        '\u{3081}', '\u{3082}', '\u{3083}', '\u{3084}', '\u{3085}', '\u{3086}', '\u{3087}', '\u{3088}',
        '\u{3089}', '\u{308A}', '\u{308B}', '\u{308C}', '\u{308D}', '\u{308E}', '\u{308F}', '\u{3090}',
        '\u{3091}', '\u{3092}', '\u{3093}', '\u{3094}', '\u{3095}', '\u{3096}', '\u{309B}', '\u{309C}',
        '\u{309D}', '\u{309E}', '\u{309F}',
    ];
    v
}

/// A glyph drawn at random from `pal`, the palette.
pub fn random_glyph_from(pal: &Vec<char>) -> (c: char)
    requires
        is_palette(pal@),
    ensures
        is_glyph(c),
{
    let r = crate::chance::choose_from(pal.as_slice());
    proof {
        if let Some(c) = r {
            lemma_palette_members(pal@, c);
        }
    }
    r.unwrap()
}

/// A glyph drawn at random from the palette.
pub fn random_glyph() -> (c: char)
    ensures
        is_glyph(c),
{
    let pal = palette();
    random_glyph_from(&pal)
}

} // verus!
