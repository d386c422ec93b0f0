//! Colors as ANSI "select graphic rendition" sequences with 24-bit RGB values.

use vstd::prelude::*;

verus! {

/// The SGR parameter that selects a foreground color.
pub const FOREGROUND: u32 = 38;

/// The SGR parameter that selects a background color.
pub const BACKGROUND: u32 = 48;

/// Number of trail levels that have a color of their own; every level from
/// this one on is drawn in black.
pub const COLORED_LEVELS: usize = 16;

/// The decimal digit `d`, for `0 <= d < 10`.
pub open spec fn digit(d: int) -> char {
    if d == 0 { '0' }
    else if d == 1 { '1' }
    else if d == 2 { '2' }
    else if d == 3 { '3' }
    else if d == 4 { '4' }
    else if d == 5 { '5' }
    else if d == 6 { '6' }
    else if d == 7 { '7' }
    else if d == 8 { '8' }
    else { '9' }
}

/// The decimal notation of `n`, without leading zeros, for `0 <= n < 1000`.
pub open spec fn decimal(n: int) -> Seq<char> {
    if n < 10 {
        seq![digit(n)]
    } else if n < 100 {
        seq![digit(n / 10), digit(n % 10)]
    } else {
        seq![digit(n / 100), digit((n / 10) % 10), digit(n % 10)]
    }
}

/// The escape sequence `ESC [ layer ; 2 ; r ; g ; b m`, which sets the
/// foreground (`layer` 38) or background (`layer` 48) to an RGB color.
pub open spec fn sgr_rgb(layer: int, r: int, g: int, b: int) -> Seq<char> {
    seq!['\x1B', '['] + decimal(layer) + seq![';', '2', ';'] + decimal(r) + seq![';'] + decimal(g)
        + seq![';'] + decimal(b) + seq!['m']
}

/// The green intensity of trail level `level`: full for the head of a drop,
/// then sixteen steps down per level, and black from `COLORED_LEVELS` on.
pub open spec fn green_of(level: int) -> int {
    if level <= 0 {
        255
    } else if level < COLORED_LEVELS {
        256 - 16 * level
    } else {
        0
    }
}

/// The gradient never brightens as the level grows.
pub proof fn lemma_gradient_dims(a: int, b: int)
    requires
        0 <= a <= b,
    ensures
        0 <= green_of(b) <= green_of(a) <= 255,
{
}

/// A color of the fading gradient, chosen by its level: 0 is the head of a
/// drop, higher levels are older parts of its trail.
#[derive(Copy, Clone, Debug)]
pub struct FadeColor(pub usize);

impl FadeColor {
    /// The sequence that sets the foreground to this level's green.
    pub open spec fn fg_spec(&self) -> Seq<char> {
        sgr_rgb(FOREGROUND as int, 0, green_of(self.0 as int), 0)
    }

    /// The sequence that sets the background: always black.
    pub open spec fn bg_spec(&self) -> Seq<char> {
        sgr_rgb(BACKGROUND as int, 0, 0, 0)
    }

    /// The escape sequence that sets the foreground to this level's color.
    pub fn fg_str(&self) -> (r: &'static str)
        ensures
            r@ == self.fg_spec(),
    {
        let r = match self.0 {
            0 => {
                proof { reveal_strlit("\x1B[38;2;0;255;0m"); }
                "\x1B[38;2;0;255;0m"
            },
            1 => {
                proof { reveal_strlit("\x1B[38;2;0;240;0m"); }
                "\x1B[38;2;0;240;0m"
            },
            2 => {
                proof { reveal_strlit("\x1B[38;2;0;224;0m"); }
                "\x1B[38;2;0;224;0m"
            },
            3 => {
                proof { reveal_strlit("\x1B[38;2;0;208;0m"); }
                "\x1B[38;2;0;208;0m"
            },
            4 => {
                proof { reveal_strlit("\x1B[38;2;0;192;0m"); }
                "\x1B[38;2;0;192;0m"
            },
            5 => {
                proof { reveal_strlit("\x1B[38;2;0;176;0m"); }
                "\x1B[38;2;0;176;0m"
            },
            6 => {
                proof { reveal_strlit("\x1B[38;2;0;160;0m"); }
                "\x1B[38;2;0;160;0m"
            },
            7 => {
                proof { reveal_strlit("\x1B[38;2;0;144;0m"); }
                "\x1B[38;2;0;144;0m"
            },
            8 => {
                proof { reveal_strlit("\x1B[38;2;0;128;0m"); }
                "\x1B[38;2;0;128;0m"
            },
            9 => {
                proof { reveal_strlit("\x1B[38;2;0;112;0m"); }
                "\x1B[38;2;0;112;0m"
            },
            10 => {
                proof { reveal_strlit("\x1B[38;2;0;96;0m"); }
                "\x1B[38;2;0;96;0m"
            },
            11 => {
                proof { reveal_strlit("\x1B[38;2;0;80;0m"); }
                "\x1B[38;2;0;80;0m"
            },
            12 => {
                proof { reveal_strlit("\x1B[38;2;0;64;0m"); }
                "\x1B[38;2;0;64;0m"
            },
            13 => {
                proof { reveal_strlit("\x1B[38;2;0;48;0m"); }
                "\x1B[38;2;0;48;0m"
            },
            14 => {
                proof { reveal_strlit("\x1B[38;2;0;32;0m"); }
                "\x1B[38;2;0;32;0m"
            },
            15 => {
                proof { reveal_strlit("\x1B[38;2;0;16;0m"); }
                "\x1B[38;2;0;16;0m"
            },
            _ => {
                proof { reveal_strlit("\x1B[38;2;0;0;0m"); }
                "\x1B[38;2;0;0;0m"
            },
        };
        assert(r@ =~= self.fg_spec());
        r
    }
    /// The escape sequence that sets the background: black for every level.
    pub fn bg_str(&self) -> (r: &'static str)
        ensures
            r@ == self.bg_spec(),
    {
        proof { reveal_strlit("\x1B[48;2;0;0;0m"); }
        let r = "\x1B[48;2;0;0;0m";
        assert(r@ =~= self.bg_spec());
        r
    }
}

/// A fixed highlight color: yellow text, with a background sequence that
/// carries a stray `4` between the escape and the bracket.
#[derive(Copy, Clone, Debug)]
pub struct Xxx;

impl Xxx {
    /// The highlight's foreground sequence: RGB (255, 255, 0).
    pub open spec fn fg_spec(&self) -> Seq<char> {
        sgr_rgb(FOREGROUND as int, 255, 255, 0)
    }

    /// The highlight's background sequence, `ESC 4 [ 8 ; 2 ; 0 ; 255 ; 255 m`:
    /// the background sequence for RGB (0, 255, 255) with its second and
    /// third characters swapped.
    pub open spec fn bg_spec(&self) -> Seq<char> {
        let b = sgr_rgb(BACKGROUND as int, 0, 255, 255);
        b.update(1, b[2]).update(2, b[1])
    }

    /// The escape sequence that sets the foreground to yellow.
    pub fn fg_str(&self) -> (r: &'static str)
        ensures
            r@ == self.fg_spec(),
    {
        proof { reveal_strlit("\x1B[38;2;255;255;0m"); }
        let r = "\x1B[38;2;255;255;0m";
        assert(r@ =~= self.fg_spec());
        r
    }

    /// The highlight's background sequence, as `bg_spec` gives it.
    pub fn bg_str(&self) -> (r: &'static str)
        ensures
            r@ == self.bg_spec(),
    {
        proof { reveal_strlit("\x1B4[8;2;0;255;255m"); }
        let r = "\x1B4[8;2;0;255;255m";
        assert(r@ =~= self.bg_spec());
        r
    }
}

} // verus!
