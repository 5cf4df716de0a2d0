use crate::rgb::Rgb;
use vstd::prelude::*;

verus! {

/// Component value at step `i` of one axis of the 6x6x6 color cube.
pub open spec fn cube_level(i: int) -> int {
    if i == 0 {
        0
    } else {
        55 + 40 * i
    }
}

/// The sixteen system colors, with the values xterm gives them by default.
pub open spec fn system_color(code: u8) -> (u8, u8, u8) {
    if code == 0 {
        (0, 0, 0)
    } else if code == 1 {
        (205, 0, 0)
    } else if code == 2 {
        (0, 205, 0)
    } else if code == 3 {
        (205, 205, 0)
    } else if code == 4 {
        (0, 0, 238)
    } else if code == 5 {
        (205, 0, 205)
    } else if code == 6 {
        (0, 205, 205)
    } else if code == 7 {
        (229, 229, 229)
    } else if code == 8 {
        (127, 127, 127)
    } else if code == 9 {
        (255, 0, 0)
    } else if code == 10 {
        (0, 255, 0)
    } else if code == 11 {
        (255, 255, 0)
    } else if code == 12 {
        (92, 92, 255)
    } else if code == 13 {
        (255, 0, 255)
    } else if code == 14 {
        (0, 255, 255)
    } else {
        (255, 255, 255)
    }
}

/// Where a code of the color cube lies along the red, green and blue axes.
/// Blue varies fastest.
pub open spec fn cube_position(code: u8) -> (int, int, int) {
    let k = code - 16;
    (k / 36, (k / 6) % 6, k % 6)
}

/// The xterm 256-color palette: sixteen system colors, then the 6x6x6 color
/// cube, then a ramp of twenty-four greys that starts at 8 and climbs by 10.
pub open spec fn palette(code: u8) -> (u8, u8, u8) {
    if code < 16 {
        system_color(code)
    } else if code < 232 {
        let (i, j, k) = cube_position(code);
        (cube_level(i) as u8, cube_level(j) as u8, cube_level(k) as u8)
    } else {
        let v = (8 + 10 * (code - 232)) as u8;
        (v, v, v)
    }
}

/// A code of the color cube is given by its position, and each channel of
/// its color is the level at that position.
pub proof fn lemma_cube_position(code: u8)
    requires
        16 <= code < 232,
    ensures
        ({
            let (i, j, k) = cube_position(code);
            &&& 0 <= i < 6 && 0 <= j < 6 && 0 <= k < 6
            &&& code == 16 + 36 * i + 6 * j + k
            &&& palette(code).0 == cube_level(i)
            &&& palette(code).1 == cube_level(j)
            &&& palette(code).2 == cube_level(k)
        }),
{
}

/// The six levels of the cube are byte values that differ from each other.
proof fn lemma_levels_are_distinct(i: int, j: int)
    requires
        0 <= i < 6,
        0 <= j < 6,
    ensures
        0 <= cube_level(i) <= 255,
        cube_level(i) == cube_level(j) ==> i == j,
{
}

/// From code 16 on, no two codes of the palette share a color. (The system
/// colors below 16 do repeat colors of the cube.)
pub proof fn palette_colors_are_distinct(c1: u8, c2: u8)
    requires
        16 <= c1,
        16 <= c2,
        c1 != c2,
    ensures
        palette(c1) != palette(c2),
{
    if c1 < 232 && c2 < 232 {
        let (i1, j1, k1) = cube_position(c1);
        let (i2, j2, k2) = cube_position(c2);
        lemma_cube_position(c1);
        lemma_cube_position(c2);
        lemma_levels_are_distinct(i1, i2);
        lemma_levels_are_distinct(j1, j2);
        lemma_levels_are_distinct(k1, k2);
    } else if c1 < 232 {
        // a level of the cube ends in 0 or 5, a level of the ramp in 8
        lemma_cube_position(c1);
    } else if c2 < 232 {
        lemma_cube_position(c2);
    }
}

/// Palette lookup, done by `ansi_colours::rgb_from_ansi256`.
///
/// Trusted: that function reads entry `code` of its table of 256 colors and
/// splits it into red, green and blue; the table is taken to hold exactly the
/// colors that [`palette`] lists.
#[verifier::external_body]
fn palette_entry(code: u8) -> (entry: (u8, u8, u8))
    ensures
        entry == palette(code),
{
    ansi_colours::rgb_from_ansi256(code)
}

/// 8-bit ANSI color code.
#[derive(Clone, Copy, Debug, PartialEq, Eq, Structural)]
pub struct AnsiColor {
    pub code: u8,
}

impl AnsiColor {
    /// Create a new ANSI color from its code. Every code is one.
    pub fn new(code: u8) -> (color: Self)
        ensures
            color.code == code,
    {
        Self { code }
    }

    /// The palette color of this code.
    pub open spec fn spec_to_rgb(self) -> Rgb {
        let (r, g, b) = palette(self.code);
        Rgb { r, g, b }
    }

    /// The color that the palette holds for this code.
    #[verifier::when_used_as_spec(spec_to_rgb)]
    pub fn to_rgb(self) -> (rgb: Rgb)
        ensures
            rgb == self.spec_to_rgb(),
    {
        let (r, g, b) = palette_entry(self.code);
        Rgb { r, g, b }
    }
}

} // verus!
