//! Where in the palette the answers of [`Rgb::to_ansi`] lie.
use crate::ansi::AnsiColor;
use crate::rgb::Rgb;
use crate::rgb::GREY_TO_ANSI;
use vstd::prelude::*;

verus! {

/// `to_ansi` never answers with one of the sixteen system colors.
pub proof fn to_ansi_avoids_system_colors(rgb: Rgb)
    ensures
        rgb.to_ansi().code >= 16,
{
    if rgb.is_grey() {
        lemma_grey_table(rgb.r);
    } else {
        let (lo, hi) = Rgb::cube_slice(rgb.r);
        rgb.lemma_nearest_exists(lo, hi);
    }
}

/// A color that is not grey goes to a color of the cube plane that its red
/// component picks: the red of the answer is the level of that plane.
pub proof fn to_ansi_stays_in_the_red_plane(rgb: Rgb)
    requires
        !rgb.is_grey(),
    ensures
        17 <= rgb.to_ansi().code <= 230,
        rgb.to_ansi().to_rgb().r == Rgb::plane_level(rgb.r),
{
    let (lo, hi) = Rgb::cube_slice(rgb.r);
    rgb.lemma_nearest_exists(lo, hi);
}

/// A grey goes to a grey of the palette that is at most eight levels away.
pub proof fn grey_stays_grey(rgb: Rgb)
    requires
        rgb.is_grey(),
    ensures
        rgb.to_ansi().to_rgb().is_grey(),
        -8 <= rgb.to_ansi().to_rgb().r - rgb.r <= 8,
{
    lemma_grey_table(rgb.r);
}

/// What the table of greys holds at each level.
pub proof fn lemma_grey_table(level: u8)
    ensures
        GREY_TO_ANSI[level as int] >= 16,
        (AnsiColor { code: GREY_TO_ANSI[level as int] }).to_rgb().is_grey(),
        -8 <= (AnsiColor { code: GREY_TO_ANSI[level as int] }).to_rgb().r - level <= 8,
{
}

} // verus!
