//! What is kept when a code goes to its color and back.
use crate::ansi::palette_colors_are_distinct;
use crate::ansi::AnsiColor;
use crate::answers::to_ansi_avoids_system_colors;
use crate::rgb::distance_is_zero_iff_same;
use crate::rgb::Rgb;
use vstd::prelude::*;

verus! {

/// A search that starts at 16 or above and has the code of `ansi` in its
/// range finds `ansi` for the palette color of `ansi`.
pub proof fn search_finds_palette_color(ansi: AnsiColor, min: u8, max: u8)
    requires
        16 <= min <= ansi.code <= max,
    ensures
        ansi.to_rgb().nearest_ansi_in_range(min, max) == ansi,
{
    let rgb = ansi.to_rgb();
    distance_is_zero_iff_same(rgb, rgb);
    assert forall|c: u8| min <= c <= max implies rgb.distance_to_code(ansi.code)
        <= #[trigger] rgb.distance_to_code(c) by {
        distance_is_zero_iff_same(rgb, AnsiColor { code: c }.to_rgb());
    }
    assert forall|c: u8| min <= c < ansi.code implies rgb.distance_to_code(ansi.code)
        < #[trigger] rgb.distance_to_code(c) by {
        distance_is_zero_iff_same(rgb, AnsiColor { code: c }.to_rgb());
        palette_colors_are_distinct(c, ansi.code);
    }
    assert(rgb.is_nearest_in_range(min, max, ansi.code));
    rgb.lemma_nearest_is_unique(min, max, ansi.code, rgb.nearest_ansi_in_range(min, max).code);
}

/// Going from a code of the color cube or of the grey ramp to its color and
/// back gives the code again.
pub proof fn round_trip_through_rgb(ansi: AnsiColor)
    requires
        16 <= ansi.code,
    ensures
        ansi.to_rgb().to_ansi() == ansi,
{
    let rgb = ansi.to_rgb();
    if rgb.is_grey() {
        // the table holds each grey of the cube and of the ramp at its own level
    } else {
        let (min, max) = Rgb::cube_slice(rgb.r);
        search_finds_palette_color(ansi, min, max);
    }
}

/// A system color does not come back: its color goes to a code of the cube
/// or of the grey ramp.
pub proof fn system_color_does_not_come_back(ansi: AnsiColor)
    requires
        ansi.code < 16,
    ensures
        ansi.to_rgb().to_ansi() != ansi,
        ansi.to_rgb().to_ansi().code >= 16,
{
    to_ansi_avoids_system_colors(ansi.to_rgb());
}

} // verus!
