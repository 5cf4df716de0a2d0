//! How the answer of [`Rgb::to_ansi`], which looks a grey up in a table and
//! searches one plane of the cube for any other color, relates to a plain
//! search over all the codes of the cube and of the grey ramp.
use crate::ansi::lemma_cube_position;
use crate::ansi::AnsiColor;
use crate::answers::lemma_grey_table;
use crate::rgb::gap;
use crate::rgb::Rgb;
use crate::rgb::GREY_TO_ANSI;
use crate::round_trip::round_trip_through_rgb;
use crate::round_trip::search_finds_palette_color;
use vstd::prelude::*;

verus! {

/// A search over a part of a range agrees with the search over the whole
/// range, provided that part holds what the whole search finds.
pub proof fn narrowed_search_agrees(rgb: Rgb, min: u8, max: u8, lo: u8, hi: u8)
    requires
        min <= lo,
        hi <= max,
        lo <= rgb.nearest_ansi_in_range(min, max).code <= hi,
    ensures
        rgb.nearest_ansi_in_range(lo, hi) == rgb.nearest_ansi_in_range(min, max),
{
    let found: u8 = rgb.nearest_ansi_in_range(min, max).code;
    rgb.lemma_nearest_exists(min, max);
    rgb.lemma_nearest_exists(lo, hi);
    assert(rgb.is_nearest_in_range(lo, hi, found));
    rgb.lemma_nearest_is_unique(lo, hi, found, rgb.nearest_ansi_in_range(lo, hi).code);
}

/// For a color that is not grey, `to_ansi` gives what a search over a wider
/// range gives exactly when that search ends in the plane of the cube that
/// `to_ansi` looks at.
pub proof fn to_ansi_agrees_with_wider_search(rgb: Rgb, min: u8, max: u8)
    requires
        !rgb.is_grey(),
        min <= Rgb::cube_slice(rgb.r).0,
        Rgb::cube_slice(rgb.r).1 <= max,
    ensures
        rgb.to_ansi() == rgb.nearest_ansi_in_range(min, max) <==> Rgb::cube_slice(rgb.r).0
            <= rgb.nearest_ansi_in_range(min, max).code <= Rgb::cube_slice(rgb.r).1,
{
    let (lo, hi) = Rgb::cube_slice(rgb.r);
    rgb.lemma_nearest_exists(lo, hi);
    if lo <= rgb.nearest_ansi_in_range(min, max).code <= hi {
        narrowed_search_agrees(rgb, min, max, lo, hi);
    }
}

/// The grey levels at which the table holds another code than the search over
/// the codes from 16 on finds.
pub open spec fn table_departs_from_search(level: u8) -> bool {
    level == 96 || 100 <= level <= 103 || 111 <= level <= 113
}

/// For a grey, `to_ansi` gives what the search over the codes from 16 on
/// gives, at every level but eight.
pub proof fn grey_agrees_with_full_search(rgb: Rgb)
    requires
        rgb.is_grey(),
    ensures
        rgb.to_ansi() == rgb.nearest_ansi_in_range(16, 255) <==> !table_departs_from_search(rgb.r),
{
    let level: u8 = rgb.r;
    let entry: u8 = GREY_TO_ANSI[level as int];
    rgb.lemma_nearest_exists(16, 255);
    if table_departs_from_search(level) {
        let rival: u8 = if level == 96 {
            59
        } else if level <= 103 {
            241
        } else {
            242
        };
        lemma_table_entry_against(level, rival);
        assert(!rgb.is_nearest_in_range(16, 255, entry));
    } else {
        assert forall|c: u8| 16 <= c <= 255 implies rgb.distance_to_code(entry)
            <= #[trigger] rgb.distance_to_code(c) by {
            lemma_table_entry_against(level, c);
        }
        assert forall|c: u8| 16 <= c < entry implies rgb.distance_to_code(entry)
            < #[trigger] rgb.distance_to_code(c) by {
            lemma_table_entry_against(level, c);
        }
        lemma_grey_table(level);
        assert(rgb.is_nearest_in_range(16, 255, entry));
        rgb.lemma_nearest_is_unique(16, 255, entry, rgb.nearest_ansi_in_range(16, 255).code);
    }
}

/// On the color of every code of the cube and of the grey ramp, `to_ansi`
/// and the search over all those codes give the same answer: the code.
pub proof fn to_ansi_agrees_with_full_search_on_palette(ansi: AnsiColor)
    requires
        16 <= ansi.code,
    ensures
        ansi.to_rgb().to_ansi() == ansi,
        ansi.to_rgb().nearest_ansi_in_range(16, 255) == ansi,
{
    round_trip_through_rgb(ansi);
    search_finds_palette_color(ansi, 16, 255);
}

/// The grey of `level`.
spec fn grey(level: u8) -> Rgb {
    Rgb { r: level, g: level, b: level }
}

/// The table read as runs of levels: the code that it holds for `level`.
spec fn run_code(level: u8) -> u8 {
    if level <= 4 {
        16
    } else if level <= 13 {
        232
    } else if level <= 23 {
        233
    } else if level <= 33 {
        234
    } else if level <= 43 {
        235
    } else if level <= 53 {
        236
    } else if level <= 63 {
        237
    } else if level <= 73 {
        238
    } else if level <= 83 {
        239
    } else if level <= 91 {
        240
    } else if level <= 95 {
        59
    } else if level <= 99 {
        241
    } else if level <= 110 {
        242
    } else if level <= 123 {
        243
    } else if level <= 131 {
        244
    } else if level <= 136 {
        102
    } else if level <= 143 {
        245
    } else if level <= 153 {
        246
    } else if level <= 163 {
        247
    } else if level <= 171 {
        248
    } else if level <= 176 {
        145
    } else if level <= 183 {
        249
    } else if level <= 193 {
        250
    } else if level <= 203 {
        251
    } else if level <= 211 {
        252
    } else if level <= 216 {
        188
    } else if level <= 223 {
        253
    } else if level <= 233 {
        254
    } else if level <= 246 {
        255
    } else {
        231
    }
}

/// The table holds what its runs say.
proof fn lemma_table_is_made_of_runs(level: u8)
    ensures
        GREY_TO_ANSI[level as int] == run_code(level),
{
}

/// The greys of the palette from code 16 on: the diagonal of the cube and the
/// ramp, each with its level.
proof fn lemma_greys_of_the_palette(c: u8)
    requires
        16 <= c,
        (AnsiColor { code: c }).to_rgb().is_grey(),
    ensures
        ({
            let level = (AnsiColor { code: c }).to_rgb().r;
            ||| c == 16 && level == 0
            ||| c == 59 && level == 95
            ||| c == 102 && level == 135
            ||| c == 145 && level == 175
            ||| c == 188 && level == 215
            ||| c == 231 && level == 255
            ||| 232 <= c && level == 8 + 10 * (c - 232)
        }),
{
    if c < 232 {
        lemma_cube_position(c);
    }
}

/// Among the greys of the palette, the one that the table holds for a level
/// is the nearest in level, and the lowest in code of those; but at eight
/// levels, where a grey next to it is as near or nearer.
proof fn lemma_table_against_a_grey(level: u8, c: u8)
    requires
        16 <= c,
        (AnsiColor { code: c }).to_rgb().is_grey(),
    ensures
        ({
            let entry = GREY_TO_ANSI[level as int];
            let mine = gap(level as int, (AnsiColor { code: entry }).to_rgb().r as int);
            let other = gap(level as int, (AnsiColor { code: c }).to_rgb().r as int);
            &&& !table_departs_from_search(level) ==> mine <= other && (c < entry ==> mine < other)
            &&& level == 96 && c == 59 ==> other < mine
            &&& 100 <= level <= 103 && c == 241 ==> other <= mine && c < entry
            &&& 111 <= level <= 113 && c == 242 ==> other <= mine && c < entry
        }),
{
    lemma_table_is_made_of_runs(level);
    lemma_greys_of_the_palette(c);
    lemma_run_against_a_grey(level, c, (AnsiColor { code: c }).to_rgb().r);
    lemma_grey_table(level);
    lemma_greys_of_the_palette(run_code(level));
}

/// The same over the runs alone, the candidate given by code and level.
proof fn lemma_run_against_a_grey(level: u8, c: u8, seen: u8)
    requires
        ({
            ||| c == 16 && seen == 0
            ||| c == 59 && seen == 95
            ||| c == 102 && seen == 135
            ||| c == 145 && seen == 175
            ||| c == 188 && seen == 215
            ||| c == 231 && seen == 255
            ||| 232 <= c && seen == 8 + 10 * (c - 232)
        }),
    ensures
        ({
            let entry = run_code(level);
            let held = if entry == 16 {
                0
            } else if entry == 59 {
                95
            } else if entry == 102 {
                135
            } else if entry == 145 {
                175
            } else if entry == 188 {
                215
            } else if entry == 231 {
                255
            } else {
                8 + 10 * (entry - 232)
            };
            let mine = gap(level as int, held);
            let other = gap(level as int, seen as int);
            &&& !table_departs_from_search(level) ==> mine <= other && (c < entry ==> mine < other)
            &&& level == 96 && c == 59 ==> other < mine
            &&& 100 <= level <= 103 && c == 241 ==> other <= mine && c < entry
            &&& 111 <= level <= 113 && c == 242 ==> other <= mine && c < entry
        }),
{
}

/// A color of the cube that is not grey has a channel that is twenty or more
/// away from any one level.
proof fn lemma_cube_color_is_far_from_grey(level: u8, c: u8)
    requires
        16 <= c,
        !(AnsiColor { code: c }).to_rgb().is_grey(),
    ensures
        ({
            let seen = (AnsiColor { code: c }).to_rgb();
            gap(level as int, seen.r as int) >= 20 || gap(level as int, seen.g as int) >= 20 || gap(
                level as int,
                seen.b as int,
            ) >= 20
        }),
{
    lemma_cube_position(c);
}

/// How the table's entry for a grey level compares with one candidate `c`:
/// where the table holds the nearest grey, no candidate is nearer and no
/// lower one as near; where it does not, a grey next to it is the better
/// answer.
proof fn lemma_table_entry_against(level: u8, c: u8)
    requires
        16 <= c,
    ensures
        ({
            let entry = GREY_TO_ANSI[level as int];
            let mine = grey(level).distance_to_code(entry);
            let other = grey(level).distance_to_code(c);
            &&& !table_departs_from_search(level) ==> mine <= other && (c < entry ==> mine < other)
            &&& level == 96 && c == 59 ==> other < mine
            &&& 100 <= level <= 103 && c == 241 ==> other <= mine && c < entry
            &&& 111 <= level <= 113 && c == 242 ==> other <= mine && c < entry
        }),
{
    let entry: u8 = GREY_TO_ANSI[level as int];
    let held = (AnsiColor { code: entry }).to_rgb();
    let seen = (AnsiColor { code: c }).to_rgb();
    let mine = gap(level as int, held.r as int);
    assert(held.is_grey() && mine <= 8) by {
        lemma_grey_table(level);
    }
    assert(held == grey(held.r));
    lemma_distance_between_greys(level, held.r);
    lemma_squares_follow_gaps(mine, 8);
    if seen.is_grey() {
        let other = gap(level as int, seen.r as int);
        assert(seen == grey(seen.r));
        lemma_table_against_a_grey(level, c);
        lemma_distance_between_greys(level, seen.r);
        lemma_squares_follow_gaps(mine, other);
        lemma_squares_follow_gaps(other, mine);
    } else {
        lemma_cube_color_is_far_from_grey(level, c);
        lemma_distance_with_a_far_channel(grey(level), seen);
        assert(c != 59 && c != 241 && c != 242) by {
            if c < 232 {
                lemma_cube_position(c);
            }
        }
    }
}

/// Between two greys the three weights add up to 4606, whatever the levels.
proof fn lemma_distance_between_greys(v: u8, u: u8)
    ensures
        grey(v).distance(grey(u)) == 4606 * (gap(v as int, u as int) * gap(v as int, u as int)),
{
    let d = v - u;
    let sq = d * d;
    assert(sq == gap(v as int, u as int) * gap(v as int, u as int)) by (nonlinear_arith)
        requires
            sq == d * d,
            gap(v as int, u as int) == d || gap(v as int, u as int) == -d,
    ;
    lemma_weights_add_up(v + u, sq);
}

/// Under one square the weights of the three channels add up.
proof fn lemma_weights_add_up(r_sum: int, sq: int)
    by (nonlinear_arith)
    ensures
        (1024 + r_sum) * sq + 2048 * sq + (1534 - r_sum) * sq == 4606 * sq,
{
}

/// Squares of gaps are ordered as the gaps are.
proof fn lemma_squares_follow_gaps(a: int, b: int)
    by (nonlinear_arith)
    requires
        0 <= a,
        0 <= b,
    ensures
        a <= b ==> 4606 * (a * a) <= 4606 * (b * b),
        a < b ==> 4606 * (a * a) < 4606 * (b * b),
{
}

/// A color with a channel twenty or more away is farther than any grey that
/// the table answers with.
proof fn lemma_distance_with_a_far_channel(a: Rgb, b: Rgb)
    requires
        gap(a.r as int, b.r as int) >= 20 || gap(a.g as int, b.g as int) >= 20 || gap(
            a.b as int,
            b.b as int,
        ) >= 20,
    ensures
        a.distance(b) >= 409_600,
{
    let r_sum = a.r + b.r;
    lemma_far_term(1024 + r_sum, a.r - b.r);
    lemma_far_term(2048, a.g - b.g);
    lemma_far_term(1534 - r_sum, a.b - b.b);
}

/// One channel's term is never negative, and large where the channel is far.
proof fn lemma_far_term(w: int, d: int)
    by (nonlinear_arith)
    requires
        w >= 1024,
    ensures
        w * (d * d) >= 0,
        d >= 20 || d <= -20 ==> w * (d * d) >= 409_600,
{
}

} // verus!
