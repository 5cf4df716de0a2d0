use crate::ansi::AnsiColor;
use vstd::prelude::*;

verus! {

/// RGB color, with u8 components.
#[derive(Clone, Copy, Debug, PartialEq, Eq, Structural)]
pub struct Rgb {
    /// red
    pub r: u8,
    /// green
    pub g: u8,
    /// blue
    pub b: u8,
}

/// For each grey level, the code that [`Rgb::to_ansi`] gives it: an entry of
/// the grey ramp, or one of the six greys on the diagonal of the color cube.
pub const GREY_TO_ANSI: [u8; 256] = [
     16,  16,  16,  16,  16, 232, 232, 232,
    232, 232, 232, 232, 232, 232, 233, 233,
    233, 233, 233, 233, 233, 233, 233, 233,
    234, 234, 234, 234, 234, 234, 234, 234,
    234, 234, 235, 235, 235, 235, 235, 235,
    235, 235, 235, 235, 236, 236, 236, 236,
    236, 236, 236, 236, 236, 236, 237, 237,
    237, 237, 237, 237, 237, 237, 237, 237,
    238, 238, 238, 238, 238, 238, 238, 238,
    238, 238, 239, 239, 239, 239, 239, 239,
    239, 239, 239, 239, 240, 240, 240, 240,
    240, 240, 240, 240,  59,  59,  59,  59,
    241, 241, 241, 241, 242, 242, 242, 242,
    242, 242, 242, 242, 242, 242, 242, 243,
    243, 243, 243, 243, 243, 243, 243, 243,
    243, 243, 243, 243, 244, 244, 244, 244,
    244, 244, 244, 244, 102, 102, 102, 102,
    102, 245, 245, 245, 245, 245, 245, 245,
    246, 246, 246, 246, 246, 246, 246, 246,
    246, 246, 247, 247, 247, 247, 247, 247,
    247, 247, 247, 247, 248, 248, 248, 248,
    248, 248, 248, 248, 145, 145, 145, 145,
    145, 249, 249, 249, 249, 249, 249, 249,
    250, 250, 250, 250, 250, 250, 250, 250,
    250, 250, 251, 251, 251, 251, 251, 251,
    251, 251, 251, 251, 252, 252, 252, 252,
    252, 252, 252, 252, 188, 188, 188, 188,
    188, 253, 253, 253, 253, 253, 253, 253,
    254, 254, 254, 254, 254, 254, 254, 254,
    254, 254, 255, 255, 255, 255, 255, 255,
    255, 255, 255, 255, 255, 255, 255, 231,
    231, 231, 231, 231, 231, 231, 231, 231,
];

impl Rgb {
    /// Create a new RGB color from its components.
    pub fn new(r: u8, g: u8, b: u8) -> (rgb: Self)
        ensures
            rgb == (Rgb { r, g, b }),
    {
        Self { r, g, b }
    }

    /// All three components are the same.
    pub open spec fn spec_is_grey(self) -> bool {
        self.r == self.g && self.g == self.b
    }

    #[verifier::when_used_as_spec(spec_is_grey)]
    pub fn is_grey(self) -> (grey: bool)
        ensures
            grey == self.spec_is_grey(),
    {
        self.r == self.g && self.g == self.b
    }

    /// Perceptual distance between two colors: a squared difference per
    /// channel, where red weighs more and blue less the more red the two
    /// colors hold together.
    ///
    /// The value only ranks candidates against each other; it has no unit.
    pub open spec fn distance(self, other: Rgb) -> int {
        let r_sum = self.r + other.r;
        let dr = self.r - other.r;
        let dg = self.g - other.g;
        let db = self.b - other.b;
        (1024 + r_sum) * (dr * dr) + 2048 * (dg * dg) + (1534 - r_sum) * (db * db)
    }

    /// Tentatively perceptual distance between two RGB colors, see
    /// [`Rgb::distance`]
    /// (a formula found at <https://www.compuphase.com/cmetric.htm>,
    /// without its square root).
    pub fn distance_to(self, other: Rgb) -> (d: u32)
        ensures
            d == self.distance(other),
    {
        let r_sum: u32 = self.r as u32 + other.r as u32;
        let dr: u32 = channel_gap(self.r, other.r);
        let dg: u32 = channel_gap(self.g, other.g);
        let db: u32 = channel_gap(self.b, other.b);
        proof {
            lemma_square_of_gap(self.r as int, other.r as int);
            lemma_square_of_gap(self.g as int, other.g as int);
            lemma_square_of_gap(self.b as int, other.b as int);
            lemma_weighted_square_at_most(1024 + r_sum as int, dr as int * dr as int);
            lemma_weighted_square_at_most(1534 - r_sum as int, db as int * db as int);
        }
        (1024 + r_sum) * (dr * dr) + 2048 * (dg * dg) + (1534 - r_sum) * (db * db)
    }

    /// Distance from `self` to the palette color of `code`.
    pub open spec fn distance_to_code(self, code: u8) -> int {
        self.distance(AnsiColor { code }.to_rgb())
    }

    /// `code` is the nearest to `self` among the codes from `min` to `max`,
    /// both included: no code there is nearer, and no lower code there is as
    /// near. Where `max` is below `min`, `min` alone is looked at.
    pub open spec fn is_nearest_in_range(self, min: u8, max: u8, code: u8) -> bool {
        &&& min <= code
        &&& code <= max || code == min
        &&& forall|c: u8|
            min <= c <= max ==> self.distance_to_code(code) <= #[trigger] self.distance_to_code(c)
        &&& forall|c: u8|
            min <= c < code ==> self.distance_to_code(code) < #[trigger] self.distance_to_code(c)
    }

    /// The one code that is nearest to `self` among those from `min` to `max`.
    pub open spec fn spec_nearest_ansi_in_range(self, min: u8, max: u8) -> AnsiColor {
        AnsiColor { code: choose|code: u8| self.is_nearest_in_range(min, max, code) }
    }

    /// Every range has its nearest code, and
    /// [`Rgb::nearest_ansi_in_range`] names it.
    pub proof fn lemma_nearest_exists(self, min: u8, max: u8)
        ensures
            self.is_nearest_in_range(min, max, self.nearest_ansi_in_range(min, max).code),
        decreases max - min,
    {
        if max <= min {
            assert(self.is_nearest_in_range(min, max, min));
        } else {
            let before: u8 = (max - 1) as u8;
            self.lemma_nearest_exists(min, before);
            let found: u8 = self.nearest_ansi_in_range(min, before).code;
            if self.distance_to_code(max) < self.distance_to_code(found) {
                assert(self.is_nearest_in_range(min, max, max));
            } else {
                assert(self.is_nearest_in_range(min, max, found));
            }
        }
    }

    /// At most one code is the nearest in a range.
    pub proof fn lemma_nearest_is_unique(self, min: u8, max: u8, c1: u8, c2: u8)
        requires
            self.is_nearest_in_range(min, max, c1),
            self.is_nearest_in_range(min, max, c2),
        ensures
            c1 == c2,
    {
        if c1 < c2 {
            assert(self.distance_to_code(c2) < self.distance_to_code(c1));
            assert(self.distance_to_code(c1) <= self.distance_to_code(c2));
        } else if c2 < c1 {
            assert(self.distance_to_code(c1) < self.distance_to_code(c2));
            assert(self.distance_to_code(c2) <= self.distance_to_code(c1));
        }
    }

    /// Searches the codes from `min` to `max`, both included, for the one
    /// whose palette color is nearest to `self`. Of several at the same
    /// distance the lowest code wins. Where `max` is below `min`, the answer
    /// is `min`.
    #[verifier::when_used_as_spec(spec_nearest_ansi_in_range)]
    pub fn nearest_ansi_in_range(self, min: u8, max: u8) -> (best: AnsiColor)
        ensures
            self.is_nearest_in_range(min, max, best.code),
            best == self.spec_nearest_ansi_in_range(min, max),
    {
        let mut best = AnsiColor { code: min };
        let mut smallest_distance: u32 = self.distance_to(best.to_rgb());
        let mut code: u8 = min;
        while code < max
            invariant
                min <= code,
                code <= max || code == min,
                self.is_nearest_in_range(min, code, best.code),
                smallest_distance == self.distance_to_code(best.code),
            decreases max - code,
        {
            code += 1;
            let color = AnsiColor { code };
            let distance: u32 = self.distance_to(color.to_rgb());
            if distance < smallest_distance {
                best = color;
                smallest_distance = distance;
            }
        }
        proof {
            self.lemma_nearest_is_unique(
                min,
                max,
                best.code,
                self.spec_nearest_ansi_in_range(min, max).code,
            );
        }
        best
    }

    /// The codes that [`Rgb::to_ansi`] searches for a color that is not grey:
    /// the plane of the color cube picked by the red component, without the
    /// grey on it where that is black or white.
    pub open spec fn cube_slice(r: u8) -> (u8, u8) {
        if r < 41 {
            (17, 51)
        } else if r < 108 {
            (52, 87)
        } else if r < 151 {
            (88, 123)
        } else if r < 195 {
            (124, 159)
        } else if r < 235 {
            (160, 195)
        } else {
            (196, 230)
        }
    }

    /// The red level of the plane of the color cube that holds the codes of
    /// [`Rgb::cube_slice`].
    pub open spec fn plane_level(r: u8) -> u8 {
        if r < 41 {
            0
        } else if r < 108 {
            95
        } else if r < 151 {
            135
        } else if r < 195 {
            175
        } else if r < 235 {
            215
        } else {
            255
        }
    }

    /// The code that stands for `self` in the palette.
    pub open spec fn spec_to_ansi(self) -> AnsiColor {
        if self.is_grey() {
            AnsiColor { code: GREY_TO_ANSI[self.r as int] }
        } else {
            let (min, max) = Self::cube_slice(self.r);
            self.nearest_ansi_in_range(min, max)
        }
    }

    /// Return the nearest ANSI color.
    ///
    /// A grey is looked up in [`GREY_TO_ANSI`]. Any other color is searched
    /// for in the plane of the color cube that its red component picks.
    ///
    /// The ansi->rgb->ansi round trip is guaranteed to
    /// always fall on the first color, for the codes from 16 on.
    #[verifier::when_used_as_spec(spec_to_ansi)]
    pub fn to_ansi(self) -> (ansi: AnsiColor)
        ensures
            ansi == self.spec_to_ansi(),
            self.is_grey() ==> ansi.code == GREY_TO_ANSI[self.r as int],
            !self.is_grey() ==> self.is_nearest_in_range(
                Self::cube_slice(self.r).0,
                Self::cube_slice(self.r).1,
                ansi.code,
            ),
    {
        if self.r == self.g && self.g == self.b {
            AnsiColor { code: GREY_TO_ANSI[self.r as usize] }
        } else if self.r < 108 {
            if self.r < 41 {
                self.nearest_ansi_in_range(17, 51)
            } else {
                self.nearest_ansi_in_range(52, 87)
            }
        } else if self.r < 195 {
            if self.r < 151 {
                self.nearest_ansi_in_range(88, 123)
            } else {
                self.nearest_ansi_in_range(124, 159)
            }
        } else {
            if self.r < 235 {
                self.nearest_ansi_in_range(160, 195)
            } else {
                self.nearest_ansi_in_range(196, 230)
            }
        }
    }
}

/// The distance between two colors is never negative, and it is zero exactly
/// when the two are the same color.
pub proof fn distance_is_zero_iff_same(a: Rgb, b: Rgb)
    ensures
        a.distance(b) >= 0,
        a.distance(b) == 0 <==> a == b,
{
    let r_sum = a.r + b.r;
    lemma_weighted_square_sign(1024 + r_sum, a.r - b.r);
    lemma_weighted_square_sign(2048, a.g - b.g);
    lemma_weighted_square_sign(1534 - r_sum, a.b - b.b);
}

/// The distance from `a` to `b` is the distance from `b` to `a`.
pub proof fn distance_is_symmetric(a: Rgb, b: Rgb)
    ensures
        a.distance(b) == b.distance(a),
{
    lemma_square_of_gap(a.r as int, b.r as int);
    lemma_square_of_gap(a.g as int, b.g as int);
    lemma_square_of_gap(a.b as int, b.b as int);
    lemma_square_of_gap(b.r as int, a.r as int);
    lemma_square_of_gap(b.g as int, a.g as int);
    lemma_square_of_gap(b.b as int, a.b as int);
}

/// No two colors are farther apart than black and white.
pub proof fn distance_is_bounded(a: Rgb, b: Rgb)
    ensures
        a.distance(b) <= 299_505_150,
        (Rgb { r: 0, g: 0, b: 0 }).distance(Rgb { r: 255, g: 255, b: 255 }) == 299_505_150,
{
    let r_sum = a.r + b.r;
    lemma_square_of_gap(a.r as int, b.r as int);
    lemma_square_of_gap(a.g as int, b.g as int);
    lemma_square_of_gap(a.b as int, b.b as int);
    lemma_weighted_square_at_most(1024 + r_sum, (a.r - b.r) * (a.r - b.r));
    lemma_weighted_square_at_most(2048, (a.g - b.g) * (a.g - b.g));
    lemma_weighted_square_at_most(1534 - r_sum, (a.b - b.b) * (a.b - b.b));
    let black = Rgb { r: 0, g: 0, b: 0 };
    let white = Rgb { r: 255, g: 255, b: 255 };
    let d = black.r - white.r;
    assert(d * d == 65025) by (nonlinear_arith)
        requires
            d == -255,
    ;
    assert(black.distance(white) == 1279 * 65025 + 2048 * 65025 + 1279 * 65025);
}

/// How far apart two channel values are.
pub open spec fn gap(x: int, y: int) -> int {
    if x >= y {
        x - y
    } else {
        y - x
    }
}

fn channel_gap(x: u8, y: u8) -> (d: u32)
    ensures
        d == gap(x as int, y as int),
{
    if x >= y {
        (x - y) as u32
    } else {
        (y - x) as u32
    }
}

/// The square of a difference of two bytes is the square of their gap, and
/// at most 255 squared.
proof fn lemma_square_of_gap(x: int, y: int)
    by (nonlinear_arith)
    requires
        0 <= x <= 255,
        0 <= y <= 255,
    ensures
        (x - y) * (x - y) == gap(x, y) * gap(x, y),
        0 <= gap(x, y) * gap(x, y) <= 65025,
{
}

/// Under a positive weight a square is positive, but for the square of zero.
proof fn lemma_weighted_square_sign(w: int, d: int)
    by (nonlinear_arith)
    requires
        w > 0,
    ensures
        w * (d * d) >= 0,
        w * (d * d) == 0 <==> d == 0,
{
}

/// A weight times a square of a byte's range is at most the weight times 255
/// squared.
proof fn lemma_weighted_square_at_most(w: int, sq: int)
    by (nonlinear_arith)
    requires
        0 <= w,
        0 <= sq <= 65025,
    ensures
        0 <= w * sq <= w * 65025,
{
}

} // verus!
