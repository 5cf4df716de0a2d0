//! ANSI and RGB color types for terminals limited to the 256-color palette,
//! with the conversions between them.
//!
//! An [`AnsiColor`] is an index into the xterm palette; an [`Rgb`] is a byte
//! triple. Going from a code to its color is a palette lookup; going back is a
//! nearest-color search under a perceptual distance.
//!
//! - [`ansi`]: the code type, the palette and what holds of its colors;
//! - [`rgb`]: the triple type, the distance, the search and the table of greys;
//! - [`round_trip`]: a code of the cube or of the grey ramp comes back from
//!   its color;
//! - [`answers`]: where in the palette the answers of `to_ansi` lie;
//! - [`strategies`]: when `to_ansi` and a plain search over all codes agree.
use vstd::prelude::*;

pub mod ansi;
pub mod answers;
pub mod rgb;
pub mod round_trip;
pub mod strategies;

pub use ansi::AnsiColor;
pub use rgb::Rgb;
pub use rgb::GREY_TO_ANSI;

verus! {

} // verus!
