//! Interpretation of marine radar data: Navico report decoding, a
//! polar-to-Cartesian lookup table and range labels for display.
use vstd::prelude::*;

pub mod cartesian;
pub mod navico;
pub mod range_format;
pub mod text;

verus! {

} // verus!
