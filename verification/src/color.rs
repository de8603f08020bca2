//! Colours with channels counted in tenths of full intensity.

use vstd::prelude::*;

verus! {

/// The value of a channel at full intensity.
pub const FULL: u8 = 10;

/// An opaque sRGB colour. Each channel is a number of tenths, so `3` stands
/// for an intensity of 0.3 and [`FULL`] for 1.0.
#[derive(Clone, Copy, Debug, PartialEq, Eq, Structural)]
pub struct Rgb {
    pub red: u8,
    pub green: u8,
    pub blue: u8,
}

impl Rgb {
    /// No channel exceeds full intensity.
    pub open spec fn wf(self) -> bool {
        &&& self.red <= FULL
        &&& self.green <= FULL
        &&& self.blue <= FULL
    }

    /// The gray whose three channels all equal `level`.
    pub open spec fn spec_gray(level: u8) -> Rgb {
        Rgb { red: level, green: level, blue: level }
    }

    /// The gray whose three channels all equal `level`: black at `0`, white
    /// at [`FULL`].
    #[verifier::when_used_as_spec(spec_gray)]
    pub fn gray(level: u8) -> (color: Rgb)
        ensures
            color == Rgb::spec_gray(level),
            level <= FULL ==> color.wf(),
    {
        Rgb { red: level, green: level, blue: level }
    }
}

} // verus!
