//! Pixels: a colour and an opacity.

use vstd::prelude::*;

verus! {

/// The alpha value of a fully opaque pixel.
pub const OPAQUE: u8 = 255;

/// One image pixel: red, green, blue and opacity, eight bits each.
#[derive(Clone, Copy, Debug, PartialEq, Eq, Structural)]
pub struct Pixel {
    pub red: u8,
    pub green: u8,
    pub blue: u8,
    pub alpha: u8,
}

impl Pixel {
    /// The pixel that shows nothing: no colour and no opacity.
    pub open spec fn spec_transparent() -> Pixel {
        Pixel { red: 0, green: 0, blue: 0, alpha: 0 }
    }

    /// The pixel with the same colour and full opacity.
    pub open spec fn spec_opaque(self) -> Pixel {
        Pixel { red: self.red, green: self.green, blue: self.blue, alpha: OPAQUE }
    }

    /// The pixel that shows nothing: no colour and no opacity.
    pub fn transparent() -> (pixel: Pixel)
        ensures
            pixel == Pixel::spec_transparent(),
    {
        Pixel { red: 0, green: 0, blue: 0, alpha: 0 }
    }

    /// The pixel with the same colour and full opacity.
    pub fn opaque(&self) -> (pixel: Pixel)
        ensures
            pixel == self.spec_opaque(),
    {
        Pixel { red: self.red, green: self.green, blue: self.blue, alpha: OPAQUE }
    }
}

} // verus!
