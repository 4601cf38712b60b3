//! A colour that cycles as its phase grows.

use vstd::prelude::*;

verus! {

/// Bit pattern of full opacity: the single `1.0`.
pub const OPAQUE: u32 = 0x3F80_0000;

/// A colour by its four channels, each the bit pattern of a single.
///
/// Two colours are equal when their bit patterns are.
#[derive(Clone, Copy, Debug, PartialEq, Eq, Structural)]
pub struct Rgba {
    pub red: u32,
    pub green: u32,
    pub blue: u32,
    pub alpha: u32,
}

/// The phase of the cycle: it starts at zero and is moved on once for every
/// colour that is handed out.
///
/// The cycle has no end: a colour can always be handed out.
pub struct RainbowIterator {
    x: u32,
}

impl View for RainbowIterator {
    /// Bit pattern of the phase.
    type V = u32;

    closed spec fn view(&self) -> u32 {
        self.x
    }
}

impl RainbowIterator {
    /// A cycle at phase positive zero.
    pub fn new() -> (r: RainbowIterator)
        ensures
            r@ == 0,
    {
        RainbowIterator { x: 0 }
    }

    /// Bit pattern of the phase.
    pub fn phase(&self) -> (p: u32)
        ensures
            p == self@,
    {
        self.x
    }

    /// Moves the cycle on to `phase` and hands out the colour of the three
    /// channels given, fully opaque.
    ///
    /// `phase` and the channels are for the caller to compute: the phase one
    /// increment past the present one, and the three waves at that phase.
    pub fn emit(&mut self, phase: u32, red: u32, green: u32, blue: u32) -> (c: Rgba)
        ensures
            final(self)@ == phase,
            c == (Rgba { red, green, blue, alpha: OPAQUE }),
    {
        self.x = phase;
        Rgba { red, green, blue, alpha: OPAQUE }
    }
}

} // verus!
