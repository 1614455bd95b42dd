use vstd::prelude::*;

use crate::order::{binary32_le, binary32_lt, le32, lt32, nan32};

verus! {

/// Pattern of binary32 `1.0`.
pub const ONE32: u32 = 0x3f80_0000;

/// Pattern of binary32 `+0.0`.
pub const ZERO32: u32 = 0;

/// A linear RGB colour. Each channel holds the IEEE-754 binary32 pattern of
/// its intensity; channels may leave `[0, 1]` while light is accumulated and
/// are clamped before display.
#[derive(Clone, Copy, Debug, PartialEq, Eq, Structural)]
pub struct Color {
    pub red: u32,
    pub green: u32,
    pub blue: u32,
}

/// One channel clipped to `[0, 1]`: above one gives one, below zero gives zero.
pub open spec fn clamp_channel(c: u32) -> u32 {
    if lt32(ONE32, c) {
        ONE32
    } else if lt32(c, ZERO32) {
        ZERO32
    } else {
        c
    }
}

/// Whether a channel encodes a number of `[0, 1]`.
pub open spec fn in_unit(c: u32) -> bool {
    le32(ZERO32, c) && le32(c, ONE32)
}

fn clamp_one(c: u32) -> (r: u32)
    ensures
        r == clamp_channel(c),
{
    if binary32_lt(ONE32, c) {
        ONE32
    } else if binary32_lt(c, ZERO32) {
        ZERO32
    } else {
        c
    }
}

impl Color {
    /// The colour with each channel clipped to `[0, 1]`.
    pub open spec fn clamped(self) -> Color {
        Color {
            red: clamp_channel(self.red),
            green: clamp_channel(self.green),
            blue: clamp_channel(self.blue),
        }
    }

    /// Whether every channel encodes a number of `[0, 1]`.
    pub open spec fn in_unit_range(self) -> bool {
        in_unit(self.red) && in_unit(self.green) && in_unit(self.blue)
    }

    /// Whether some channel encodes a NaN.
    pub open spec fn has_nan(self) -> bool {
        nan32(self.red) || nan32(self.green) || nan32(self.blue)
    }

    /// Whether every channel encodes a number of `[0, 1]`, as a colour must
    /// before it is turned into display bytes.
    pub fn in_display_range(&self) -> (r: bool)
        ensures
            r == self.in_unit_range(),
    {
        binary32_le(ZERO32, self.red) && binary32_le(self.red, ONE32) && binary32_le(ZERO32, self.green)
            && binary32_le(self.green, ONE32) && binary32_le(ZERO32, self.blue) && binary32_le(self.blue, ONE32)
    }

    /// Clips each channel to `[0, 1]` in place, independently of the others.
    pub fn clamp(&mut self)
        ensures
            *final(self) == old(self).clamped(),
    {
        self.red = clamp_one(self.red);
        self.green = clamp_one(self.green);
        self.blue = clamp_one(self.blue);
    }
}

proof fn lemma_clamp_channel(c: u32)
    ensures
        clamp_channel(clamp_channel(c)) == clamp_channel(c),
        !nan32(c) ==> in_unit(clamp_channel(c)),
        in_unit(c) ==> clamp_channel(c) == c,
{
}

/// Clamping twice is clamping once, and a colour without NaN channels comes
/// out of a clamp with every channel in `[0, 1]`.
pub proof fn lemma_clamp_idempotent(c: Color)
    ensures
        c.clamped().clamped() == c.clamped(),
        !c.has_nan() ==> c.clamped().in_unit_range(),
{
    lemma_clamp_channel(c.red);
    lemma_clamp_channel(c.green);
    lemma_clamp_channel(c.blue);
}

/// A colour already within `[0, 1]` is left exactly as it is by a clamp.
pub proof fn lemma_clamp_keeps_unit_colors(c: Color)
    requires
        c.in_unit_range(),
    ensures
        c.clamped() == c,
{
    lemma_clamp_channel(c.red);
    lemma_clamp_channel(c.green);
    lemma_clamp_channel(c.blue);
}

} // verus!
