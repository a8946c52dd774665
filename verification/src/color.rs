//! Exact clear-color model.
//!
//! The host's presentation backend takes color channels as floating-point
//! intensities. The engine never needs to do arithmetic on those intensities:
//! every channel it produces is either a fixed default or the ratio of a
//! pointer coordinate to a window dimension. Keeping each channel as an
//! integer ratio makes the contracts exact; the unverified host shell divides
//! numerator by denominator at the last moment.

use vstd::prelude::*;

verus! {

/// One color channel intensity, the exact ratio `num / den`.
///
/// A ratio may lie outside `[0, 1]`; the engine passes pointer ratios through
/// unclamped.
#[derive(Clone, Copy, PartialEq, Eq, Structural, Debug)]
pub struct ChannelRatio {
    pub num: u64,
    pub den: u64,
}

impl ChannelRatio {
    /// A channel is meaningful only with a nonzero denominator.
    pub open spec fn wf(self) -> bool {
        self.den > 0
    }

    pub fn new(num: u64, den: u64) -> (c: ChannelRatio)
        requires
            den > 0,
        ensures
            c == (ChannelRatio { num, den }),
            c.wf(),
    {
        ChannelRatio { num, den }
    }
}

/// The color a render pass clears its target to, one exact ratio per channel.
#[derive(Clone, Copy, PartialEq, Eq, Structural, Debug)]
pub struct ClearColor {
    pub red: ChannelRatio,
    pub green: ChannelRatio,
    pub blue: ChannelRatio,
    pub alpha: ChannelRatio,
}

impl ClearColor {
    pub open spec fn wf(self) -> bool {
        self.red.wf() && self.green.wf() && self.blue.wf() && self.alpha.wf()
    }
}

/// The fixed dark-blue background the engine starts with:
/// red 1/10, green 2/10, blue 3/10, alpha 1.
pub open spec fn spec_default_background() -> ClearColor {
    ClearColor {
        red: ChannelRatio { num: 1, den: 10 },
        green: ChannelRatio { num: 2, den: 10 },
        blue: ChannelRatio { num: 3, den: 10 },
        alpha: ChannelRatio { num: 1, den: 1 },
    }
}

pub fn default_background() -> (c: ClearColor)
    ensures
        c == spec_default_background(),
        c.wf(),
{
    ClearColor {
        red: ChannelRatio { num: 1, den: 10 },
        green: ChannelRatio { num: 2, den: 10 },
        blue: ChannelRatio { num: 3, den: 10 },
        alpha: ChannelRatio { num: 1, den: 1 },
    }
}

} // verus!
