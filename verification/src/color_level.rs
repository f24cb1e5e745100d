use crate::color_support::ColorSupport;
use vstd::prelude::*;
use vstd::std_specs::convert::FromSpecImpl;

verus! {

/// The color level that a color or a style needs in order to be shown.
#[derive(Debug, PartialEq, Eq, Structural, Copy, Clone)]
pub enum ColorLevel {
    /// 8 or 16 bit color codes (3- or 4-bit).
    Simple,
    /// 256 color support.
    EightBit,
    /// True color support (24-bit).
    True,
}

impl ColorLevel {
    /// Position on the scale `Simple < EightBit < True`, counted from 1 so
    /// that it lines up with [`ColorSupport::rank`].
    pub open spec fn rank(self) -> int {
        match self {
            ColorLevel::Simple => 1,
            ColorLevel::EightBit => 2,
            ColorLevel::True => 3,
        }
    }
}

impl From<ColorSupport> for Option<ColorLevel> {
    /// The level that a detected support stands for; no support is no level.
    #[inline]
    fn from(value: ColorSupport) -> (level: Self) {
        match value {
            ColorSupport::NoColor => None,
            ColorSupport::Simple => Some(ColorLevel::Simple),
            ColorSupport::EightBit => Some(ColorLevel::EightBit),
            ColorSupport::True => Some(ColorLevel::True),
        }
    }
}

impl FromSpecImpl<ColorSupport> for Option<ColorLevel> {
    open spec fn obeys_from_spec() -> bool {
        true
    }

    open spec fn from_spec(value: ColorSupport) -> Self {
        match value {
            ColorSupport::NoColor => None,
            ColorSupport::Simple => Some(ColorLevel::Simple),
            ColorSupport::EightBit => Some(ColorLevel::EightBit),
            ColorSupport::True => Some(ColorLevel::True),
        }
    }
}

} // verus!
