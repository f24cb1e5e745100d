use crate::color_level::ColorLevel;
use crate::text::{contains, contains_seq, opt_chars, same_text};
use std::cmp::Ordering;
use vstd::prelude::*;
use vstd::std_specs::cmp::{PartialOrdIs, PartialOrdSpecImpl};
use vstd::std_specs::convert::FromSpecImpl;

verus! {

/// Detected color support.
#[derive(Debug, PartialEq, Eq, Structural, Ord, Copy, Clone)]
pub enum ColorSupport {
    /// No color support.
    NoColor,
    /// 8 or 16 bit color codes (3- or 4-bit).
    Simple,
    /// 256 color support.
    EightBit,
    /// True color support (24-bit).
    True,
}

/// What a `TERM` or `COLORTERM` value says about the terminal: `256` stands
/// for 256 colors and is looked for first, `24bit` and `truecolor` stand for
/// true color.
pub open spec fn term_value_support(value: Seq<char>) -> Option<ColorSupport> {
    if contains_seq(value, "256"@) {
        Some(ColorSupport::EightBit)
    } else if contains_seq(value, "24bit"@) {
        Some(ColorSupport::True)
    } else if contains_seq(value, "truecolor"@) {
        Some(ColorSupport::True)
    } else {
        None
    }
}

/// What one environment variable says: an unset variable says nothing.
pub open spec fn term_env_support(value: Option<Seq<char>>) -> Option<ColorSupport> {
    match value {
        Some(v) => term_value_support(v),
        None => None,
    }
}

/// The support detected from the values of `COLORTERM` and `TERM`:
/// `COLORTERM` is asked first, `TERM` only where `COLORTERM` says nothing,
/// and where neither says anything there is no color.
pub open spec fn env_support(
    colorterm: Option<Seq<char>>,
    term: Option<Seq<char>>,
) -> ColorSupport {
    match term_env_support(colorterm) {
        Some(support) => support,
        None => match term_env_support(term) {
            Some(support) => support,
            None => ColorSupport::NoColor,
        },
    }
}

/// Whether the value of a boolean environment variable means "yes": only
/// the exact values `1` and `true` do.
pub open spec fn env_value_is_true(value: Seq<char>) -> bool {
    value == "1"@ || value == "true"@
}

/// Whether a boolean environment variable is set to "yes".
pub open spec fn env_is_true(value: Option<Seq<char>>) -> bool {
    match value {
        Some(v) => env_value_is_true(v),
        None => false,
    }
}

impl ColorSupport {
    /// Position on the scale `NoColor < Simple < EightBit < True`.
    pub open spec fn rank(self) -> int {
        match self {
            ColorSupport::NoColor => 0,
            ColorSupport::Simple => 1,
            ColorSupport::EightBit => 2,
            ColorSupport::True => 3,
        }
    }

    /// Calculates the color support from the values of the environment
    /// variables `COLORTERM` and `TERM`, each `None` where it is not set.
    pub fn from_env(colorterm: Option<&str>, term: Option<&str>) -> (support: Self)
        ensures
            support == env_support(opt_chars(colorterm), opt_chars(term)),
    {
        match Self::from_term_env(colorterm) {
            Some(support) => support,
            None => match Self::from_term_env(term) {
                Some(support) => support,
                None => ColorSupport::NoColor,
            },
        }
    }

    /// Checks if the color level is supported.
    ///
    /// Note that this is *not* the same as a simple equality check.
    pub fn is_supported(&self, level: Self) -> (supported: bool)
        ensures
            supported == (self.rank() >= level.rank()),
            supported == self.is_ge(&level),
    {
        *self >= level
    }

    /// Respects the `NO_COLOR` environment variable, whose value is
    /// `no_color` (`None` where it is not set): where it is set to `1` or
    /// `true` there is no color, whatever was detected.
    pub fn respect_no_color(self, no_color: Option<&str>) -> (support: Self)
        ensures
            support == if env_is_true(opt_chars(no_color)) {
                ColorSupport::NoColor
            } else {
                self
            },
    {
        if env_to_bool(no_color) {
            ColorSupport::NoColor
        } else {
            self
        }
    }

    /// Calculates from the value of one environment variable, which should
    /// be that of `TERM` or `COLORTERM`.
    #[inline]
    pub fn from_term_env(value: Option<&str>) -> (support: Option<Self>)
        ensures
            support == term_env_support(opt_chars(value)),
    {
        match value {
            Some(v) => Self::from_term_value(v),
            None => None,
        }
    }

    /// Calculates from the value of the `TERM` or `COLORTERM` environment
    /// variable.
    pub fn from_term_value(value: &str) -> (support: Option<Self>)
        ensures
            support == term_value_support(value@),
    {
        if contains(value, "256") {
            Some(ColorSupport::EightBit)
        } else if contains(value, "24bit") {
            Some(ColorSupport::True)
        } else if contains(value, "truecolor") {
            Some(ColorSupport::True)
        } else {
            None
        }
    }

    /// The rank as a machine integer.
    fn rank_u8(&self) -> (rank: u8)
        ensures
            rank == self.rank(),
    {
        match self {
            ColorSupport::NoColor => 0,
            ColorSupport::Simple => 1,
            ColorSupport::EightBit => 2,
            ColorSupport::True => 3,
        }
    }
}

impl PartialOrd for ColorSupport {
    /// Orders by rank: `NoColor < Simple < EightBit < True`.
    fn partial_cmp(&self, other: &Self) -> (order: Option<Ordering>) {
        let a = self.rank_u8();
        let b = other.rank_u8();
        if a < b {
            Some(Ordering::Less)
        } else if a == b {
            Some(Ordering::Equal)
        } else {
            Some(Ordering::Greater)
        }
    }
}

impl PartialOrdSpecImpl for ColorSupport {
    open spec fn obeys_partial_cmp_spec() -> bool {
        true
    }

    open spec fn partial_cmp_spec(&self, other: &Self) -> Option<Ordering> {
        if self.rank() < other.rank() {
            Some(Ordering::Less)
        } else if self.rank() == other.rank() {
            Some(Ordering::Equal)
        } else {
            Some(Ordering::Greater)
        }
    }
}

impl From<ColorLevel> for ColorSupport {
    /// The support that is just enough for `value`.
    #[inline]
    fn from(value: ColorLevel) -> (support: Self) {
        match value {
            ColorLevel::Simple => ColorSupport::Simple,
            ColorLevel::EightBit => ColorSupport::EightBit,
            ColorLevel::True => ColorSupport::True,
        }
    }
}

impl FromSpecImpl<ColorLevel> for ColorSupport {
    open spec fn obeys_from_spec() -> bool {
        true
    }

    open spec fn from_spec(value: ColorLevel) -> Self {
        match value {
            ColorLevel::Simple => ColorSupport::Simple,
            ColorLevel::EightBit => ColorSupport::EightBit,
            ColorLevel::True => ColorSupport::True,
        }
    }
}

impl From<Option<ColorLevel>> for ColorSupport {
    /// The support that is just enough for `value`; no level needs no color.
    fn from(value: Option<ColorLevel>) -> (support: Self) {
        match value {
            Some(level) => ColorSupport::from(level),
            None => ColorSupport::NoColor,
        }
    }
}

impl FromSpecImpl<Option<ColorLevel>> for ColorSupport {
    open spec fn obeys_from_spec() -> bool {
        true
    }

    open spec fn from_spec(value: Option<ColorLevel>) -> Self {
        match value {
            Some(ColorLevel::Simple) => ColorSupport::Simple,
            Some(ColorLevel::EightBit) => ColorSupport::EightBit,
            Some(ColorLevel::True) => ColorSupport::True,
            None => ColorSupport::NoColor,
        }
    }
}

/// Reads the value of an environment variable (`None` where it is not set)
/// as a boolean.
#[inline]
pub fn env_to_bool(value: Option<&str>) -> (yes: bool)
    ensures
        yes == env_is_true(opt_chars(value)),
{
    match value {
        Some(v) => env_value_to_bool(v),
        None => false,
    }
}

/// Converts an environment variable value to a boolean.
#[inline]
pub fn env_value_to_bool(value: &str) -> (yes: bool)
    ensures
        yes == env_value_is_true(value@),
{
    same_text(value, "1") || same_text(value, "true")
}

} // verus!
