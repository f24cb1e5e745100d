//! The configuration that rendering reads: the color support of the
//! terminal and whether unsupported colors are converted.
//!
//! Both are packed into one byte, so that a program can keep the whole
//! configuration in a single atomic cell: the support in the two highest
//! bits, the conversion flag in the bit below them. The five low bits are
//! not used and are kept as they are.
use crate::color_support::{env_is_true, env_support, ColorSupport};
use crate::text::opt_chars;
use vstd::prelude::*;
use vstd::std_specs::convert::FromSpecImpl;

verus! {

/// The configuration of a program that has set nothing: no color support,
/// and unsupported colors are converted.
pub const DEFAULT_CONFIG: u8 = 0b00_1_00000;

const SUPPORT_SHIFT: u8 = 6;

const SUPPORT_MASK: u8 = 0b11_000000;

const FALLBACK_SHIFT: u8 = 5;

const FALLBACK_MASK: u8 = 0b00_1_00000;

impl ColorSupport {
    /// The support as it is stored: its rank in the two highest bits.
    pub open spec fn spec_as_config(&self) -> u8 {
        (self.rank() * 64) as u8
    }

    /// The support that a configuration byte holds in its two highest bits.
    pub open spec fn spec_from_config(config: u8) -> Self {
        if config / 64 == 0 {
            ColorSupport::NoColor
        } else if config / 64 == 1 {
            ColorSupport::Simple
        } else if config / 64 == 2 {
            ColorSupport::EightBit
        } else {
            ColorSupport::True
        }
    }

    /// The configuration byte with its two highest bits replaced by this
    /// support.
    pub open spec fn spec_set_config(&self, config: u8) -> u8 {
        (config % 64 + self.rank() * 64) as u8
    }

    /// The support as it is stored.
    pub fn as_config(&self) -> (bits: u8)
        ensures
            bits == self.spec_as_config(),
    {
        let value: u8 = match self {
            ColorSupport::NoColor => 0b00,
            ColorSupport::Simple => 0b01,
            ColorSupport::EightBit => 0b10,
            ColorSupport::True => 0b11,
        };
        assert(value << 6 == value * 64) by (bit_vector)
            requires
                value < 4,
        ;
        value << SUPPORT_SHIFT
    }

    /// Reads the support from a configuration byte.
    pub fn from_config(config: u8) -> (support: Self)
        ensures
            support == Self::spec_from_config(config),
    {
        assert((config & 0b11_000000) >> 6 == config / 64) by (bit_vector);
        match (config & SUPPORT_MASK) >> SUPPORT_SHIFT {
            0b00 => ColorSupport::NoColor,
            0b01 => ColorSupport::Simple,
            0b10 => ColorSupport::EightBit,
            _ => ColorSupport::True,
        }
    }

    /// Writes the support into a configuration byte.
    pub fn set_config(&self, config: u8) -> (updated: u8)
        ensures
            updated == self.spec_set_config(config),
    {
        let bits = self.as_config();
        assert((config & 0b00_111111) | bits == config % 64 + bits) by (bit_vector)
            requires
                bits == 0 || bits == 64 || bits == 128 || bits == 192,
        ;
        let config = config & !SUPPORT_MASK;
        assert(!0b11_000000u8 == 0b00_111111u8) by (bit_vector);
        config | bits
    }
}

/// Should this crate attempt to fall back to simpler colors when the used
/// colors aren't supported?
#[derive(Debug, PartialEq, Eq, Structural, Copy, Clone)]
pub enum Fallback {
    /// Fall back to simpler colors.
    Yes,
    /// Don't show unsupported colors.
    No,
}

impl Fallback {
    /// The flag as it is stored: one bit, the third from the top.
    pub open spec fn spec_as_config(&self) -> u8 {
        match self {
            Fallback::Yes => 32,
            Fallback::No => 0,
        }
    }

    /// The flag that a configuration byte holds.
    pub open spec fn spec_from_config(config: u8) -> Self {
        if (config / 32) % 2 == 1 {
            Fallback::Yes
        } else {
            Fallback::No
        }
    }

    /// The configuration byte with its flag replaced by this one.
    pub open spec fn spec_set_config(&self, config: u8) -> u8 {
        (config / 64 * 64 + config % 32 + self.spec_as_config()) as u8
    }

    /// The flag as it is stored.
    pub fn as_config(&self) -> (bits: u8)
        ensures
            bits == self.spec_as_config(),
    {
        let value: u8 = match self {
            Fallback::Yes => 1,
            Fallback::No => 0,
        };
        assert(value << 5 == value * 32) by (bit_vector)
            requires
                value < 2,
        ;
        value << FALLBACK_SHIFT
    }

    /// Reads the flag from a configuration byte.
    pub fn from_config(config: u8) -> (fallback: Self)
        ensures
            fallback == Self::spec_from_config(config),
    {
        assert((config & 0b00_1_00000) >> 5 == (config / 32) % 2) by (bit_vector);
        match (config & FALLBACK_MASK) >> FALLBACK_SHIFT {
            0 => Fallback::No,
            _ => Fallback::Yes,
        }
    }

    /// Writes the flag into a configuration byte.
    pub fn set_config(&self, config: u8) -> (updated: u8)
        ensures
            updated == self.spec_set_config(config),
    {
        let bits = self.as_config();
        assert((config & 0b11_0_11111) | bits == config / 64 * 64 + config % 32 + bits)
            by (bit_vector)
            requires
                bits == 0 || bits == 32,
        ;
        assert(!0b00_1_00000u8 == 0b11_0_11111u8) by (bit_vector);
        let config = config & !FALLBACK_MASK;
        config | bits
    }
}

impl From<bool> for Fallback {
    #[inline]
    fn from(value: bool) -> (fallback: Self) {
        if value {
            Fallback::Yes
        } else {
            Fallback::No
        }
    }
}

impl FromSpecImpl<bool> for Fallback {
    open spec fn obeys_from_spec() -> bool {
        true
    }

    open spec fn from_spec(value: bool) -> Self {
        if value {
            Fallback::Yes
        } else {
            Fallback::No
        }
    }
}

impl From<Fallback> for bool {
    #[inline]
    fn from(value: Fallback) -> (yes: Self) {
        match value {
            Fallback::Yes => true,
            Fallback::No => false,
        }
    }
}

impl FromSpecImpl<Fallback> for bool {
    open spec fn obeys_from_spec() -> bool {
        true
    }

    open spec fn from_spec(value: Fallback) -> Self {
        value == Fallback::Yes
    }
}

/// The configuration of a program, as one packed byte.
#[derive(Debug)]
pub struct Config {
    bits: u8,
}

impl View for Config {
    type V = u8;

    /// The packed byte.
    closed spec fn view(&self) -> u8 {
        self.bits
    }
}

impl Config {
    /// The color support that the configuration holds.
    pub open spec fn support(&self) -> ColorSupport {
        ColorSupport::spec_from_config(self@)
    }

    /// Whether the configuration asks for unsupported colors to be
    /// converted.
    pub open spec fn fallback(&self) -> bool {
        Fallback::spec_from_config(self@) == Fallback::Yes
    }

    /// The configuration that a program starts with: no color support, and
    /// unsupported colors are converted.
    pub fn new() -> (config: Self)
        ensures
            config@ == DEFAULT_CONFIG,
            config.support() == ColorSupport::NoColor,
            config.fallback(),
    {
        Config { bits: DEFAULT_CONFIG }
    }
}

impl Default for Config {
    fn default() -> (config: Self)
        ensures
            config@ == DEFAULT_CONFIG,
    {
        Config::new()
    }
}

/// The support that the environment asks for: what `COLORTERM` and `TERM`
/// say, unless `NO_COLOR` forbids color.
pub open spec fn default_support(
    colorterm: Option<Seq<char>>,
    term: Option<Seq<char>>,
    no_color: Option<Seq<char>>,
) -> ColorSupport {
    if env_is_true(no_color) {
        ColorSupport::NoColor
    } else {
        env_support(colorterm, term)
    }
}

/// Stores the raw config.
pub fn store_config(config: &mut Config, value: u8)
    ensures
        final(config)@ == value,
{
    config.bits = value;
}

/// Gets the config value.
pub fn get_config(config: &Config) -> (value: u8)
    ensures
        value == config@,
{
    config.bits
}

/// Sets the color support configuration. The conversion flag and the unused
/// bits stay as they are.
pub fn use_color_support(config: &mut Config, support: ColorSupport)
    ensures
        final(config)@ == support.spec_set_config(old(config)@),
        final(config).support() == support,
        final(config).fallback() == old(config).fallback(),
{
    let bits = get_config(config);
    let bits = support.set_config(bits);
    store_config(config, bits);
}

/// Gets the currently set color support configuration.
pub fn get_color_support(config: &Config) -> (support: ColorSupport)
    ensures
        support == config.support(),
{
    let bits = get_config(config);
    ColorSupport::from_config(bits)
}

/// Uses a reasonable default for color support: what the environment
/// variables `COLORTERM` and `TERM` say, with respect for `NO_COLOR`. Each
/// argument is the value of its variable, `None` where it is not set.
pub fn use_default_color_support(
    config: &mut Config,
    colorterm: Option<&str>,
    term: Option<&str>,
    no_color: Option<&str>,
)
    ensures
        final(config)@ == default_support(
            opt_chars(colorterm),
            opt_chars(term),
            opt_chars(no_color),
        ).spec_set_config(old(config)@),
        final(config).support() == default_support(
            opt_chars(colorterm),
            opt_chars(term),
            opt_chars(no_color),
        ),
        final(config).fallback() == old(config).fallback(),
{
    let support = ColorSupport::from_env(colorterm, term).respect_no_color(no_color);
    use_color_support(config, support);
}

/// Returns if colors are converted to a supported color value where the
/// terminal does not support them.
pub fn get_convert_to_supported(config: &Config) -> (should_convert: bool)
    ensures
        should_convert == config.fallback(),
{
    let bits = get_config(config);
    Fallback::from_config(bits).into()
}

/// Controls if colors are converted to supported color values where the
/// terminal does not support them. The color support and the unused bits
/// stay as they are.
pub fn convert_to_supported(config: &mut Config, should_convert: bool)
    ensures
        final(config)@ == (if should_convert {
            Fallback::Yes
        } else {
            Fallback::No
        }).spec_set_config(old(config)@),
        final(config).fallback() == should_convert,
        final(config).support() == old(config).support(),
{
    let bits = get_config(config);
    let bits = Fallback::from(should_convert).set_config(bits);
    store_config(config, bits);
}

} // verus!
