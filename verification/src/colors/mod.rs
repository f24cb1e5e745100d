//! Collection of color types.
use crate::color::Color;
use crate::color_level::ColorLevel;
use crate::conversion::{ToEightBit, ToSimple};
pub use eight_bit::{cube_intensity, cube_rgb, grayscale_rgb, palette_rgb, EightBit};
pub use simple::Simple;
pub use true_color::{
    cube_index, cube_step, full_color_to_cube, hex_digit_value, hex_digits,
    lemma_cube_index_of_full_channels, lemma_cube_round_trip, lemma_cube_step_of_intensity,
    long_channel, parse_hex, parse_hex_long, parse_hex_short, short_channel, ParseError, True,
};
use vstd::prelude::*;
use vstd::std_specs::convert::FromSpecImpl;

mod eight_bit;
pub mod simple;
mod true_color;

verus! {

/// Unifies all color types.
#[derive(Debug, PartialEq, Eq, Structural, Copy, Clone)]
pub enum Colors {
    Simple(Simple),
    EightBit(EightBit),
    True(True),
}

impl Colors {
    /// A true color from its channels.
    pub fn new_true_color(r: u8, g: u8, b: u8) -> (color: Self)
        ensures
            color == Colors::True(True { r, g, b }),
    {
        Colors::True(True::from_rgb(r, g, b))
    }

    /// An eight-bit color from its index in the palette.
    pub fn new_eight_bit(lookup: u8) -> (color: Self)
        ensures
            color == Colors::EightBit(EightBit(lookup)),
    {
        Colors::EightBit(EightBit::from(lookup))
    }

    pub fn new_black() -> (color: Self)
        ensures
            color == Colors::Simple(Simple::Black),
    {
        Colors::Simple(Simple::Black)
    }

    pub fn new_red() -> (color: Self)
        ensures
            color == Colors::Simple(Simple::Red),
    {
        Colors::Simple(Simple::Red)
    }

    pub fn new_green() -> (color: Self)
        ensures
            color == Colors::Simple(Simple::Green),
    {
        Colors::Simple(Simple::Green)
    }

    pub fn new_blue() -> (color: Self)
        ensures
            color == Colors::Simple(Simple::Blue),
    {
        Colors::Simple(Simple::Blue)
    }

    pub fn new_yellow() -> (color: Self)
        ensures
            color == Colors::Simple(Simple::Yellow),
    {
        Colors::Simple(Simple::Yellow)
    }

    pub fn new_cyan() -> (color: Self)
        ensures
            color == Colors::Simple(Simple::Cyan),
    {
        Colors::Simple(Simple::Cyan)
    }

    pub fn new_magenta() -> (color: Self)
        ensures
            color == Colors::Simple(Simple::Magenta),
    {
        Colors::Simple(Simple::Magenta)
    }

    pub fn new_white() -> (color: Self)
        ensures
            color == Colors::Simple(Simple::White),
    {
        Colors::Simple(Simple::White)
    }

    pub fn new_bright_black() -> (color: Self)
        ensures
            color == Colors::Simple(Simple::BrightBlack),
    {
        Colors::Simple(Simple::BrightBlack)
    }

    pub fn new_bright_red() -> (color: Self)
        ensures
            color == Colors::Simple(Simple::BrightRed),
    {
        Colors::Simple(Simple::BrightRed)
    }

    pub fn new_bright_green() -> (color: Self)
        ensures
            color == Colors::Simple(Simple::BrightGreen),
    {
        Colors::Simple(Simple::BrightGreen)
    }

    pub fn new_bright_blue() -> (color: Self)
        ensures
            color == Colors::Simple(Simple::BrightBlue),
    {
        Colors::Simple(Simple::BrightBlue)
    }

    pub fn new_bright_yellow() -> (color: Self)
        ensures
            color == Colors::Simple(Simple::BrightYellow),
    {
        Colors::Simple(Simple::BrightYellow)
    }

    pub fn new_bright_cyan() -> (color: Self)
        ensures
            color == Colors::Simple(Simple::BrightCyan),
    {
        Colors::Simple(Simple::BrightCyan)
    }

    pub fn new_bright_magenta() -> (color: Self)
        ensures
            color == Colors::Simple(Simple::BrightMagenta),
    {
        Colors::Simple(Simple::BrightMagenta)
    }

    pub fn new_bright_white() -> (color: Self)
        ensures
            color == Colors::Simple(Simple::BrightWhite),
    {
        Colors::Simple(Simple::BrightWhite)
    }

}

impl Color for Colors {
    open spec fn fg_code(&self) -> Seq<char> {
        match self {
            Colors::Simple(c) => c.fg_code(),
            Colors::EightBit(c) => c.fg_code(),
            Colors::True(c) => c.fg_code(),
        }
    }

    open spec fn bg_code(&self) -> Seq<char> {
        match self {
            Colors::Simple(c) => c.bg_code(),
            Colors::EightBit(c) => c.bg_code(),
            Colors::True(c) => c.bg_code(),
        }
    }

    open spec fn spec_level(&self) -> ColorLevel {
        match self {
            Colors::Simple(c) => c.spec_level(),
            Colors::EightBit(c) => c.spec_level(),
            Colors::True(c) => c.spec_level(),
        }
    }

    open spec fn spec_rgb_u8(&self) -> (u8, u8, u8) {
        match self {
            Colors::Simple(c) => c.spec_rgb_u8(),
            Colors::EightBit(c) => c.spec_rgb_u8(),
            Colors::True(c) => c.spec_rgb_u8(),
        }
    }

    fn fmt_fg(&self, f: &mut String) {
        match self {
            Colors::Simple(c) => c.fmt_fg(f),
            Colors::EightBit(c) => c.fmt_fg(f),
            Colors::True(c) => c.fmt_fg(f),
        }
    }

    fn fmt_bg(&self, f: &mut String) {
        match self {
            Colors::Simple(c) => c.fmt_bg(f),
            Colors::EightBit(c) => c.fmt_bg(f),
            Colors::True(c) => c.fmt_bg(f),
        }
    }

    fn level(&self) -> ColorLevel {
        match self {
            Colors::Simple(c) => c.level(),
            Colors::EightBit(c) => c.level(),
            Colors::True(c) => c.level(),
        }
    }

    fn rgb_u8(&self) -> (u8, u8, u8) {
        match self {
            Colors::Simple(c) => c.rgb_u8(),
            Colors::EightBit(c) => c.rgb_u8(),
            Colors::True(c) => c.rgb_u8(),
        }
    }
}

impl From<Simple> for Colors {
    fn from(value: Simple) -> (color: Self) {
        Colors::Simple(value)
    }
}

impl FromSpecImpl<Simple> for Colors {
    open spec fn obeys_from_spec() -> bool {
        true
    }

    open spec fn from_spec(value: Simple) -> Self {
        Colors::Simple(value)
    }
}

impl From<EightBit> for Colors {
    fn from(value: EightBit) -> (color: Self) {
        Colors::EightBit(value)
    }
}

impl FromSpecImpl<EightBit> for Colors {
    open spec fn obeys_from_spec() -> bool {
        true
    }

    open spec fn from_spec(value: EightBit) -> Self {
        Colors::EightBit(value)
    }
}

impl From<True> for Colors {
    fn from(value: True) -> (color: Self) {
        Colors::True(value)
    }
}

impl FromSpecImpl<True> for Colors {
    open spec fn obeys_from_spec() -> bool {
        true
    }

    open spec fn from_spec(value: True) -> Self {
        Colors::True(value)
    }
}

impl ToSimple for Colors {
    open spec fn spec_to_simple(&self) -> Simple {
        match self {
            Colors::Simple(c) => *c,
            Colors::EightBit(c) => c.spec_to_simple(),
            Colors::True(c) => c.spec_to_simple(),
        }
    }

    fn to_simple(&self) -> Simple {
        match self {
            Colors::Simple(c) => *c,
            Colors::EightBit(c) => c.to_simple(),
            Colors::True(c) => c.to_simple(),
        }
    }
}

impl ToEightBit for Colors {
    open spec fn spec_to_eight_bit(&self) -> EightBit {
        match self {
            Colors::Simple(c) => c.spec_to_eight_bit(),
            Colors::EightBit(c) => *c,
            Colors::True(c) => c.spec_to_eight_bit(),
        }
    }

    fn to_eight_bit(&self) -> EightBit {
        match self {
            Colors::Simple(c) => c.to_eight_bit(),
            Colors::EightBit(c) => *c,
            Colors::True(c) => c.to_eight_bit(),
        }
    }
}

} // verus!
