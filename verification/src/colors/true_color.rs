use super::eight_bit::{cube_intensity, cube_rgb};
use super::{EightBit, Simple};
use crate::color::Color;
use crate::color_level::ColorLevel;
use crate::conversion::{ToEightBit, ToSimple};
use crate::text::{decimal, push_decimal};
use vstd::prelude::*;

verus! {

/// A true color value.
#[derive(Debug, PartialEq, Eq, Structural, Copy, Clone)]
pub struct True {
    pub r: u8,
    pub g: u8,
    pub b: u8,
}

/// Why a string is not a hex color.
#[derive(Debug, PartialEq, Eq, Structural, Copy, Clone)]
pub enum ParseError {
    /// After the optional `#` there are neither three nor six characters.
    InvalidLength,
    /// The length is right, but one of the characters is not a hex digit.
    InvalidDigit,
}

/// The value of a hex digit, in either case; `None` for any other character.
pub open spec fn hex_digit_value(c: char) -> Option<u8> {
    if '0' <= c <= '9' {
        Some((c as int - '0' as int) as u8)
    } else if 'a' <= c <= 'f' {
        Some((c as int - 'a' as int + 10) as u8)
    } else if 'A' <= c <= 'F' {
        Some((c as int - 'A' as int + 10) as u8)
    } else {
        None
    }
}

/// A hex color without its optional leading `#`.
pub open spec fn hex_digits(hex: Seq<char>) -> Seq<char> {
    if hex.len() > 0 && hex[0] == '#' {
        hex.subrange(1, hex.len() as int)
    } else {
        hex
    }
}

/// The channel that one digit of the short form stands for: the digit
/// repeated, so that `a` is `0xAA`.
pub open spec fn short_channel(digit: char) -> Option<u8> {
    match hex_digit_value(digit) {
        Some(n) => Some((n * 0x11) as u8),
        None => None,
    }
}

/// The channel that two digits of the long form stand for.
pub open spec fn long_channel(high: char, low: char) -> Option<u8> {
    match (hex_digit_value(high), hex_digit_value(low)) {
        (Some(h), Some(l)) => Some((h * 0x10 + l) as u8),
        _ => None,
    }
}

/// The color that three hex digits stand for.
pub open spec fn parse_hex_short(digits: Seq<char>) -> Result<True, ParseError> {
    match (short_channel(digits[0]), short_channel(digits[1]), short_channel(digits[2])) {
        (Some(r), Some(g), Some(b)) => Ok(True { r, g, b }),
        _ => Err(ParseError::InvalidDigit),
    }
}

/// The color that six hex digits stand for.
pub open spec fn parse_hex_long(digits: Seq<char>) -> Result<True, ParseError> {
    match (
        long_channel(digits[0], digits[1]),
        long_channel(digits[2], digits[3]),
        long_channel(digits[4], digits[5]),
    ) {
        (Some(r), Some(g), Some(b)) => Ok(True { r, g, b }),
        _ => Err(ParseError::InvalidDigit),
    }
}

/// The color that a hex string stands for: after an optional `#`, six
/// digits give the channels directly and three digits give one channel
/// each. Every other length is an error, and so is every character that is
/// not a hex digit.
pub open spec fn parse_hex(hex: Seq<char>) -> Result<True, ParseError> {
    let digits = hex_digits(hex);
    if digits.len() == 6 {
        parse_hex_long(digits)
    } else if digits.len() == 3 {
        parse_hex_short(digits)
    } else {
        Err(ParseError::InvalidLength)
    }
}

/// The step of the six-step color cube that a channel falls on: channels
/// below 55 are step 0, and from 55 on every 40 make one step.
pub open spec fn cube_step(channel: u8) -> int {
    if channel < 55 {
        0
    } else {
        (channel - 55) / 40
    }
}

/// The index in the eight-bit palette of the cube entry for an RGB value.
pub open spec fn cube_index(r: u8, g: u8, b: u8) -> int {
    16 + 36 * cube_step(r) + 6 * cube_step(g) + cube_step(b)
}

impl ParseError {
    /// A description of the error.
    pub fn message(&self) -> (text: &'static str)
        ensures
            text@ == match self {
                ParseError::InvalidLength => "Invalid length"@,
                ParseError::InvalidDigit => "invalid digit found in string"@,
            },
    {
        match self {
            ParseError::InvalidLength => "Invalid length",
            ParseError::InvalidDigit => "invalid digit found in string",
        }
    }
}

impl True {
    /// Creates from RGB values.
    #[inline]
    pub fn from_rgb(r: u8, g: u8, b: u8) -> (color: Self)
        ensures
            color == (True { r, g, b }),
    {
        True { r, g, b }
    }

    /// Tries to create from a hex value. The leading `#` is optional.
    pub fn from_hex(hex: &str) -> (color: Result<Self, ParseError>)
        ensures
            color == parse_hex(hex@),
    {
        let total = hex.unicode_len();
        let hex = if total > 0 && hex.get_char(0) == '#' {
            hex.substring_char(1, total)
        } else {
            hex
        };
        let len = hex.unicode_len();
        if len == 6 {
            Self::from_hex_long(hex)
        } else if len == 3 {
            Self::from_hex_short(hex)
        } else {
            Err(ParseError::InvalidLength)
        }
    }

    /// Creates from the three digits of the short form.
    pub fn from_hex_short(hex: &str) -> (color: Result<Self, ParseError>)
        requires
            hex@.len() == 3,
        ensures
            color == parse_hex_short(hex@),
    {
        let r = match hex_digit(hex.get_char(0)) {
            Some(n) => n,
            None => {
                return Err(ParseError::InvalidDigit);
            },
        };
        let g = match hex_digit(hex.get_char(1)) {
            Some(n) => n,
            None => {
                return Err(ParseError::InvalidDigit);
            },
        };
        let b = match hex_digit(hex.get_char(2)) {
            Some(n) => n,
            None => {
                return Err(ParseError::InvalidDigit);
            },
        };
        Ok(Self::from_rgb(repeat_digit(r), repeat_digit(g), repeat_digit(b)))
    }

    /// Creates from the six digits of the long form.
    pub fn from_hex_long(hex: &str) -> (color: Result<Self, ParseError>)
        requires
            hex@.len() == 6,
        ensures
            color == parse_hex_long(hex@),
    {
        let r = match hex_byte(hex.get_char(0), hex.get_char(1)) {
            Some(n) => n,
            None => {
                return Err(ParseError::InvalidDigit);
            },
        };
        let g = match hex_byte(hex.get_char(2), hex.get_char(3)) {
            Some(n) => n,
            None => {
                return Err(ParseError::InvalidDigit);
            },
        };
        let b = match hex_byte(hex.get_char(4), hex.get_char(5)) {
            Some(n) => n,
            None => {
                return Err(ParseError::InvalidDigit);
            },
        };
        Ok(Self::from_rgb(r, g, b))
    }
}

impl Color for True {
    open spec fn fg_code(&self) -> Seq<char> {
        seq!['3', '8', ';', '2', ';'] + decimal(self.r as nat) + seq![';'] + decimal(self.g as nat)
            + seq![';'] + decimal(self.b as nat)
    }

    open spec fn bg_code(&self) -> Seq<char> {
        seq!['4', '8', ';', '2', ';'] + decimal(self.r as nat) + seq![';'] + decimal(self.g as nat)
            + seq![';'] + decimal(self.b as nat)
    }

    open spec fn spec_level(&self) -> ColorLevel {
        ColorLevel::True
    }

    open spec fn spec_rgb_u8(&self) -> (u8, u8, u8) {
        (self.r, self.g, self.b)
    }

    fn fmt_fg(&self, f: &mut String) {
        proof {
            reveal_strlit("38;2;");
        }
        f.append("38;2;");
        assert(f@ =~= old(f)@ + seq!['3', '8', ';', '2', ';']);
        self.fmt_channels(f);
    }

    fn fmt_bg(&self, f: &mut String) {
        proof {
            reveal_strlit("48;2;");
        }
        f.append("48;2;");
        assert(f@ =~= old(f)@ + seq!['4', '8', ';', '2', ';']);
        self.fmt_channels(f);
    }

    fn level(&self) -> ColorLevel {
        ColorLevel::True
    }

    #[inline]
    fn rgb_u8(&self) -> (u8, u8, u8) {
        (self.r, self.g, self.b)
    }
}

impl True {
    /// Writes the three channels in decimal, with `;` between them.
    fn fmt_channels(&self, f: &mut String)
        ensures
            final(f)@ == old(f)@ + decimal(self.r as nat) + seq![';'] + decimal(self.g as nat)
                + seq![';'] + decimal(self.b as nat),
    {
        proof {
            reveal_strlit(";");
        }
        push_decimal(f, self.r);
        f.append(";");
        push_decimal(f, self.g);
        f.append(";");
        push_decimal(f, self.b);
        assert(";"@ =~= seq![';']);
    }
}

impl ToSimple for True {
    open spec fn spec_to_simple(&self) -> Simple {
        Simple::spec_closest(self.r, self.g, self.b)
    }

    fn to_simple(&self) -> Simple {
        let (r, g, b) = self.rgb_u8();
        Simple::closest(r, g, b)
    }
}

impl ToEightBit for True {
    /// Every true color goes to an entry of the color cube.
    open spec fn spec_to_eight_bit(&self) -> EightBit {
        EightBit(cube_index(self.r, self.g, self.b) as u8)
    }

    fn to_eight_bit(&self) -> EightBit {
        let (r, g, b) = self.rgb_u8();
        let r = full_color_to_cube(r);
        let g = full_color_to_cube(g);
        let b = full_color_to_cube(b);
        let lookup = 16 + (36 * r) + (6 * g) + b;
        EightBit::from(lookup)
    }
}

/// Reverses a full color in the range [0, 256) to a color channel for the
/// eight-bit 6x6x6 cube.
pub fn full_color_to_cube(channel: u8) -> (step: u8)
    ensures
        step == cube_step(channel),
        step < 6,
{
    if channel < 55 {
        0
    } else {
        (channel - 55) / 40
    }
}

/// Reads one hex digit.
fn hex_digit(c: char) -> (value: Option<u8>)
    ensures
        value == hex_digit_value(c),
        value matches Some(n) ==> n < 16,
{
    if c >= '0' && c <= '9' {
        Some(c as u8 - 48)
    } else if c >= 'a' && c <= 'f' {
        Some(c as u8 - 97 + 10)
    } else if c >= 'A' && c <= 'F' {
        Some(c as u8 - 65 + 10)
    } else {
        None
    }
}

/// Reads two hex digits as one byte.
fn hex_byte(high: char, low: char) -> (value: Option<u8>)
    ensures
        value == long_channel(high, low),
{
    match hex_digit(high) {
        Some(h) => match hex_digit(low) {
            Some(l) => Some(h * 16 + l),
            None => None,
        },
        None => None,
    }
}

/// Puts a digit into both halves of a byte.
fn repeat_digit(n: u8) -> (byte: u8)
    requires
        n < 16,
    ensures
        byte == n * 0x11,
{
    assert(n | (n << 4) == n * 0x11) by (bit_vector)
        requires
            n < 16,
    ;
    n | (n << 4)
}

/// The channel value of every step of the color cube falls on that step.
pub proof fn lemma_cube_step_of_intensity(step: int)
    requires
        0 <= step < 6,
    ensures
        cube_step(cube_intensity(step) as u8) == step,
{
}

/// Every entry of the color cube is found again from its RGB value: the
/// true color with the RGB value of the entry converts to the entry itself.
pub proof fn lemma_cube_round_trip(index: u8)
    requires
        16 <= index <= 231,
    ensures
        ({
            let (r, g, b) = cube_rgb(index as int);
            (True { r, g, b }).spec_to_eight_bit() == EightBit(index)
        }),
{
    let value = index - 16;
    lemma_cube_step_of_intensity((value / 36) % 6);
    lemma_cube_step_of_intensity((value / 6) % 6);
    lemma_cube_step_of_intensity(value % 6);
}

/// A true color whose channels are each off or full converts to a corner of
/// the color cube: 180, 30 and 5 above the first entry for full red, green
/// and blue.
pub proof fn lemma_cube_index_of_full_channels(r: u8, g: u8, b: u8)
    requires
        r == 0 || r == 255,
        g == 0 || g == 255,
        b == 0 || b == 255,
    ensures
        cube_index(r, g, b) == 16 + (if r == 255 { 180int } else { 0 }) + (if g == 255 {
            30int
        } else {
            0
        }) + (if b == 255 { 5int } else { 0 }),
{
}

} // verus!
