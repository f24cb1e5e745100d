use super::simple::{
    Black, Blue, BrightBlack, BrightBlue, BrightCyan, BrightGreen, BrightMagenta, BrightRed,
    BrightWhite, BrightYellow, Cyan, Green, Magenta, Red, White, Yellow,
};
use super::Simple;
use crate::color::Color;
use crate::color_level::ColorLevel;
use crate::conversion::{ToEightBit, ToSimple};
use crate::text::{decimal, push_decimal};
use vstd::prelude::*;
use vstd::std_specs::convert::FromSpecImpl;

verus! {

/// An eight-bit color that uses a lookup table.
///
/// The table has three parts: the sixteen simple colors at 0 to 15, a cube
/// of six steps per channel at 16 to 231, and a ramp of 24 grays at 232 to
/// 255.
#[derive(Debug, PartialEq, Eq, Structural, Copy, Clone)]
pub struct EightBit(pub u8);

/// The channel value of a step of the color cube: step 0 is dark, and the
/// steps 1 to 5 are 95, 135, 175, 215 and 255.
pub open spec fn cube_intensity(step: int) -> int {
    if step == 0 {
        0
    } else {
        step * 40 + 55
    }
}

/// The RGB value of an index of the color cube, `16 <= index <= 231`: the
/// index less 16 is read as three digits in base 6, red first.
pub open spec fn cube_rgb(index: int) -> (u8, u8, u8) {
    let value = index - 16;
    (
        cube_intensity((value / 36) % 6) as u8,
        cube_intensity((value / 6) % 6) as u8,
        cube_intensity(value % 6) as u8,
    )
}

/// The RGB value of an index of the gray ramp, `232 <= index <= 255`: the
/// grays go from 8 up in steps of 10.
pub open spec fn grayscale_rgb(index: int) -> (u8, u8, u8) {
    let level = ((index - 232) * 10 + 8) as u8;
    (level, level, level)
}

/// The RGB value of every index of the eight-bit palette.
pub open spec fn palette_rgb(index: u8) -> (u8, u8, u8) {
    if index < 16 {
        Simple::from_index(index as int).spec_rgb_u8()
    } else if index < 232 {
        cube_rgb(index as int)
    } else {
        grayscale_rgb(index as int)
    }
}

impl EightBit {
    /// Gets the RGB lookup color for the 6x6x6 cube.
    pub fn cube_rgb_lookup(&self) -> (rgb: (u8, u8, u8))
        requires
            16 <= self.0 <= 231,
        ensures
            rgb == cube_rgb(self.0 as int),
    {
        let value = self.0 - 16;
        // NOTE Values with intensity 0 <= n < 6
        let r = (value / 36) % 6;
        let g = (value / 6) % 6;
        let b = value % 6;
        (Self::cube_to_intensity(r), Self::cube_to_intensity(g), Self::cube_to_intensity(b))
    }

    /// Gets the RGB lookup for the grayscale values.
    pub fn grayscale_rgb_lookup(&self) -> (rgb: (u8, u8, u8))
        requires
            232 <= self.0,
        ensures
            rgb == grayscale_rgb(self.0 as int),
    {
        let value = self.0 - 232;
        let level = (value * 10) + 8;
        (level, level, level)
    }

    /// Converts an intensity value in the range [0, 6) to an eight-bit value.
    #[inline]
    pub fn cube_to_intensity(value: u8) -> (intensity: u8)
        requires
            value < 6,
        ensures
            intensity == cube_intensity(value as int),
    {
        if value == 0 {
            0
        } else {
            (value * 40) + 55
        }
    }
}

impl From<u8> for EightBit {
    #[inline]
    fn from(value: u8) -> (color: Self) {
        EightBit(value)
    }
}

impl FromSpecImpl<u8> for EightBit {
    open spec fn obeys_from_spec() -> bool {
        true
    }

    open spec fn from_spec(value: u8) -> Self {
        EightBit(value)
    }
}

impl Color for EightBit {
    open spec fn fg_code(&self) -> Seq<char> {
        seq!['3', '8', ';', '5', ';'] + decimal(self.0 as nat)
    }

    open spec fn bg_code(&self) -> Seq<char> {
        seq!['4', '8', ';', '5', ';'] + decimal(self.0 as nat)
    }

    open spec fn spec_level(&self) -> ColorLevel {
        ColorLevel::EightBit
    }

    open spec fn spec_rgb_u8(&self) -> (u8, u8, u8) {
        palette_rgb(self.0)
    }

    fn fmt_fg(&self, f: &mut String) {
        proof {
            reveal_strlit("38;5;");
        }
        f.append("38;5;");
        push_decimal(f, self.0);
        assert(f@ =~= old(f)@ + self.fg_code());
    }

    fn fmt_bg(&self, f: &mut String) {
        proof {
            reveal_strlit("48;5;");
        }
        f.append("48;5;");
        push_decimal(f, self.0);
        assert(f@ =~= old(f)@ + self.bg_code());
    }

    fn level(&self) -> ColorLevel {
        ColorLevel::EightBit
    }

    fn rgb_u8(&self) -> (u8, u8, u8) {
        match self.0 {
            0 => Black.rgb_u8(),
            1 => Red.rgb_u8(),
            2 => Green.rgb_u8(),
            3 => Yellow.rgb_u8(),
            4 => Blue.rgb_u8(),
            5 => Magenta.rgb_u8(),
            6 => Cyan.rgb_u8(),
            7 => White.rgb_u8(),
            8 => BrightBlack.rgb_u8(),
            9 => BrightRed.rgb_u8(),
            10 => BrightGreen.rgb_u8(),
            11 => BrightYellow.rgb_u8(),
            12 => BrightBlue.rgb_u8(),
            13 => BrightMagenta.rgb_u8(),
            14 => BrightCyan.rgb_u8(),
            15 => BrightWhite.rgb_u8(),
            16..=231 => self.cube_rgb_lookup(),
            232..=255 => self.grayscale_rgb_lookup(),
        }
    }
}

impl ToSimple for EightBit {
    /// The first sixteen indices are the simple colors themselves; every
    /// other index goes by its RGB value.
    open spec fn spec_to_simple(&self) -> Simple {
        if self.0 < 16 {
            Simple::from_index(self.0 as int)
        } else {
            let (r, g, b) = palette_rgb(self.0);
            Simple::spec_closest(r, g, b)
        }
    }

    fn to_simple(&self) -> Simple {
        match self.0 {
            0 => Simple::Black,
            1 => Simple::Red,
            2 => Simple::Green,
            3 => Simple::Yellow,
            4 => Simple::Blue,
            5 => Simple::Magenta,
            6 => Simple::Cyan,
            7 => Simple::White,
            8 => Simple::BrightBlack,
            9 => Simple::BrightRed,
            10 => Simple::BrightGreen,
            11 => Simple::BrightYellow,
            12 => Simple::BrightBlue,
            13 => Simple::BrightMagenta,
            14 => Simple::BrightCyan,
            15 => Simple::BrightWhite,
            16..=255 => {
                let (r, g, b) = self.rgb_u8();
                Simple::closest(r, g, b)
            },
        }
    }
}

impl ToEightBit for EightBit {
    open spec fn spec_to_eight_bit(&self) -> EightBit {
        *self
    }

    #[inline]
    fn to_eight_bit(&self) -> EightBit {
        *self
    }
}

} // verus!
