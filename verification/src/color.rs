use crate::color_level::ColorLevel;
use vstd::prelude::*;

verus! {

/// A channel of 8 bits stretched to 16: the byte repeated in both halves, so
/// that `0x00` stays `0x0000` and `0xFF` becomes `0xFFFF`.
pub open spec fn upcase_u8(low: u8) -> int {
    low * 0x101
}

/// A channel of 16 bits stretched to 32: the half-word repeated in both
/// halves.
pub open spec fn upcase_u16(low: u16) -> int {
    low * 0x1_0001
}

/// Marks a type as being able to represent a color.
///
/// An implementation gives the text of its codes, its level and its RGB
/// value as spec functions, and the executable methods are held to them.
pub trait Color {
    /// The SGR parameters that select this color for the foreground,
    /// without the `ESC [` at the start and the `m` at the end.
    spec fn fg_code(&self) -> Seq<char>;

    /// The SGR parameters that select this color for the background,
    /// without the `ESC [` at the start and the `m` at the end.
    spec fn bg_code(&self) -> Seq<char>;

    /// The level that a terminal needs in order to show this color.
    spec fn spec_level(&self) -> ColorLevel;

    /// The red, green and blue channels of this color.
    spec fn spec_rgb_u8(&self) -> (u8, u8, u8);

    /// Writes the ANSI text for foreground colorization. Does not include
    /// the `\e[` at the start or the `m` at the end.
    fn fmt_fg(&self, f: &mut String)
        ensures
            final(f)@ == old(f)@ + self.fg_code(),
    ;

    /// Writes the ANSI text for background colorization. Does not include
    /// the `\e[` at the start or the `m` at the end.
    fn fmt_bg(&self, f: &mut String)
        ensures
            final(f)@ == old(f)@ + self.bg_code(),
    ;

    /// Gets the color level. This helps prevent attempting to print a color
    /// when it isn't supported.
    fn level(&self) -> (level: ColorLevel)
        ensures
            level == self.spec_level(),
    ;

    /// Gets the RGB values as `u8`.
    fn rgb_u8(&self) -> (rgb: (u8, u8, u8))
        ensures
            rgb == self.spec_rgb_u8(),
    ;

    /// Gets the RGB values as `u16`.
    fn rgb_u16(&self) -> (rgb: (u16, u16, u16))
        ensures
            rgb.0 == upcase_u8(self.spec_rgb_u8().0),
            rgb.1 == upcase_u8(self.spec_rgb_u8().1),
            rgb.2 == upcase_u8(self.spec_rgb_u8().2),
    {
        rgb_u8_to_u16(self.rgb_u8())
    }

    /// Gets the RGB values as `u32`.
    fn rgb_u32(&self) -> (rgb: (u32, u32, u32))
        ensures
            rgb.0 == upcase_u16(upcase_u8(self.spec_rgb_u8().0) as u16),
            rgb.1 == upcase_u16(upcase_u8(self.spec_rgb_u8().1) as u16),
            rgb.2 == upcase_u16(upcase_u8(self.spec_rgb_u8().2) as u16),
    {
        rgb_u16_to_u32(self.rgb_u16())
    }
}

#[inline]
fn upcase_u8_to_u16(low: u8) -> (high: u16)
    ensures
        high == upcase_u8(low),
{
    let low = low as u16;
    assert((low << 8) | low == low * 0x101) by (bit_vector)
        requires
            low < 0x100,
    ;
    (low << 8) | low
}

#[inline]
fn upcase_u16_to_u32(low: u16) -> (high: u32)
    ensures
        high == upcase_u16(low),
{
    let low = low as u32;
    assert((low << 16) | low == low * 0x1_0001) by (bit_vector)
        requires
            low < 0x1_0000,
    ;
    (low << 16) | low
}

#[inline]
fn rgb_u8_to_u16(rgb: (u8, u8, u8)) -> (wide: (u16, u16, u16))
    ensures
        wide.0 == upcase_u8(rgb.0),
        wide.1 == upcase_u8(rgb.1),
        wide.2 == upcase_u8(rgb.2),
{
    (upcase_u8_to_u16(rgb.0), upcase_u8_to_u16(rgb.1), upcase_u8_to_u16(rgb.2))
}

#[inline]
fn rgb_u16_to_u32(rgb: (u16, u16, u16)) -> (wide: (u32, u32, u32))
    ensures
        wide.0 == upcase_u16(rgb.0),
        wide.1 == upcase_u16(rgb.1),
        wide.2 == upcase_u16(rgb.2),
{
    (upcase_u16_to_u32(rgb.0), upcase_u16_to_u32(rgb.1), upcase_u16_to_u32(rgb.2))
}

} // verus!
