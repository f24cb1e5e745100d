//! The sixteen simple colors: eight dark ones and their bright variants.
//!
//! Each color is a type of its own, and [`Simple`] unifies them.
use super::EightBit;
use crate::color::Color;
use crate::color_level::ColorLevel;
use crate::conversion::{ToEightBit, ToSimple};
use crate::text::{decimal, push_decimal};
use vstd::prelude::*;
use vstd::std_specs::convert::FromSpecImpl;

verus! {

/// The black color.
pub struct Black;

/// The red color.
pub struct Red;

/// The green color.
pub struct Green;

/// The yellow color.
pub struct Yellow;

/// The blue color.
pub struct Blue;

/// The magenta color.
pub struct Magenta;

/// The cyan color.
pub struct Cyan;

/// The white color.
pub struct White;

/// The bright black color.
pub struct BrightBlack;

/// The bright red color.
pub struct BrightRed;

/// The bright green color.
pub struct BrightGreen;

/// The bright yellow color.
pub struct BrightYellow;

/// The bright blue color.
pub struct BrightBlue;

/// The bright magenta color.
pub struct BrightMagenta;

/// The bright cyan color.
pub struct BrightCyan;

/// The bright white color.
pub struct BrightWhite;

/// Unifies the simple colors.
#[derive(Debug, Copy, Clone, PartialEq, Eq, Structural)]
pub enum Simple {
    Black,
    Red,
    Green,
    Yellow,
    Blue,
    Magenta,
    Cyan,
    White,
    BrightBlack,
    BrightRed,
    BrightGreen,
    BrightYellow,
    BrightBlue,
    BrightMagenta,
    BrightCyan,
    BrightWhite,
}

impl Simple {
    /// The place of the color in the palette: the dark colors at 0 to 7 and
    /// the bright ones at 8 to 15. Within each half the place is the sum of
    /// 1 for red, 2 for green and 4 for blue.
    pub open spec fn index(self) -> int {
        match self {
            Simple::Black => 0,
            Simple::Red => 1,
            Simple::Green => 2,
            Simple::Yellow => 3,
            Simple::Blue => 4,
            Simple::Magenta => 5,
            Simple::Cyan => 6,
            Simple::White => 7,
            Simple::BrightBlack => 8,
            Simple::BrightRed => 9,
            Simple::BrightGreen => 10,
            Simple::BrightYellow => 11,
            Simple::BrightBlue => 12,
            Simple::BrightMagenta => 13,
            Simple::BrightCyan => 14,
            Simple::BrightWhite => 15,
        }
    }

    /// The color at a place of the palette; places outside 0 to 15 are
    /// taken as 15.
    pub open spec fn from_index(index: int) -> Simple {
        if index == 0 {
            Simple::Black
        } else if index == 1 {
            Simple::Red
        } else if index == 2 {
            Simple::Green
        } else if index == 3 {
            Simple::Yellow
        } else if index == 4 {
            Simple::Blue
        } else if index == 5 {
            Simple::Magenta
        } else if index == 6 {
            Simple::Cyan
        } else if index == 7 {
            Simple::White
        } else if index == 8 {
            Simple::BrightBlack
        } else if index == 9 {
            Simple::BrightRed
        } else if index == 10 {
            Simple::BrightGreen
        } else if index == 11 {
            Simple::BrightYellow
        } else if index == 12 {
            Simple::BrightBlue
        } else if index == 13 {
            Simple::BrightMagenta
        } else if index == 14 {
            Simple::BrightCyan
        } else {
            Simple::BrightWhite
        }
    }

    /// The SGR parameter that selects the color for the foreground: 30 to
    /// 37 for the dark colors, 90 to 97 for the bright ones.
    pub open spec fn fg_number(self) -> nat {
        match self {
            Simple::Black => 30,
            Simple::Red => 31,
            Simple::Green => 32,
            Simple::Yellow => 33,
            Simple::Blue => 34,
            Simple::Magenta => 35,
            Simple::Cyan => 36,
            Simple::White => 37,
            Simple::BrightBlack => 90,
            Simple::BrightRed => 91,
            Simple::BrightGreen => 92,
            Simple::BrightYellow => 93,
            Simple::BrightBlue => 94,
            Simple::BrightMagenta => 95,
            Simple::BrightCyan => 96,
            Simple::BrightWhite => 97,
        }
    }

    /// The SGR parameter that selects the color for the background: ten
    /// above the one for the foreground.
    pub open spec fn bg_number(self) -> nat {
        self.fg_number() + 10
    }

    /// Whether an RGB value counts as bright: the bitwise OR of its channels
    /// is at least `0xC0`.
    pub open spec fn is_bright_rgb(r: u8, g: u8, b: u8) -> bool {
        (r | g | b) >= 0xC0
    }

    /// The top bits of the three channels as one number: 1 for red, 2 for
    /// green and 4 for blue.
    pub open spec fn channel_bits(r: u8, g: u8, b: u8) -> int {
        (if r >= 0x80 { 1int } else { 0 }) + (if g >= 0x80 { 2int } else { 0 })
            + (if b >= 0x80 { 4int } else { 0 })
    }

    /// The simple color closest to an RGB value: the top bit of each channel
    /// picks the hue, and the brightness picks the half of the palette.
    pub open spec fn spec_closest(r: u8, g: u8, b: u8) -> Simple {
        if Self::is_bright_rgb(r, g, b) {
            Self::from_index(8 + Self::channel_bits(r, g, b))
        } else {
            Self::from_index(Self::channel_bits(r, g, b))
        }
    }

    /// The dark color whose hue is given by the channel bits.
    fn dark(bits: u8) -> (simple: Simple)
        requires
            bits < 8,
        ensures
            simple == Self::from_index(bits as int),
    {
        match bits {
            0 => Simple::Black,
            1 => Simple::Red,
            2 => Simple::Green,
            3 => Simple::Yellow,
            4 => Simple::Blue,
            5 => Simple::Magenta,
            6 => Simple::Cyan,
            _ => Simple::White,
        }
    }

    /// The bright color whose hue is given by the channel bits.
    fn bright(bits: u8) -> (simple: Simple)
        requires
            bits < 8,
        ensures
            simple == Self::from_index(8 + bits),
    {
        match bits {
            0 => Simple::BrightBlack,
            1 => Simple::BrightRed,
            2 => Simple::BrightGreen,
            3 => Simple::BrightYellow,
            4 => Simple::BrightBlue,
            5 => Simple::BrightMagenta,
            6 => Simple::BrightCyan,
            _ => Simple::BrightWhite,
        }
    }

    /// Tries to get the closest color from the RGB values.
    #[inline]
    pub fn closest(r: u8, g: u8, b: u8) -> (simple: Simple)
        ensures
            simple == Self::spec_closest(r, g, b),
    {
        // NOTE We assume a color is a bright variant if it's at least 0xC0.
        let is_bright = (r | g | b) >= 0xC0;
        let red = r >> 7;
        let green = g >> 7;
        let blue = b >> 7;
        let bits = red | (green << 1) | (blue << 2);
        assert(bits == (if r >= 0x80 { 1u8 } else { 0 }) + (if g >= 0x80 { 2u8 } else { 0 }) + (if b
            >= 0x80 { 4u8 } else { 0 })) by (bit_vector)
            requires
                red == r >> 7,
                green == g >> 7,
                blue == b >> 7,
                bits == red | (green << 1) | (blue << 2),
        ;
        if is_bright {
            Self::bright(bits)
        } else {
            Self::dark(bits)
        }
    }

    /// The place of the color in the palette as a machine integer.
    fn index_u8(&self) -> (index: u8)
        ensures
            index == self.index(),
    {
        match self {
            Simple::Black => 0,
            Simple::Red => 1,
            Simple::Green => 2,
            Simple::Yellow => 3,
            Simple::Blue => 4,
            Simple::Magenta => 5,
            Simple::Cyan => 6,
            Simple::White => 7,
            Simple::BrightBlack => 8,
            Simple::BrightRed => 9,
            Simple::BrightGreen => 10,
            Simple::BrightYellow => 11,
            Simple::BrightBlue => 12,
            Simple::BrightMagenta => 13,
            Simple::BrightCyan => 14,
            Simple::BrightWhite => 15,
        }
    }

    /// The SGR parameter for the foreground as a machine integer.
    fn fg_param(&self) -> (param: u8)
        ensures
            param == self.fg_number(),
    {
        match self {
            Simple::Black => 30,
            Simple::Red => 31,
            Simple::Green => 32,
            Simple::Yellow => 33,
            Simple::Blue => 34,
            Simple::Magenta => 35,
            Simple::Cyan => 36,
            Simple::White => 37,
            Simple::BrightBlack => 90,
            Simple::BrightRed => 91,
            Simple::BrightGreen => 92,
            Simple::BrightYellow => 93,
            Simple::BrightBlue => 94,
            Simple::BrightMagenta => 95,
            Simple::BrightCyan => 96,
            Simple::BrightWhite => 97,
        }
    }
}

impl Color for Simple {
    open spec fn fg_code(&self) -> Seq<char> {
        decimal(self.fg_number())
    }

    open spec fn bg_code(&self) -> Seq<char> {
        decimal(self.bg_number())
    }

    open spec fn spec_level(&self) -> ColorLevel {
        ColorLevel::Simple
    }

    open spec fn spec_rgb_u8(&self) -> (u8, u8, u8) {
        match self {
            Simple::Black => (0, 0, 0),
            Simple::Red => (0xAA, 0, 0),
            Simple::Green => (0, 0xAA, 0),
            Simple::Yellow => (0xAA, 0xAA, 0),
            Simple::Blue => (0, 0, 0xAA),
            Simple::Magenta => (0xAA, 0, 0xAA),
            Simple::Cyan => (0, 0xAA, 0xAA),
            Simple::White => (0xAA, 0xAA, 0xAA),
            Simple::BrightBlack => (0x55, 0x55, 0x55),
            Simple::BrightRed => (0xFF, 0x55, 0x55),
            Simple::BrightGreen => (0x55, 0xFF, 0x55),
            Simple::BrightYellow => (0xFF, 0xFF, 0x55),
            Simple::BrightBlue => (0x55, 0x55, 0xFF),
            Simple::BrightMagenta => (0xFF, 0x55, 0xFF),
            Simple::BrightCyan => (0x55, 0xFF, 0xFF),
            Simple::BrightWhite => (0xFF, 0xFF, 0xFF),
        }
    }

    fn fmt_fg(&self, f: &mut String) {
        push_decimal(f, self.fg_param());
    }

    fn fmt_bg(&self, f: &mut String) {
        push_decimal(f, self.fg_param() + 10);
    }

    fn level(&self) -> ColorLevel {
        ColorLevel::Simple
    }

    fn rgb_u8(&self) -> (u8, u8, u8) {
        match self {
            Simple::Black => (0, 0, 0),
            Simple::Red => (0xAA, 0, 0),
            Simple::Green => (0, 0xAA, 0),
            Simple::Yellow => (0xAA, 0xAA, 0),
            Simple::Blue => (0, 0, 0xAA),
            Simple::Magenta => (0xAA, 0, 0xAA),
            Simple::Cyan => (0, 0xAA, 0xAA),
            Simple::White => (0xAA, 0xAA, 0xAA),
            Simple::BrightBlack => (0x55, 0x55, 0x55),
            Simple::BrightRed => (0xFF, 0x55, 0x55),
            Simple::BrightGreen => (0x55, 0xFF, 0x55),
            Simple::BrightYellow => (0xFF, 0xFF, 0x55),
            Simple::BrightBlue => (0x55, 0x55, 0xFF),
            Simple::BrightMagenta => (0xFF, 0x55, 0xFF),
            Simple::BrightCyan => (0x55, 0xFF, 0xFF),
            Simple::BrightWhite => (0xFF, 0xFF, 0xFF),
        }
    }
}

impl ToSimple for Simple {
    open spec fn spec_to_simple(&self) -> Simple {
        *self
    }

    #[inline]
    fn to_simple(&self) -> Simple {
        *self
    }
}

impl ToEightBit for Simple {
    /// The eight-bit palette starts with the simple colors, in their order.
    open spec fn spec_to_eight_bit(&self) -> EightBit {
        EightBit(self.index() as u8)
    }

    #[inline]
    fn to_eight_bit(&self) -> EightBit {
        EightBit::from(self.index_u8())
    }
}

impl Color for Black {
    open spec fn fg_code(&self) -> Seq<char> {
        Simple::Black.fg_code()
    }

    open spec fn bg_code(&self) -> Seq<char> {
        Simple::Black.bg_code()
    }

    open spec fn spec_level(&self) -> ColorLevel {
        ColorLevel::Simple
    }

    open spec fn spec_rgb_u8(&self) -> (u8, u8, u8) {
        (0, 0, 0)
    }

    fn fmt_fg(&self, f: &mut String) {
        Simple::Black.fmt_fg(f);
    }

    fn fmt_bg(&self, f: &mut String) {
        Simple::Black.fmt_bg(f);
    }

    fn level(&self) -> ColorLevel {
        ColorLevel::Simple
    }

    fn rgb_u8(&self) -> (rgb: (u8, u8, u8)) {
        let rgb: (u8, u8, u8) = (0, 0, 0);
        assert(rgb == self.spec_rgb_u8());
        rgb
    }
}

impl ToSimple for Black {
    open spec fn spec_to_simple(&self) -> Simple {
        Simple::Black
    }

    fn to_simple(&self) -> Simple {
        Simple::Black
    }
}

impl ToEightBit for Black {
    open spec fn spec_to_eight_bit(&self) -> EightBit {
        Simple::Black.spec_to_eight_bit()
    }

    #[inline]
    fn to_eight_bit(&self) -> EightBit {
        Simple::Black.to_eight_bit()
    }
}

impl From<Black> for Simple {
    fn from(_color: Black) -> (simple: Self) {
        Simple::Black
    }
}

impl FromSpecImpl<Black> for Simple {
    open spec fn obeys_from_spec() -> bool {
        true
    }

    open spec fn from_spec(_color: Black) -> Self {
        Simple::Black
    }
}

impl From<&Black> for Simple {
    fn from(_color: &Black) -> (simple: Self) {
        Simple::Black
    }
}

impl FromSpecImpl<&Black> for Simple {
    open spec fn obeys_from_spec() -> bool {
        true
    }

    open spec fn from_spec(_color: &Black) -> Self {
        Simple::Black
    }
}

impl Color for Red {
    open spec fn fg_code(&self) -> Seq<char> {
        Simple::Red.fg_code()
    }

    open spec fn bg_code(&self) -> Seq<char> {
        Simple::Red.bg_code()
    }

    open spec fn spec_level(&self) -> ColorLevel {
        ColorLevel::Simple
    }

    open spec fn spec_rgb_u8(&self) -> (u8, u8, u8) {
        (0xAA, 0, 0)
    }

    fn fmt_fg(&self, f: &mut String) {
        Simple::Red.fmt_fg(f);
    }

    fn fmt_bg(&self, f: &mut String) {
        Simple::Red.fmt_bg(f);
    }

    fn level(&self) -> ColorLevel {
        ColorLevel::Simple
    }

    fn rgb_u8(&self) -> (rgb: (u8, u8, u8)) {
        let rgb: (u8, u8, u8) = (0xAA, 0, 0);
        assert(rgb == self.spec_rgb_u8());
        rgb
    }
}

impl ToSimple for Red {
    open spec fn spec_to_simple(&self) -> Simple {
        Simple::Red
    }

    fn to_simple(&self) -> Simple {
        Simple::Red
    }
}

impl ToEightBit for Red {
    open spec fn spec_to_eight_bit(&self) -> EightBit {
        Simple::Red.spec_to_eight_bit()
    }

    #[inline]
    fn to_eight_bit(&self) -> EightBit {
        Simple::Red.to_eight_bit()
    }
}

impl From<Red> for Simple {
    fn from(_color: Red) -> (simple: Self) {
        Simple::Red
    }
}

impl FromSpecImpl<Red> for Simple {
    open spec fn obeys_from_spec() -> bool {
        true
    }

    open spec fn from_spec(_color: Red) -> Self {
        Simple::Red
    }
}

impl From<&Red> for Simple {
    fn from(_color: &Red) -> (simple: Self) {
        Simple::Red
    }
}

impl FromSpecImpl<&Red> for Simple {
    open spec fn obeys_from_spec() -> bool {
        true
    }

    open spec fn from_spec(_color: &Red) -> Self {
        Simple::Red
    }
}

impl Color for Green {
    open spec fn fg_code(&self) -> Seq<char> {
        Simple::Green.fg_code()
    }

    open spec fn bg_code(&self) -> Seq<char> {
        Simple::Green.bg_code()
    }

    open spec fn spec_level(&self) -> ColorLevel {
        ColorLevel::Simple
    }

    open spec fn spec_rgb_u8(&self) -> (u8, u8, u8) {
        (0, 0xAA, 0)
    }

    fn fmt_fg(&self, f: &mut String) {
        Simple::Green.fmt_fg(f);
    }

    fn fmt_bg(&self, f: &mut String) {
        Simple::Green.fmt_bg(f);
    }

    fn level(&self) -> ColorLevel {
        ColorLevel::Simple
    }

    fn rgb_u8(&self) -> (rgb: (u8, u8, u8)) {
        let rgb: (u8, u8, u8) = (0, 0xAA, 0);
        assert(rgb == self.spec_rgb_u8());
        rgb
    }
}

impl ToSimple for Green {
    open spec fn spec_to_simple(&self) -> Simple {
        Simple::Green
    }

    fn to_simple(&self) -> Simple {
        Simple::Green
    }
}

impl ToEightBit for Green {
    open spec fn spec_to_eight_bit(&self) -> EightBit {
        Simple::Green.spec_to_eight_bit()
    }

    #[inline]
    fn to_eight_bit(&self) -> EightBit {
        Simple::Green.to_eight_bit()
    }
}

impl From<Green> for Simple {
    fn from(_color: Green) -> (simple: Self) {
        Simple::Green
    }
}

impl FromSpecImpl<Green> for Simple {
    open spec fn obeys_from_spec() -> bool {
        true
    }

    open spec fn from_spec(_color: Green) -> Self {
        Simple::Green
    }
}

impl From<&Green> for Simple {
    fn from(_color: &Green) -> (simple: Self) {
        Simple::Green
    }
}

impl FromSpecImpl<&Green> for Simple {
    open spec fn obeys_from_spec() -> bool {
        true
    }

    open spec fn from_spec(_color: &Green) -> Self {
        Simple::Green
    }
}

impl Color for Yellow {
    open spec fn fg_code(&self) -> Seq<char> {
        Simple::Yellow.fg_code()
    }

    open spec fn bg_code(&self) -> Seq<char> {
        Simple::Yellow.bg_code()
    }

    open spec fn spec_level(&self) -> ColorLevel {
        ColorLevel::Simple
    }

    open spec fn spec_rgb_u8(&self) -> (u8, u8, u8) {
        (0xAA, 0xAA, 0)
    }

    fn fmt_fg(&self, f: &mut String) {
        Simple::Yellow.fmt_fg(f);
    }

    fn fmt_bg(&self, f: &mut String) {
        Simple::Yellow.fmt_bg(f);
    }

    fn level(&self) -> ColorLevel {
        ColorLevel::Simple
    }

    fn rgb_u8(&self) -> (rgb: (u8, u8, u8)) {
        let rgb: (u8, u8, u8) = (0xAA, 0xAA, 0);
        assert(rgb == self.spec_rgb_u8());
        rgb
    }
}

impl ToSimple for Yellow {
    open spec fn spec_to_simple(&self) -> Simple {
        Simple::Yellow
    }

    fn to_simple(&self) -> Simple {
        Simple::Yellow
    }
}

impl ToEightBit for Yellow {
    open spec fn spec_to_eight_bit(&self) -> EightBit {
        Simple::Yellow.spec_to_eight_bit()
    }

    #[inline]
    fn to_eight_bit(&self) -> EightBit {
        Simple::Yellow.to_eight_bit()
    }
}

impl From<Yellow> for Simple {
    fn from(_color: Yellow) -> (simple: Self) {
        Simple::Yellow
    }
}

impl FromSpecImpl<Yellow> for Simple {
    open spec fn obeys_from_spec() -> bool {
        true
    }

    open spec fn from_spec(_color: Yellow) -> Self {
        Simple::Yellow
    }
}

impl From<&Yellow> for Simple {
    fn from(_color: &Yellow) -> (simple: Self) {
        Simple::Yellow
    }
}

impl FromSpecImpl<&Yellow> for Simple {
    open spec fn obeys_from_spec() -> bool {
        true
    }

    open spec fn from_spec(_color: &Yellow) -> Self {
        Simple::Yellow
    }
}

impl Color for Blue {
    open spec fn fg_code(&self) -> Seq<char> {
        Simple::Blue.fg_code()
    }

    open spec fn bg_code(&self) -> Seq<char> {
        Simple::Blue.bg_code()
    }

    open spec fn spec_level(&self) -> ColorLevel {
        ColorLevel::Simple
    }

    open spec fn spec_rgb_u8(&self) -> (u8, u8, u8) {
        (0, 0, 0xAA)
    }

    fn fmt_fg(&self, f: &mut String) {
        Simple::Blue.fmt_fg(f);
    }

    fn fmt_bg(&self, f: &mut String) {
        Simple::Blue.fmt_bg(f);
    }

    fn level(&self) -> ColorLevel {
        ColorLevel::Simple
    }

    fn rgb_u8(&self) -> (rgb: (u8, u8, u8)) {
        let rgb: (u8, u8, u8) = (0, 0, 0xAA);
        assert(rgb == self.spec_rgb_u8());
        rgb
    }
}

impl ToSimple for Blue {
    open spec fn spec_to_simple(&self) -> Simple {
        Simple::Blue
    }

    fn to_simple(&self) -> Simple {
        Simple::Blue
    }
}

impl ToEightBit for Blue {
    open spec fn spec_to_eight_bit(&self) -> EightBit {
        Simple::Blue.spec_to_eight_bit()
    }

    #[inline]
    fn to_eight_bit(&self) -> EightBit {
        Simple::Blue.to_eight_bit()
    }
}

impl From<Blue> for Simple {
    fn from(_color: Blue) -> (simple: Self) {
        Simple::Blue
    }
}

impl FromSpecImpl<Blue> for Simple {
    open spec fn obeys_from_spec() -> bool {
        true
    }

    open spec fn from_spec(_color: Blue) -> Self {
        Simple::Blue
    }
}

impl From<&Blue> for Simple {
    fn from(_color: &Blue) -> (simple: Self) {
        Simple::Blue
    }
}

impl FromSpecImpl<&Blue> for Simple {
    open spec fn obeys_from_spec() -> bool {
        true
    }

    open spec fn from_spec(_color: &Blue) -> Self {
        Simple::Blue
    }
}

impl Color for Magenta {
    open spec fn fg_code(&self) -> Seq<char> {
        Simple::Magenta.fg_code()
    }

    open spec fn bg_code(&self) -> Seq<char> {
        Simple::Magenta.bg_code()
    }

    open spec fn spec_level(&self) -> ColorLevel {
        ColorLevel::Simple
    }

    open spec fn spec_rgb_u8(&self) -> (u8, u8, u8) {
        (0xAA, 0, 0xAA)
    }

    fn fmt_fg(&self, f: &mut String) {
        Simple::Magenta.fmt_fg(f);
    }

    fn fmt_bg(&self, f: &mut String) {
        Simple::Magenta.fmt_bg(f);
    }

    fn level(&self) -> ColorLevel {
        ColorLevel::Simple
    }

    fn rgb_u8(&self) -> (rgb: (u8, u8, u8)) {
        let rgb: (u8, u8, u8) = (0xAA, 0, 0xAA);
        assert(rgb == self.spec_rgb_u8());
        rgb
    }
}

impl ToSimple for Magenta {
    open spec fn spec_to_simple(&self) -> Simple {
        Simple::Magenta
    }

    fn to_simple(&self) -> Simple {
        Simple::Magenta
    }
}

impl ToEightBit for Magenta {
    open spec fn spec_to_eight_bit(&self) -> EightBit {
        Simple::Magenta.spec_to_eight_bit()
    }

    #[inline]
    fn to_eight_bit(&self) -> EightBit {
        Simple::Magenta.to_eight_bit()
    }
}

impl From<Magenta> for Simple {
    fn from(_color: Magenta) -> (simple: Self) {
        Simple::Magenta
    }
}

impl FromSpecImpl<Magenta> for Simple {
    open spec fn obeys_from_spec() -> bool {
        true
    }

    open spec fn from_spec(_color: Magenta) -> Self {
        Simple::Magenta
    }
}

impl From<&Magenta> for Simple {
    fn from(_color: &Magenta) -> (simple: Self) {
        Simple::Magenta
    }
}

impl FromSpecImpl<&Magenta> for Simple {
    open spec fn obeys_from_spec() -> bool {
        true
    }

    open spec fn from_spec(_color: &Magenta) -> Self {
        Simple::Magenta
    }
}

impl Color for Cyan {
    open spec fn fg_code(&self) -> Seq<char> {
        Simple::Cyan.fg_code()
    }

    open spec fn bg_code(&self) -> Seq<char> {
        Simple::Cyan.bg_code()
    }

    open spec fn spec_level(&self) -> ColorLevel {
        ColorLevel::Simple
    }

    open spec fn spec_rgb_u8(&self) -> (u8, u8, u8) {
        (0, 0xAA, 0xAA)
    }

    fn fmt_fg(&self, f: &mut String) {
        Simple::Cyan.fmt_fg(f);
    }

    fn fmt_bg(&self, f: &mut String) {
        Simple::Cyan.fmt_bg(f);
    }

    fn level(&self) -> ColorLevel {
        ColorLevel::Simple
    }

    fn rgb_u8(&self) -> (rgb: (u8, u8, u8)) {
        let rgb: (u8, u8, u8) = (0, 0xAA, 0xAA);
        assert(rgb == self.spec_rgb_u8());
        rgb
    }
}

impl ToSimple for Cyan {
    open spec fn spec_to_simple(&self) -> Simple {
        Simple::Cyan
    }

    fn to_simple(&self) -> Simple {
        Simple::Cyan
    }
}

impl ToEightBit for Cyan {
    open spec fn spec_to_eight_bit(&self) -> EightBit {
        Simple::Cyan.spec_to_eight_bit()
    }

    #[inline]
    fn to_eight_bit(&self) -> EightBit {
        Simple::Cyan.to_eight_bit()
    }
}

impl From<Cyan> for Simple {
    fn from(_color: Cyan) -> (simple: Self) {
        Simple::Cyan
    }
}

impl FromSpecImpl<Cyan> for Simple {
    open spec fn obeys_from_spec() -> bool {
        true
    }

    open spec fn from_spec(_color: Cyan) -> Self {
        Simple::Cyan
    }
}

impl From<&Cyan> for Simple {
    fn from(_color: &Cyan) -> (simple: Self) {
        Simple::Cyan
    }
}

impl FromSpecImpl<&Cyan> for Simple {
    open spec fn obeys_from_spec() -> bool {
        true
    }

    open spec fn from_spec(_color: &Cyan) -> Self {
        Simple::Cyan
    }
}

impl Color for White {
    open spec fn fg_code(&self) -> Seq<char> {
        Simple::White.fg_code()
    }

    open spec fn bg_code(&self) -> Seq<char> {
        Simple::White.bg_code()
    }

    open spec fn spec_level(&self) -> ColorLevel {
        ColorLevel::Simple
    }

    open spec fn spec_rgb_u8(&self) -> (u8, u8, u8) {
        (0xAA, 0xAA, 0xAA)
    }

    fn fmt_fg(&self, f: &mut String) {
        Simple::White.fmt_fg(f);
    }

    fn fmt_bg(&self, f: &mut String) {
        Simple::White.fmt_bg(f);
    }

    fn level(&self) -> ColorLevel {
        ColorLevel::Simple
    }

    fn rgb_u8(&self) -> (rgb: (u8, u8, u8)) {
        let rgb: (u8, u8, u8) = (0xAA, 0xAA, 0xAA);
        assert(rgb == self.spec_rgb_u8());
        rgb
    }
}

impl ToSimple for White {
    open spec fn spec_to_simple(&self) -> Simple {
        Simple::White
    }

    fn to_simple(&self) -> Simple {
        Simple::White
    }
}

impl ToEightBit for White {
    open spec fn spec_to_eight_bit(&self) -> EightBit {
        Simple::White.spec_to_eight_bit()
    }

    #[inline]
    fn to_eight_bit(&self) -> EightBit {
        Simple::White.to_eight_bit()
    }
}

impl From<White> for Simple {
    fn from(_color: White) -> (simple: Self) {
        Simple::White
    }
}

impl FromSpecImpl<White> for Simple {
    open spec fn obeys_from_spec() -> bool {
        true
    }

    open spec fn from_spec(_color: White) -> Self {
        Simple::White
    }
}

impl From<&White> for Simple {
    fn from(_color: &White) -> (simple: Self) {
        Simple::White
    }
}

impl FromSpecImpl<&White> for Simple {
    open spec fn obeys_from_spec() -> bool {
        true
    }

    open spec fn from_spec(_color: &White) -> Self {
        Simple::White
    }
}

impl Color for BrightBlack {
    open spec fn fg_code(&self) -> Seq<char> {
        Simple::BrightBlack.fg_code()
    }

    open spec fn bg_code(&self) -> Seq<char> {
        Simple::BrightBlack.bg_code()
    }

    open spec fn spec_level(&self) -> ColorLevel {
        ColorLevel::Simple
    }

    open spec fn spec_rgb_u8(&self) -> (u8, u8, u8) {
        (0x55, 0x55, 0x55)
    }

    fn fmt_fg(&self, f: &mut String) {
        Simple::BrightBlack.fmt_fg(f);
    }

    fn fmt_bg(&self, f: &mut String) {
        Simple::BrightBlack.fmt_bg(f);
    }

    fn level(&self) -> ColorLevel {
        ColorLevel::Simple
    }

    fn rgb_u8(&self) -> (rgb: (u8, u8, u8)) {
        let rgb: (u8, u8, u8) = (0x55, 0x55, 0x55);
        assert(rgb == self.spec_rgb_u8());
        rgb
    }
}

impl ToSimple for BrightBlack {
    open spec fn spec_to_simple(&self) -> Simple {
        Simple::BrightBlack
    }

    fn to_simple(&self) -> Simple {
        Simple::BrightBlack
    }
}

impl ToEightBit for BrightBlack {
    open spec fn spec_to_eight_bit(&self) -> EightBit {
        Simple::BrightBlack.spec_to_eight_bit()
    }

    #[inline]
    fn to_eight_bit(&self) -> EightBit {
        Simple::BrightBlack.to_eight_bit()
    }
}

impl From<BrightBlack> for Simple {
    fn from(_color: BrightBlack) -> (simple: Self) {
        Simple::BrightBlack
    }
}

impl FromSpecImpl<BrightBlack> for Simple {
    open spec fn obeys_from_spec() -> bool {
        true
    }

    open spec fn from_spec(_color: BrightBlack) -> Self {
        Simple::BrightBlack
    }
}

impl From<&BrightBlack> for Simple {
    fn from(_color: &BrightBlack) -> (simple: Self) {
        Simple::BrightBlack
    }
}

impl FromSpecImpl<&BrightBlack> for Simple {
    open spec fn obeys_from_spec() -> bool {
        true
    }

    open spec fn from_spec(_color: &BrightBlack) -> Self {
        Simple::BrightBlack
    }
}

impl Color for BrightRed {
    open spec fn fg_code(&self) -> Seq<char> {
        Simple::BrightRed.fg_code()
    }

    open spec fn bg_code(&self) -> Seq<char> {
        Simple::BrightRed.bg_code()
    }

    open spec fn spec_level(&self) -> ColorLevel {
        ColorLevel::Simple
    }

    open spec fn spec_rgb_u8(&self) -> (u8, u8, u8) {
        (0xFF, 0x55, 0x55)
    }

    fn fmt_fg(&self, f: &mut String) {
        Simple::BrightRed.fmt_fg(f);
    }

    fn fmt_bg(&self, f: &mut String) {
        Simple::BrightRed.fmt_bg(f);
    }

    fn level(&self) -> ColorLevel {
        ColorLevel::Simple
    }

    fn rgb_u8(&self) -> (rgb: (u8, u8, u8)) {
        let rgb: (u8, u8, u8) = (0xFF, 0x55, 0x55);
        assert(rgb == self.spec_rgb_u8());
        rgb
    }
}

impl ToSimple for BrightRed {
    open spec fn spec_to_simple(&self) -> Simple {
        Simple::BrightRed
    }

    fn to_simple(&self) -> Simple {
        Simple::BrightRed
    }
}

impl ToEightBit for BrightRed {
    open spec fn spec_to_eight_bit(&self) -> EightBit {
        Simple::BrightRed.spec_to_eight_bit()
    }

    #[inline]
    fn to_eight_bit(&self) -> EightBit {
        Simple::BrightRed.to_eight_bit()
    }
}

impl From<BrightRed> for Simple {
    fn from(_color: BrightRed) -> (simple: Self) {
        Simple::BrightRed
    }
}

impl FromSpecImpl<BrightRed> for Simple {
    open spec fn obeys_from_spec() -> bool {
        true
    }

    open spec fn from_spec(_color: BrightRed) -> Self {
        Simple::BrightRed
    }
}

impl From<&BrightRed> for Simple {
    fn from(_color: &BrightRed) -> (simple: Self) {
        Simple::BrightRed
    }
}

impl FromSpecImpl<&BrightRed> for Simple {
    open spec fn obeys_from_spec() -> bool {
        true
    }

    open spec fn from_spec(_color: &BrightRed) -> Self {
        Simple::BrightRed
    }
}

impl Color for BrightGreen {
    open spec fn fg_code(&self) -> Seq<char> {
        Simple::BrightGreen.fg_code()
    }

    open spec fn bg_code(&self) -> Seq<char> {
        Simple::BrightGreen.bg_code()
    }

    open spec fn spec_level(&self) -> ColorLevel {
        ColorLevel::Simple
    }

    open spec fn spec_rgb_u8(&self) -> (u8, u8, u8) {
        (0x55, 0xFF, 0x55)
    }

    fn fmt_fg(&self, f: &mut String) {
        Simple::BrightGreen.fmt_fg(f);
    }

    fn fmt_bg(&self, f: &mut String) {
        Simple::BrightGreen.fmt_bg(f);
    }

    fn level(&self) -> ColorLevel {
        ColorLevel::Simple
    }

    fn rgb_u8(&self) -> (rgb: (u8, u8, u8)) {
        let rgb: (u8, u8, u8) = (0x55, 0xFF, 0x55);
        assert(rgb == self.spec_rgb_u8());
        rgb
    }
}

impl ToSimple for BrightGreen {
    open spec fn spec_to_simple(&self) -> Simple {
        Simple::BrightGreen
    }

    fn to_simple(&self) -> Simple {
        Simple::BrightGreen
    }
}

impl ToEightBit for BrightGreen {
    open spec fn spec_to_eight_bit(&self) -> EightBit {
        Simple::BrightGreen.spec_to_eight_bit()
    }

    #[inline]
    fn to_eight_bit(&self) -> EightBit {
        Simple::BrightGreen.to_eight_bit()
    }
}

impl From<BrightGreen> for Simple {
    fn from(_color: BrightGreen) -> (simple: Self) {
        Simple::BrightGreen
    }
}

impl FromSpecImpl<BrightGreen> for Simple {
    open spec fn obeys_from_spec() -> bool {
        true
    }

    open spec fn from_spec(_color: BrightGreen) -> Self {
        Simple::BrightGreen
    }
}

impl From<&BrightGreen> for Simple {
    fn from(_color: &BrightGreen) -> (simple: Self) {
        Simple::BrightGreen
    }
}

impl FromSpecImpl<&BrightGreen> for Simple {
    open spec fn obeys_from_spec() -> bool {
        true
    }

    open spec fn from_spec(_color: &BrightGreen) -> Self {
        Simple::BrightGreen
    }
}

impl Color for BrightYellow {
    open spec fn fg_code(&self) -> Seq<char> {
        Simple::BrightYellow.fg_code()
    }

    open spec fn bg_code(&self) -> Seq<char> {
        Simple::BrightYellow.bg_code()
    }

    open spec fn spec_level(&self) -> ColorLevel {
        ColorLevel::Simple
    }

    open spec fn spec_rgb_u8(&self) -> (u8, u8, u8) {
        (0xFF, 0xFF, 0x55)
    }

    fn fmt_fg(&self, f: &mut String) {
        Simple::BrightYellow.fmt_fg(f);
    }

    fn fmt_bg(&self, f: &mut String) {
        Simple::BrightYellow.fmt_bg(f);
    }

    fn level(&self) -> ColorLevel {
        ColorLevel::Simple
    }

    fn rgb_u8(&self) -> (rgb: (u8, u8, u8)) {
        let rgb: (u8, u8, u8) = (0xFF, 0xFF, 0x55);
        assert(rgb == self.spec_rgb_u8());
        rgb
    }
}

impl ToSimple for BrightYellow {
    open spec fn spec_to_simple(&self) -> Simple {
        Simple::BrightYellow
    }

    fn to_simple(&self) -> Simple {
        Simple::BrightYellow
    }
}

impl ToEightBit for BrightYellow {
    open spec fn spec_to_eight_bit(&self) -> EightBit {
        Simple::BrightYellow.spec_to_eight_bit()
    }

    #[inline]
    fn to_eight_bit(&self) -> EightBit {
        Simple::BrightYellow.to_eight_bit()
    }
}

impl From<BrightYellow> for Simple {
    fn from(_color: BrightYellow) -> (simple: Self) {
        Simple::BrightYellow
    }
}

impl FromSpecImpl<BrightYellow> for Simple {
    open spec fn obeys_from_spec() -> bool {
        true
    }

    open spec fn from_spec(_color: BrightYellow) -> Self {
        Simple::BrightYellow
    }
}

impl From<&BrightYellow> for Simple {
    fn from(_color: &BrightYellow) -> (simple: Self) {
        Simple::BrightYellow
    }
}

impl FromSpecImpl<&BrightYellow> for Simple {
    open spec fn obeys_from_spec() -> bool {
        true
    }

    open spec fn from_spec(_color: &BrightYellow) -> Self {
        Simple::BrightYellow
    }
}

impl Color for BrightBlue {
    open spec fn fg_code(&self) -> Seq<char> {
        Simple::BrightBlue.fg_code()
    }

    open spec fn bg_code(&self) -> Seq<char> {
        Simple::BrightBlue.bg_code()
    }

    open spec fn spec_level(&self) -> ColorLevel {
        ColorLevel::Simple
    }

    open spec fn spec_rgb_u8(&self) -> (u8, u8, u8) {
        (0x55, 0x55, 0xFF)
    }

    fn fmt_fg(&self, f: &mut String) {
        Simple::BrightBlue.fmt_fg(f);
    }

    fn fmt_bg(&self, f: &mut String) {
        Simple::BrightBlue.fmt_bg(f);
    }

    fn level(&self) -> ColorLevel {
        ColorLevel::Simple
    }

    fn rgb_u8(&self) -> (rgb: (u8, u8, u8)) {
        let rgb: (u8, u8, u8) = (0x55, 0x55, 0xFF);
        assert(rgb == self.spec_rgb_u8());
        rgb
    }
}

impl ToSimple for BrightBlue {
    open spec fn spec_to_simple(&self) -> Simple {
        Simple::BrightBlue
    }

    fn to_simple(&self) -> Simple {
        Simple::BrightBlue
    }
}

impl ToEightBit for BrightBlue {
    open spec fn spec_to_eight_bit(&self) -> EightBit {
        Simple::BrightBlue.spec_to_eight_bit()
    }

    #[inline]
    fn to_eight_bit(&self) -> EightBit {
        Simple::BrightBlue.to_eight_bit()
    }
}

impl From<BrightBlue> for Simple {
    fn from(_color: BrightBlue) -> (simple: Self) {
        Simple::BrightBlue
    }
}

impl FromSpecImpl<BrightBlue> for Simple {
    open spec fn obeys_from_spec() -> bool {
        true
    }

    open spec fn from_spec(_color: BrightBlue) -> Self {
        Simple::BrightBlue
    }
}

impl From<&BrightBlue> for Simple {
    fn from(_color: &BrightBlue) -> (simple: Self) {
        Simple::BrightBlue
    }
}

impl FromSpecImpl<&BrightBlue> for Simple {
    open spec fn obeys_from_spec() -> bool {
        true
    }

    open spec fn from_spec(_color: &BrightBlue) -> Self {
        Simple::BrightBlue
    }
}

impl Color for BrightMagenta {
    open spec fn fg_code(&self) -> Seq<char> {
        Simple::BrightMagenta.fg_code()
    }

    open spec fn bg_code(&self) -> Seq<char> {
        Simple::BrightMagenta.bg_code()
    }

    open spec fn spec_level(&self) -> ColorLevel {
        ColorLevel::Simple
    }

    open spec fn spec_rgb_u8(&self) -> (u8, u8, u8) {
        (0xFF, 0x55, 0xFF)
    }

    fn fmt_fg(&self, f: &mut String) {
        Simple::BrightMagenta.fmt_fg(f);
    }

    fn fmt_bg(&self, f: &mut String) {
        Simple::BrightMagenta.fmt_bg(f);
    }

    fn level(&self) -> ColorLevel {
        ColorLevel::Simple
    }

    fn rgb_u8(&self) -> (rgb: (u8, u8, u8)) {
        let rgb: (u8, u8, u8) = (0xFF, 0x55, 0xFF);
        assert(rgb == self.spec_rgb_u8());
        rgb
    }
}

impl ToSimple for BrightMagenta {
    open spec fn spec_to_simple(&self) -> Simple {
        Simple::BrightMagenta
    }

    fn to_simple(&self) -> Simple {
        Simple::BrightMagenta
    }
}

impl ToEightBit for BrightMagenta {
    open spec fn spec_to_eight_bit(&self) -> EightBit {
        Simple::BrightMagenta.spec_to_eight_bit()
    }

    #[inline]
    fn to_eight_bit(&self) -> EightBit {
        Simple::BrightMagenta.to_eight_bit()
    }
}

impl From<BrightMagenta> for Simple {
    fn from(_color: BrightMagenta) -> (simple: Self) {
        Simple::BrightMagenta
    }
}

impl FromSpecImpl<BrightMagenta> for Simple {
    open spec fn obeys_from_spec() -> bool {
        true
    }

    open spec fn from_spec(_color: BrightMagenta) -> Self {
        Simple::BrightMagenta
    }
}

impl From<&BrightMagenta> for Simple {
    fn from(_color: &BrightMagenta) -> (simple: Self) {
        Simple::BrightMagenta
    }
}

impl FromSpecImpl<&BrightMagenta> for Simple {
    open spec fn obeys_from_spec() -> bool {
        true
    }

    open spec fn from_spec(_color: &BrightMagenta) -> Self {
        Simple::BrightMagenta
    }
}

impl Color for BrightCyan {
    open spec fn fg_code(&self) -> Seq<char> {
        Simple::BrightCyan.fg_code()
    }

    open spec fn bg_code(&self) -> Seq<char> {
        Simple::BrightCyan.bg_code()
    }

    open spec fn spec_level(&self) -> ColorLevel {
        ColorLevel::Simple
    }

    open spec fn spec_rgb_u8(&self) -> (u8, u8, u8) {
        (0x55, 0xFF, 0xFF)
    }

    fn fmt_fg(&self, f: &mut String) {
        Simple::BrightCyan.fmt_fg(f);
    }

    fn fmt_bg(&self, f: &mut String) {
        Simple::BrightCyan.fmt_bg(f);
    }

    fn level(&self) -> ColorLevel {
        ColorLevel::Simple
    }

    fn rgb_u8(&self) -> (rgb: (u8, u8, u8)) {
        let rgb: (u8, u8, u8) = (0x55, 0xFF, 0xFF);
        assert(rgb == self.spec_rgb_u8());
        rgb
    }
}

impl ToSimple for BrightCyan {
    open spec fn spec_to_simple(&self) -> Simple {
        Simple::BrightCyan
    }

    fn to_simple(&self) -> Simple {
        Simple::BrightCyan
    }
}

impl ToEightBit for BrightCyan {
    open spec fn spec_to_eight_bit(&self) -> EightBit {
        Simple::BrightCyan.spec_to_eight_bit()
    }

    #[inline]
    fn to_eight_bit(&self) -> EightBit {
        Simple::BrightCyan.to_eight_bit()
    }
}

impl From<BrightCyan> for Simple {
    fn from(_color: BrightCyan) -> (simple: Self) {
        Simple::BrightCyan
    }
}

impl FromSpecImpl<BrightCyan> for Simple {
    open spec fn obeys_from_spec() -> bool {
        true
    }

    open spec fn from_spec(_color: BrightCyan) -> Self {
        Simple::BrightCyan
    }
}

impl From<&BrightCyan> for Simple {
    fn from(_color: &BrightCyan) -> (simple: Self) {
        Simple::BrightCyan
    }
}

impl FromSpecImpl<&BrightCyan> for Simple {
    open spec fn obeys_from_spec() -> bool {
        true
    }

    open spec fn from_spec(_color: &BrightCyan) -> Self {
        Simple::BrightCyan
    }
}

impl Color for BrightWhite {
    open spec fn fg_code(&self) -> Seq<char> {
        Simple::BrightWhite.fg_code()
    }

    open spec fn bg_code(&self) -> Seq<char> {
        Simple::BrightWhite.bg_code()
    }

    open spec fn spec_level(&self) -> ColorLevel {
        ColorLevel::Simple
    }

    open spec fn spec_rgb_u8(&self) -> (u8, u8, u8) {
        (0xFF, 0xFF, 0xFF)
    }

    fn fmt_fg(&self, f: &mut String) {
        Simple::BrightWhite.fmt_fg(f);
    }

    fn fmt_bg(&self, f: &mut String) {
        Simple::BrightWhite.fmt_bg(f);
    }

    fn level(&self) -> ColorLevel {
        ColorLevel::Simple
    }

    fn rgb_u8(&self) -> (rgb: (u8, u8, u8)) {
        let rgb: (u8, u8, u8) = (0xFF, 0xFF, 0xFF);
        assert(rgb == self.spec_rgb_u8());
        rgb
    }
}

impl ToSimple for BrightWhite {
    open spec fn spec_to_simple(&self) -> Simple {
        Simple::BrightWhite
    }

    fn to_simple(&self) -> Simple {
        Simple::BrightWhite
    }
}

impl ToEightBit for BrightWhite {
    open spec fn spec_to_eight_bit(&self) -> EightBit {
        Simple::BrightWhite.spec_to_eight_bit()
    }

    #[inline]
    fn to_eight_bit(&self) -> EightBit {
        Simple::BrightWhite.to_eight_bit()
    }
}

impl From<BrightWhite> for Simple {
    fn from(_color: BrightWhite) -> (simple: Self) {
        Simple::BrightWhite
    }
}

impl FromSpecImpl<BrightWhite> for Simple {
    open spec fn obeys_from_spec() -> bool {
        true
    }

    open spec fn from_spec(_color: BrightWhite) -> Self {
        Simple::BrightWhite
    }
}

impl From<&BrightWhite> for Simple {
    fn from(_color: &BrightWhite) -> (simple: Self) {
        Simple::BrightWhite
    }
}

impl FromSpecImpl<&BrightWhite> for Simple {
    open spec fn obeys_from_spec() -> bool {
        true
    }

    open spec fn from_spec(_color: &BrightWhite) -> Self {
        Simple::BrightWhite
    }
}

/// For channels that are each off (`0x00`), dim (`0xAA`) or full (`0xFF`),
/// the closest simple color has the hue of the channels that are on, and is
/// bright exactly where some channel is full.
pub proof fn lemma_closest_of_palette_channels(r: u8, g: u8, b: u8)
    requires
        r == 0x00 || r == 0xAA || r == 0xFF,
        g == 0x00 || g == 0xAA || g == 0xFF,
        b == 0x00 || b == 0xAA || b == 0xFF,
    ensures
        Simple::spec_closest(r, g, b) == Simple::from_index(
            (if r != 0 { 1int } else { 0 }) + (if g != 0 { 2int } else { 0 }) + (if b != 0 {
                4int
            } else {
                0
            }) + (if r == 0xFF || g == 0xFF || b == 0xFF { 8int } else { 0 }),
        ),
{
    assert(((r | g | b) >= 0xC0) == (r == 0xFF || g == 0xFF || b == 0xFF)) by (bit_vector)
        requires
            r == 0x00 || r == 0xAA || r == 0xFF,
            g == 0x00 || g == 0xAA || g == 0xFF,
            b == 0x00 || b == 0xAA || b == 0xFF,
    ;
}

/// Every simple color but bright black is the closest simple color to its
/// own RGB value. Bright black is too dark to count as bright: the closest
/// simple color to its RGB value is black.
pub proof fn lemma_closest_of_own_rgb(color: Simple)
    ensures
        ({
            let (r, g, b) = color.spec_rgb_u8();
            Simple::spec_closest(r, g, b) == if color == Simple::BrightBlack {
                Simple::Black
            } else {
                color
            }
        }),
{
    let (r, g, b) = color.spec_rgb_u8();
    assert(((r | g | b) >= 0xC0) == (r == 0xFF || g == 0xFF || b == 0xFF)) by (bit_vector)
        requires
            (r == 0x00 || r == 0xAA) && (g == 0x00 || g == 0xAA) && (b == 0x00 || b == 0xAA) || (r
                == 0x55 || r == 0xFF) && (g == 0x55 || g == 0xFF) && (b == 0x55 || b == 0xFF),
    ;
}

} // verus!
