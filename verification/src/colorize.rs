use crate::color::Color;
use crate::colorizer::{ColorZone, Colorizer};
use crate::colors::{simple, EightBit, True};
use crate::display::{DisplayWithExact, DisplayWithFallback};
use vstd::prelude::*;

verus! {

/// The main trait to allow a type to be colored.
pub trait Colorize: DisplayWithExact + DisplayWithFallback + Sized {
    /// Provides text coloring.
    fn color<C: Color>(self, color: C) -> (colorizer: Colorizer<C, Self>)
        ensures
            colorizer == (Colorizer { color: ColorZone::Fg(color), value: self }),
    {
        Colorizer::foreground(self, color)
    }

    /// Provides background coloring.
    fn on_color<C: Color>(self, color: C) -> (colorizer: Colorizer<C, Self>)
        ensures
            colorizer == (Colorizer { color: ColorZone::Bg(color), value: self }),
    {
        Colorizer::background(self, color)
    }

    /// Makes the text black.
    fn black(self) -> (colorizer: Colorizer<simple::Black, Self>)
        ensures
            colorizer == (Colorizer { color: ColorZone::Fg(simple::Black), value: self }),
    {
        self.color(simple::Black)
    }

    /// Makes the text red.
    fn red(self) -> (colorizer: Colorizer<simple::Red, Self>)
        ensures
            colorizer == (Colorizer { color: ColorZone::Fg(simple::Red), value: self }),
    {
        self.color(simple::Red)
    }

    /// Makes the text green.
    fn green(self) -> (colorizer: Colorizer<simple::Green, Self>)
        ensures
            colorizer == (Colorizer { color: ColorZone::Fg(simple::Green), value: self }),
    {
        self.color(simple::Green)
    }

    /// Makes the text blue.
    fn blue(self) -> (colorizer: Colorizer<simple::Blue, Self>)
        ensures
            colorizer == (Colorizer { color: ColorZone::Fg(simple::Blue), value: self }),
    {
        self.color(simple::Blue)
    }

    /// Makes the text yellow.
    fn yellow(self) -> (colorizer: Colorizer<simple::Yellow, Self>)
        ensures
            colorizer == (Colorizer { color: ColorZone::Fg(simple::Yellow), value: self }),
    {
        self.color(simple::Yellow)
    }

    /// Makes the text cyan.
    fn cyan(self) -> (colorizer: Colorizer<simple::Cyan, Self>)
        ensures
            colorizer == (Colorizer { color: ColorZone::Fg(simple::Cyan), value: self }),
    {
        self.color(simple::Cyan)
    }

    /// Makes the text magenta.
    fn magenta(self) -> (colorizer: Colorizer<simple::Magenta, Self>)
        ensures
            colorizer == (Colorizer { color: ColorZone::Fg(simple::Magenta), value: self }),
    {
        self.color(simple::Magenta)
    }

    /// Makes the text white.
    fn white(self) -> (colorizer: Colorizer<simple::White, Self>)
        ensures
            colorizer == (Colorizer { color: ColorZone::Fg(simple::White), value: self }),
    {
        self.color(simple::White)
    }

    /// Makes the background black.
    fn on_black(self) -> (colorizer: Colorizer<simple::Black, Self>)
        ensures
            colorizer == (Colorizer { color: ColorZone::Bg(simple::Black), value: self }),
    {
        self.on_color(simple::Black)
    }

    /// Makes the background red.
    fn on_red(self) -> (colorizer: Colorizer<simple::Red, Self>)
        ensures
            colorizer == (Colorizer { color: ColorZone::Bg(simple::Red), value: self }),
    {
        self.on_color(simple::Red)
    }

    /// Makes the background green.
    fn on_green(self) -> (colorizer: Colorizer<simple::Green, Self>)
        ensures
            colorizer == (Colorizer { color: ColorZone::Bg(simple::Green), value: self }),
    {
        self.on_color(simple::Green)
    }

    /// Makes the background blue.
    fn on_blue(self) -> (colorizer: Colorizer<simple::Blue, Self>)
        ensures
            colorizer == (Colorizer { color: ColorZone::Bg(simple::Blue), value: self }),
    {
        self.on_color(simple::Blue)
    }

    /// Makes the background yellow.
    fn on_yellow(self) -> (colorizer: Colorizer<simple::Yellow, Self>)
        ensures
            colorizer == (Colorizer { color: ColorZone::Bg(simple::Yellow), value: self }),
    {
        self.on_color(simple::Yellow)
    }

    /// Makes the background cyan.
    fn on_cyan(self) -> (colorizer: Colorizer<simple::Cyan, Self>)
        ensures
            colorizer == (Colorizer { color: ColorZone::Bg(simple::Cyan), value: self }),
    {
        self.on_color(simple::Cyan)
    }

    /// Makes the background magenta.
    fn on_magenta(self) -> (colorizer: Colorizer<simple::Magenta, Self>)
        ensures
            colorizer == (Colorizer { color: ColorZone::Bg(simple::Magenta), value: self }),
    {
        self.on_color(simple::Magenta)
    }

    /// Makes the background white.
    fn on_white(self) -> (colorizer: Colorizer<simple::White, Self>)
        ensures
            colorizer == (Colorizer { color: ColorZone::Bg(simple::White), value: self }),
    {
        self.on_color(simple::White)
    }

    /// Makes the text bright black.
    fn bright_black(self) -> (colorizer: Colorizer<simple::BrightBlack, Self>)
        ensures
            colorizer == (Colorizer { color: ColorZone::Fg(simple::BrightBlack), value: self }),
    {
        self.color(simple::BrightBlack)
    }

    /// Makes the text bright red.
    fn bright_red(self) -> (colorizer: Colorizer<simple::BrightRed, Self>)
        ensures
            colorizer == (Colorizer { color: ColorZone::Fg(simple::BrightRed), value: self }),
    {
        self.color(simple::BrightRed)
    }

    /// Makes the text bright green.
    fn bright_green(self) -> (colorizer: Colorizer<simple::BrightGreen, Self>)
        ensures
            colorizer == (Colorizer { color: ColorZone::Fg(simple::BrightGreen), value: self }),
    {
        self.color(simple::BrightGreen)
    }

    /// Makes the text bright blue.
    fn bright_blue(self) -> (colorizer: Colorizer<simple::BrightBlue, Self>)
        ensures
            colorizer == (Colorizer { color: ColorZone::Fg(simple::BrightBlue), value: self }),
    {
        self.color(simple::BrightBlue)
    }

    /// Makes the text bright yellow.
    fn bright_yellow(self) -> (colorizer: Colorizer<simple::BrightYellow, Self>)
        ensures
            colorizer == (Colorizer { color: ColorZone::Fg(simple::BrightYellow), value: self }),
    {
        self.color(simple::BrightYellow)
    }

    /// Makes the text bright cyan.
    fn bright_cyan(self) -> (colorizer: Colorizer<simple::BrightCyan, Self>)
        ensures
            colorizer == (Colorizer { color: ColorZone::Fg(simple::BrightCyan), value: self }),
    {
        self.color(simple::BrightCyan)
    }

    /// Makes the text bright magenta.
    fn bright_magenta(self) -> (colorizer: Colorizer<simple::BrightMagenta, Self>)
        ensures
            colorizer == (Colorizer { color: ColorZone::Fg(simple::BrightMagenta), value: self }),
    {
        self.color(simple::BrightMagenta)
    }

    /// Makes the text bright white.
    fn bright_white(self) -> (colorizer: Colorizer<simple::BrightWhite, Self>)
        ensures
            colorizer == (Colorizer { color: ColorZone::Fg(simple::BrightWhite), value: self }),
    {
        self.color(simple::BrightWhite)
    }

    /// Makes the background bright black.
    fn on_bright_black(self) -> (colorizer: Colorizer<simple::BrightBlack, Self>)
        ensures
            colorizer == (Colorizer { color: ColorZone::Bg(simple::BrightBlack), value: self }),
    {
        self.on_color(simple::BrightBlack)
    }

    /// Makes the background bright red.
    fn on_bright_red(self) -> (colorizer: Colorizer<simple::BrightRed, Self>)
        ensures
            colorizer == (Colorizer { color: ColorZone::Bg(simple::BrightRed), value: self }),
    {
        self.on_color(simple::BrightRed)
    }

    /// Makes the background bright green.
    fn on_bright_green(self) -> (colorizer: Colorizer<simple::BrightGreen, Self>)
        ensures
            colorizer == (Colorizer { color: ColorZone::Bg(simple::BrightGreen), value: self }),
    {
        self.on_color(simple::BrightGreen)
    }

    /// Makes the background bright blue.
    fn on_bright_blue(self) -> (colorizer: Colorizer<simple::BrightBlue, Self>)
        ensures
            colorizer == (Colorizer { color: ColorZone::Bg(simple::BrightBlue), value: self }),
    {
        self.on_color(simple::BrightBlue)
    }

    /// Makes the background bright yellow.
    fn on_bright_yellow(self) -> (colorizer: Colorizer<simple::BrightYellow, Self>)
        ensures
            colorizer == (Colorizer { color: ColorZone::Bg(simple::BrightYellow), value: self }),
    {
        self.on_color(simple::BrightYellow)
    }

    /// Makes the background bright cyan.
    fn on_bright_cyan(self) -> (colorizer: Colorizer<simple::BrightCyan, Self>)
        ensures
            colorizer == (Colorizer { color: ColorZone::Bg(simple::BrightCyan), value: self }),
    {
        self.on_color(simple::BrightCyan)
    }

    /// Makes the background bright magenta.
    fn on_bright_magenta(self) -> (colorizer: Colorizer<simple::BrightMagenta, Self>)
        ensures
            colorizer == (Colorizer { color: ColorZone::Bg(simple::BrightMagenta), value: self }),
    {
        self.on_color(simple::BrightMagenta)
    }

    /// Makes the background bright white.
    fn on_bright_white(self) -> (colorizer: Colorizer<simple::BrightWhite, Self>)
        ensures
            colorizer == (Colorizer { color: ColorZone::Bg(simple::BrightWhite), value: self }),
    {
        self.on_color(simple::BrightWhite)
    }

    /// Sets the text to a color according to the 8-bit lookup table.
    fn eight_bit(self, lookup: u8) -> (colorizer: Colorizer<EightBit, Self>)
        ensures
            colorizer == (Colorizer { color: ColorZone::Fg(EightBit(lookup)), value: self }),
    {
        self.color(EightBit(lookup))
    }

    /// Sets the background to a color according to the 8-bit lookup table.
    fn on_eight_bit(self, lookup: u8) -> (colorizer: Colorizer<EightBit, Self>)
        ensures
            colorizer == (Colorizer { color: ColorZone::Bg(EightBit(lookup)), value: self }),
    {
        self.on_color(EightBit(lookup))
    }

    /// Sets text to a true color.
    fn rgb(self, r: u8, g: u8, b: u8) -> (colorizer: Colorizer<True, Self>)
        ensures
            colorizer == (Colorizer { color: ColorZone::Fg(True { r, g, b }), value: self }),
    {
        self.color(True::from_rgb(r, g, b))
    }

    /// Sets background to a true color.
    fn on_rgb(self, r: u8, g: u8, b: u8) -> (colorizer: Colorizer<True, Self>)
        ensures
            colorizer == (Colorizer { color: ColorZone::Bg(True { r, g, b }), value: self }),
    {
        self.on_color(True::from_rgb(r, g, b))
    }
}

impl<D: DisplayWithExact + DisplayWithFallback> Colorize for D {

}

} // verus!
