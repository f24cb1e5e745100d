use crate::display::{DisplayWithExact, DisplayWithFallback};
use crate::style::Style;
use crate::styler::Styler;
use crate::styles;
use vstd::prelude::*;

verus! {

/// The main trait to allow a type to be styled.
pub trait Stylize: DisplayWithExact + DisplayWithFallback + Sized {
    /// Provides styling.
    fn style<S: Style>(self, style: S) -> (styler: Styler<S, Self>)
        ensures
            styler == (Styler { style, value: self }),
    {
        Styler::new(self, style)
    }

    /// Makes the text bold.
    fn bold(self) -> (styler: Styler<styles::Bold, Self>)
        ensures
            styler == (Styler { style: styles::Bold, value: self }),
    {
        self.style(styles::Bold)
    }

    /// Makes the text dim.
    fn dim(self) -> (styler: Styler<styles::Dim, Self>)
        ensures
            styler == (Styler { style: styles::Dim, value: self }),
    {
        self.style(styles::Dim)
    }

    /// Italicizes the text.
    fn italic(self) -> (styler: Styler<styles::Italic, Self>)
        ensures
            styler == (Styler { style: styles::Italic, value: self }),
    {
        self.style(styles::Italic)
    }

    /// Underlines the text.
    fn underline(self) -> (styler: Styler<styles::Underline, Self>)
        ensures
            styler == (Styler { style: styles::Underline, value: self }),
    {
        self.style(styles::Underline)
    }

    /// Strikes through the text.
    fn strike(self) -> (styler: Styler<styles::Strike, Self>)
        ensures
            styler == (Styler { style: styles::Strike, value: self }),
    {
        self.style(styles::Strike)
    }

}

impl<D: DisplayWithExact + DisplayWithFallback> Stylize for D {

}

} // verus!
