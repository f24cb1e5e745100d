//! Text styles.
use crate::style::Style;
use vstd::prelude::*;
use vstd::std_specs::convert::FromSpecImpl;

verus! {

/// The bold style.
pub struct Bold;

/// The dim style.
pub struct Dim;

/// The italic style.
pub struct Italic;

/// The underline style.
pub struct Underline;

/// The strike style.
pub struct Strike;

/// Unifies styles into one value.
pub enum Styles {
    Bold,
    Dim,
    Italic,
    Underline,
    Strike,
}

impl Style for Bold {
    open spec fn style_code(&self) -> Seq<char> {
        seq!['1']
    }

    fn fmt_style(&self, f: &mut String) {
        proof {
            reveal_strlit("1");
        }
        f.append("1");
        assert(f@ =~= old(f)@ + seq!['1']);
    }
}

impl Style for Dim {
    open spec fn style_code(&self) -> Seq<char> {
        seq!['2']
    }

    fn fmt_style(&self, f: &mut String) {
        proof {
            reveal_strlit("2");
        }
        f.append("2");
        assert(f@ =~= old(f)@ + seq!['2']);
    }
}

impl Style for Italic {
    open spec fn style_code(&self) -> Seq<char> {
        seq!['3']
    }

    fn fmt_style(&self, f: &mut String) {
        proof {
            reveal_strlit("3");
        }
        f.append("3");
        assert(f@ =~= old(f)@ + seq!['3']);
    }
}

impl Style for Underline {
    open spec fn style_code(&self) -> Seq<char> {
        seq!['4']
    }

    fn fmt_style(&self, f: &mut String) {
        proof {
            reveal_strlit("4");
        }
        f.append("4");
        assert(f@ =~= old(f)@ + seq!['4']);
    }
}

impl Style for Strike {
    open spec fn style_code(&self) -> Seq<char> {
        seq!['9']
    }

    fn fmt_style(&self, f: &mut String) {
        proof {
            reveal_strlit("9");
        }
        f.append("9");
        assert(f@ =~= old(f)@ + seq!['9']);
    }
}

impl Style for Styles {
    open spec fn style_code(&self) -> Seq<char> {
        match self {
            Styles::Bold => Bold.style_code(),
            Styles::Dim => Dim.style_code(),
            Styles::Italic => Italic.style_code(),
            Styles::Underline => Underline.style_code(),
            Styles::Strike => Strike.style_code(),
        }
    }

    fn fmt_style(&self, f: &mut String) {
        match self {
            Styles::Bold => Bold.fmt_style(f),
            Styles::Dim => Dim.fmt_style(f),
            Styles::Italic => Italic.fmt_style(f),
            Styles::Underline => Underline.fmt_style(f),
            Styles::Strike => Strike.fmt_style(f),
        }
    }
}

impl From<&Bold> for Styles {
    fn from(_style: &Bold) -> (styles: Self) {
        Styles::Bold
    }
}

impl FromSpecImpl<&Bold> for Styles {
    open spec fn obeys_from_spec() -> bool {
        true
    }

    open spec fn from_spec(_style: &Bold) -> Self {
        Styles::Bold
    }
}

impl From<Bold> for Styles {
    fn from(_style: Bold) -> (styles: Self) {
        Styles::Bold
    }
}

impl FromSpecImpl<Bold> for Styles {
    open spec fn obeys_from_spec() -> bool {
        true
    }

    open spec fn from_spec(_style: Bold) -> Self {
        Styles::Bold
    }
}

impl From<&Dim> for Styles {
    fn from(_style: &Dim) -> (styles: Self) {
        Styles::Dim
    }
}

impl FromSpecImpl<&Dim> for Styles {
    open spec fn obeys_from_spec() -> bool {
        true
    }

    open spec fn from_spec(_style: &Dim) -> Self {
        Styles::Dim
    }
}

impl From<Dim> for Styles {
    fn from(_style: Dim) -> (styles: Self) {
        Styles::Dim
    }
}

impl FromSpecImpl<Dim> for Styles {
    open spec fn obeys_from_spec() -> bool {
        true
    }

    open spec fn from_spec(_style: Dim) -> Self {
        Styles::Dim
    }
}

impl From<&Italic> for Styles {
    fn from(_style: &Italic) -> (styles: Self) {
        Styles::Italic
    }
}

impl FromSpecImpl<&Italic> for Styles {
    open spec fn obeys_from_spec() -> bool {
        true
    }

    open spec fn from_spec(_style: &Italic) -> Self {
        Styles::Italic
    }
}

impl From<Italic> for Styles {
    fn from(_style: Italic) -> (styles: Self) {
        Styles::Italic
    }
}

impl FromSpecImpl<Italic> for Styles {
    open spec fn obeys_from_spec() -> bool {
        true
    }

    open spec fn from_spec(_style: Italic) -> Self {
        Styles::Italic
    }
}

impl From<&Underline> for Styles {
    fn from(_style: &Underline) -> (styles: Self) {
        Styles::Underline
    }
}

impl FromSpecImpl<&Underline> for Styles {
    open spec fn obeys_from_spec() -> bool {
        true
    }

    open spec fn from_spec(_style: &Underline) -> Self {
        Styles::Underline
    }
}

impl From<Underline> for Styles {
    fn from(_style: Underline) -> (styles: Self) {
        Styles::Underline
    }
}

impl FromSpecImpl<Underline> for Styles {
    open spec fn obeys_from_spec() -> bool {
        true
    }

    open spec fn from_spec(_style: Underline) -> Self {
        Styles::Underline
    }
}

impl From<&Strike> for Styles {
    fn from(_style: &Strike) -> (styles: Self) {
        Styles::Strike
    }
}

impl FromSpecImpl<&Strike> for Styles {
    open spec fn obeys_from_spec() -> bool {
        true
    }

    open spec fn from_spec(_style: &Strike) -> Self {
        Styles::Strike
    }
}

impl From<Strike> for Styles {
    fn from(_style: Strike) -> (styles: Self) {
        Styles::Strike
    }
}

impl FromSpecImpl<Strike> for Styles {
    open spec fn obeys_from_spec() -> bool {
        true
    }

    open spec fn from_spec(_style: Strike) -> Self {
        Styles::Strike
    }
}

} // verus!
