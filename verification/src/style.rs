use crate::color_level::ColorLevel;
use vstd::prelude::*;

verus! {

/// Marks a type as being able to represent a style.
pub trait Style {
    /// The SGR parameter that switches this style on, without the `ESC [`
    /// at the start and the `m` at the end.
    spec fn style_code(&self) -> Seq<char>;

    /// Writes the ANSI text for text styling. Does not include the `\e[` at
    /// the start or the `m` at the end.
    fn fmt_style(&self, f: &mut String)
        ensures
            final(f)@ == old(f)@ + self.style_code(),
    ;

    /// Gets the color level. If there's *any* color support, there's also
    /// style support.
    fn level(&self) -> (level: ColorLevel)
        ensures
            level == ColorLevel::Simple,
    {
        ColorLevel::Simple
    }
}

} // verus!
