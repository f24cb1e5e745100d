use crate::color_support::ColorSupport;
use vstd::prelude::*;

verus! {

/// Like `Display`, but checks for color support. It disables any coloring or
/// styling that isn't supported.
pub trait DisplayWithExact {
    /// The text that the value renders as on a terminal with the given
    /// support, when nothing is ever converted.
    spec fn exact_text(&self, supported: ColorSupport) -> Seq<char>;

    /// Formats the value, checking for color support. If the color is not
    /// supported, the value is formatted without color.
    fn fmt_exact(&self, supported: ColorSupport, f: &mut String)
        ensures
            final(f)@ == old(f)@ + self.exact_text(supported),
    ;

    /// Converts to a type that is suitable for display. Only shows the color
    /// if it is supported.
    fn display_exact(self, supported: ColorSupport) -> (shown: DisplayExact<Self>) where
        Self: Sized,

        ensures
            shown.inner == self,
            shown.support == supported,
    {
        DisplayExact { inner: self, support: supported }
    }
}

/// Like `Display`, but checks for color support. If the coloring or styling
/// isn't supported, it converts to coloring or styling that *is* supported.
pub trait DisplayWithFallback {
    /// The text that the value renders as on a terminal with the given
    /// support, when unsupported colors are converted to supported ones.
    spec fn fallback_text(&self, supported: ColorSupport) -> Seq<char>;

    /// Formats the value, checking for color support. If the color is not
    /// supported, it will try to convert to a color that is supported.
    fn fmt_fallback(&self, supported: ColorSupport, f: &mut String)
        ensures
            final(f)@ == old(f)@ + self.fallback_text(supported),
    ;

    /// Converts to a type that is suitable for display. Will try to convert
    /// to a color that is supported.
    fn display_fallback(self, supported: ColorSupport) -> (shown: DisplayFallback<Self>) where
        Self: Sized,

        ensures
            shown.inner == self,
            shown.support == supported,
    {
        DisplayFallback { inner: self, support: supported }
    }
}

impl DisplayWithExact for str {
    /// A raw `str` is its own text, whatever the support.
    open spec fn exact_text(&self, supported: ColorSupport) -> Seq<char> {
        self@
    }

    /// Formats the value, never checking for color support, because a raw
    /// `str` does not need to check for color support.
    fn fmt_exact(&self, _supported: ColorSupport, f: &mut String) {
        f.append(self);
    }
}

impl DisplayWithFallback for str {
    /// A raw `str` is its own text, whatever the support.
    open spec fn fallback_text(&self, supported: ColorSupport) -> Seq<char> {
        self@
    }

    /// Formats the value, never checking for color support, because a raw
    /// `str` does not need to check for color support.
    fn fmt_fallback(&self, _supported: ColorSupport, f: &mut String) {
        f.append(self);
    }
}

impl DisplayWithExact for &str {
    /// A raw `str` is its own text, whatever the support.
    open spec fn exact_text(&self, supported: ColorSupport) -> Seq<char> {
        self@
    }

    /// Formats the value, never checking for color support, because a raw
    /// `str` does not need to check for color support.
    fn fmt_exact(&self, _supported: ColorSupport, f: &mut String) {
        f.append(*self);
    }
}

impl DisplayWithFallback for &str {
    /// A raw `str` is its own text, whatever the support.
    open spec fn fallback_text(&self, supported: ColorSupport) -> Seq<char> {
        self@
    }

    /// Formats the value, never checking for color support, because a raw
    /// `str` does not need to check for color support.
    fn fmt_fallback(&self, _supported: ColorSupport, f: &mut String) {
        f.append(*self);
    }
}

/// A type suitable for displaying values. Wraps a `DisplayWithExact` with a
/// `ColorSupport`. Only shows the color if it is supported.
pub struct DisplayExact<D: DisplayWithExact> {
    pub inner: D,
    pub support: ColorSupport,
}

impl<D: DisplayWithExact> DisplayExact<D> {
    /// The text that is displayed.
    pub open spec fn text(&self) -> Seq<char> {
        self.inner.exact_text(self.support)
    }

    /// Writes the displayed text to `f`.
    pub fn fmt(&self, f: &mut String)
        ensures
            final(f)@ == old(f)@ + self.text(),
    {
        self.inner.fmt_exact(self.support, f);
    }

    /// The displayed text as a string.
    pub fn to_string(&self) -> (text: String)
        ensures
            text@ == self.text(),
    {
        let mut text = String::new();
        self.fmt(&mut text);
        assert(text@ =~= self.text());
        text
    }
}

/// A type suitable for displaying values. Wraps a `DisplayWithFallback` with
/// a `ColorSupport`. Will try to convert to a color that is supported.
pub struct DisplayFallback<D: DisplayWithFallback> {
    pub inner: D,
    pub support: ColorSupport,
}

impl<D: DisplayWithFallback> DisplayFallback<D> {
    /// The text that is displayed.
    pub open spec fn text(&self) -> Seq<char> {
        self.inner.fallback_text(self.support)
    }

    /// Writes the displayed text to `f`.
    pub fn fmt(&self, f: &mut String)
        ensures
            final(f)@ == old(f)@ + self.text(),
    {
        self.inner.fmt_fallback(self.support, f);
    }

    /// The displayed text as a string.
    pub fn to_string(&self) -> (text: String)
        ensures
            text@ == self.text(),
    {
        let mut text = String::new();
        self.fmt(&mut text);
        assert(text@ =~= self.text());
        text
    }
}

/// Text that is wrapped in nothing renders as itself, whatever the support
/// and with conversion or without.
pub proof fn lemma_bare_text_is_unchanged(content: &str, supported: ColorSupport)
    ensures
        content.exact_text(supported) == content@,
        content.fallback_text(supported) == content@,
        (DisplayExact { inner: content, support: supported }).text() == content@,
        (DisplayFallback { inner: content, support: supported }).text() == content@,
{
}

} // verus!
