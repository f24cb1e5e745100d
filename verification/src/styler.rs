use crate::color_support::ColorSupport;
use crate::config::{get_color_support, get_convert_to_supported, Config};
use crate::display::{DisplayWithExact, DisplayWithFallback};
use crate::style::Style;
use crate::text::{decorated, push_sgr_end, push_sgr_reset, push_sgr_start};
use vstd::prelude::*;

verus! {

/// `body` with the style code `code` around it where the terminal supports
/// any color at all, and bare where it supports none. Styles are never
/// converted.
pub open spec fn styled(code: Seq<char>, supported: ColorSupport, body: Seq<char>) -> Seq<char> {
    if supported.rank() >= ColorSupport::Simple.rank() {
        decorated(code, body)
    } else {
        body
    }
}

/// Wraps a value that can be styled.
pub struct Styler<S: Style, D> {
    pub style: S,
    pub value: D,
}

impl<S: Style, D> Styler<S, D> {
    /// Wraps the displayable value with a style.
    pub fn new(value: D, style: S) -> (styler: Self)
        ensures
            styler == (Styler { style, value }),
    {
        Styler { style, value }
    }

    /// Displays what `wrapped` writes, which is `body`, including the style
    /// if there's *any* color support.
    fn fmt_impl<F: FnOnce(&mut String)>(
        &self,
        supported: ColorSupport,
        f: &mut String,
        wrapped: F,
        Ghost(body): Ghost<Seq<char>>,
    )
        requires
            forall|g: &mut String| call_requires(wrapped, (g,)),
            forall|g: &mut String| call_ensures(wrapped, (g,), ()) ==> final(g)@ == g@ + body,
        ensures
            final(f)@ == old(f)@ + styled(self.style.style_code(), supported, body),
    {
        let level = self.style.level();
        let level: ColorSupport = level.into();
        let is_supported = supported >= level;
        if is_supported {
            push_sgr_start(f);
            self.style.fmt_style(f);
            push_sgr_end(f);
        }
        wrapped(f);
        if is_supported {
            push_sgr_reset(f);
        }
        assert(f@ =~= old(f)@ + styled(self.style.style_code(), supported, body));
    }
}

impl<S: Style, D: DisplayWithExact> DisplayWithExact for Styler<S, D> {
    /// The wrapped value's text, between the style's code and a reset where
    /// there is any color support.
    open spec fn exact_text(&self, supported: ColorSupport) -> Seq<char> {
        styled(self.style.style_code(), supported, self.value.exact_text(supported))
    }

    /// Displays the contained value, including the style if there's *any*
    /// color support.
    #[inline]
    fn fmt_exact(&self, supported: ColorSupport, f: &mut String) {
        let wrapped = |g: &mut String|
            ensures
                final(g)@ == old(g)@ + self.value.exact_text(supported),
        {
            self.value.fmt_exact(supported, g)
        };
        self.fmt_impl(supported, f, wrapped, Ghost(self.value.exact_text(supported)))
    }
}

impl<S: Style, D: DisplayWithFallback> DisplayWithFallback for Styler<S, D> {
    /// The wrapped value's text, between the style's code and a reset where
    /// there is any color support.
    open spec fn fallback_text(&self, supported: ColorSupport) -> Seq<char> {
        styled(self.style.style_code(), supported, self.value.fallback_text(supported))
    }

    /// Displays the contained value, including the style if there's *any*
    /// color support.
    #[inline]
    fn fmt_fallback(&self, supported: ColorSupport, f: &mut String) {
        let wrapped = |g: &mut String|
            ensures
                final(g)@ == old(g)@ + self.value.fallback_text(supported),
        {
            self.value.fmt_fallback(supported, g)
        };
        self.fmt_impl(supported, f, wrapped, Ghost(self.value.fallback_text(supported)))
    }
}

impl<S: Style, D: DisplayWithExact + DisplayWithFallback> Styler<S, D> {
    /// The text that the node renders as under a configuration: what it
    /// wraps is rendered with conversion where the configuration asks for
    /// it, without where not.
    pub open spec fn text(&self, config: &Config) -> Seq<char> {
        if config.fallback() {
            self.fallback_text(config.support())
        } else {
            self.exact_text(config.support())
        }
    }

    /// Writes the node as the configuration asks for it.
    pub fn fmt(&self, config: &Config, f: &mut String)
        ensures
            final(f)@ == old(f)@ + self.text(config),
    {
        let support = get_color_support(config);
        if get_convert_to_supported(config) {
            self.fmt_fallback(support, f)
        } else {
            self.fmt_exact(support, f)
        }
    }

    /// The node as the configuration asks for it, as a string.
    pub fn to_string(&self, config: &Config) -> (text: String)
        ensures
            text@ == self.text(config),
    {
        let mut text = String::new();
        self.fmt(config, &mut text);
        assert(text@ =~= self.text(config));
        text
    }
}

/// Without any color support a styled node renders as what it wraps, with
/// conversion and without.
pub proof fn lemma_no_color_is_unstyled<S: Style, D: DisplayWithExact + DisplayWithFallback>(
    node: Styler<S, D>,
)
    ensures
        node.exact_text(ColorSupport::NoColor) == node.value.exact_text(ColorSupport::NoColor),
        node.fallback_text(ColorSupport::NoColor) == node.value.fallback_text(
            ColorSupport::NoColor,
        ),
{
}

/// With any color support a styled node renders as what it wraps between
/// the style's code and a reset, with conversion and without.
pub proof fn lemma_any_color_is_styled<S: Style, D: DisplayWithExact + DisplayWithFallback>(
    node: Styler<S, D>,
    supported: ColorSupport,
)
    requires
        supported != ColorSupport::NoColor,
    ensures
        node.exact_text(supported) == decorated(
            node.style.style_code(),
            node.value.exact_text(supported),
        ),
        node.fallback_text(supported) == decorated(
            node.style.style_code(),
            node.value.fallback_text(supported),
        ),
{
}

} // verus!
