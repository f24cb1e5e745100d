use crate::color::Color;
use crate::color_level::ColorLevel;
use crate::color_support::ColorSupport;
use crate::colors::{EightBit, Simple};
use crate::config::{get_color_support, get_convert_to_supported, Config};
use crate::conversion::{ToEightBit, ToSimple};
use crate::display::{DisplayWithExact, DisplayWithFallback};
use crate::text::{decorated, push_sgr_end, push_sgr_reset, push_sgr_start, sgr};
use vstd::prelude::*;

verus! {

/// What a node does with its color when it is rendered.
pub enum Rendition {
    /// It writes nothing of its own: only what it wraps is rendered.
    Plain,
    /// It writes the color's own code.
    Own,
    /// It writes the code of the color converted to a simple color.
    AsSimple,
    /// It writes the code of the color converted to an eight-bit color.
    AsEightBit,
}

/// The decision for a color that needs `required` on a terminal that
/// supports `supported`, when nothing is ever converted: the color is
/// written where it is supported and left out where it is not.
pub open spec fn exact_rendition(required: ColorLevel, supported: ColorSupport) -> Rendition {
    if supported.rank() >= required.rank() {
        Rendition::Own
    } else {
        Rendition::Plain
    }
}

/// The decision for a color that needs `required` on a terminal that
/// supports `supported`, when unsupported colors are converted: a supported
/// color is written as it is, without any support nothing is written, and
/// otherwise the color is converted to the highest level that is supported.
pub open spec fn fallback_rendition(required: ColorLevel, supported: ColorSupport) -> Rendition {
    if supported.rank() >= required.rank() {
        Rendition::Own
    } else if supported == ColorSupport::NoColor {
        Rendition::Plain
    } else if supported == ColorSupport::Simple {
        Rendition::AsSimple
    } else {
        Rendition::AsEightBit
    }
}

/// Whether the color is in the foreground or the background.
pub enum ColorZone<C: Color> {
    Fg(C),
    Bg(C),
}

impl<C: Color> ColorZone<C> {
    /// The color, whatever the zone.
    pub open spec fn color(&self) -> C {
        match self {
            ColorZone::Fg(color) => *color,
            ColorZone::Bg(color) => *color,
        }
    }

    /// The same zone with another color.
    pub open spec fn with<T: Color>(&self, color: T) -> ColorZone<T> {
        match self {
            ColorZone::Fg(_) => ColorZone::Fg(color),
            ColorZone::Bg(_) => ColorZone::Bg(color),
        }
    }

    /// The SGR parameters that select the color for its zone.
    pub open spec fn code(&self) -> Seq<char> {
        match self {
            ColorZone::Fg(color) => color.fg_code(),
            ColorZone::Bg(color) => color.bg_code(),
        }
    }

    /// The level that the color needs.
    #[inline]
    pub fn level(&self) -> (level: ColorLevel)
        ensures
            level == self.color().spec_level(),
    {
        let color = match self {
            ColorZone::Fg(color) => color,
            ColorZone::Bg(color) => color,
        };
        color.level()
    }

    /// Writes the escape sequence that selects the color for its zone.
    #[inline]
    pub fn fmt(&self, f: &mut String)
        ensures
            final(f)@ == old(f)@ + sgr(self.code()),
    {
        push_sgr_start(f);
        match self {
            ColorZone::Fg(color) => {
                color.fmt_fg(f);
            },
            ColorZone::Bg(color) => {
                color.fmt_bg(f);
            },
        }
        push_sgr_end(f);
        assert(f@ =~= old(f)@ + sgr(self.code()));
    }

    /// Helper to map one color zone to another color zone without consuming
    /// it.
    pub fn map_borrow<T: Color, F: FnOnce(&C) -> T>(&self, f: F) -> (mapped: ColorZone<T>)
        requires
            call_requires(f, (&self.color(),)),
        ensures
            mapped == self.with(mapped.color()),
            call_ensures(f, (&self.color(),), mapped.color()),
    {
        match self {
            ColorZone::Fg(c) => ColorZone::Fg(f(c)),
            ColorZone::Bg(c) => ColorZone::Bg(f(c)),
        }
    }
}

/// Wraps a value that can be colorized.
pub struct Colorizer<C: Color, D> {
    pub color: ColorZone<C>,
    pub value: D,
}

impl<C: Color, D> Colorizer<C, D> {
    /// Wraps the displayable value with a foreground color.
    pub fn foreground(value: D, color: C) -> (colorizer: Self)
        ensures
            colorizer == (Colorizer { color: ColorZone::Fg(color), value }),
    {
        Colorizer { color: ColorZone::Fg(color), value }
    }

    /// Wraps the displayable value with a background color.
    pub fn background(value: D, color: C) -> (colorizer: Self)
        ensures
            colorizer == (Colorizer { color: ColorZone::Bg(color), value }),
    {
        Colorizer { color: ColorZone::Bg(color), value }
    }
}

impl<C: Color, D: DisplayWithExact> DisplayWithExact for Colorizer<C, D> {
    /// The wrapped value's text, between the color's code and a reset where
    /// the color is supported, and bare where it is not.
    open spec fn exact_text(&self, supported: ColorSupport) -> Seq<char> {
        let body = self.value.exact_text(supported);
        match exact_rendition(self.color.color().spec_level(), supported) {
            Rendition::Own => decorated(self.color.code(), body),
            _ => body,
        }
    }

    /// Displays the contained value, including the color *if it is
    /// supported.*
    fn fmt_exact(&self, supported: ColorSupport, f: &mut String) {
        let level = self.color.level();
        let level: ColorSupport = level.into();
        let is_supported = supported >= level;
        if is_supported {
            self.color.fmt(f);
        }
        self.value.fmt_exact(supported, f);
        if is_supported {
            push_sgr_reset(f);
        }
        assert(f@ =~= old(f)@ + self.exact_text(supported));
    }
}

impl<
    C: Color + ToSimple + ToEightBit,
    D: DisplayWithFallback,
> DisplayWithFallback for Colorizer<C, D> {
    /// The wrapped value's text, between a color code and a reset wherever
    /// the terminal supports any color: the color's own code where it is
    /// supported, else the code of the color converted to what is supported.
    open spec fn fallback_text(&self, supported: ColorSupport) -> Seq<char> {
        let body = self.value.fallback_text(supported);
        let color = self.color.color();
        match fallback_rendition(color.spec_level(), supported) {
            Rendition::Plain => body,
            Rendition::Own => decorated(self.color.code(), body),
            Rendition::AsSimple => decorated(self.color.with(color.spec_to_simple()).code(), body),
            Rendition::AsEightBit => decorated(
                self.color.with(color.spec_to_eight_bit()).code(),
                body,
            ),
        }
    }

    /// Displays the contained value, and tries to fall back to a color that
    /// is supported.
    fn fmt_fallback(&self, supported: ColorSupport, f: &mut String) {
        let level = self.color.level();
        match (supported, level) {
            (ColorSupport::NoColor, _) => self.value.fmt_fallback(supported, f),
            // NOTE Since True is the highest level, we can avoid conversion for all branches.
            (ColorSupport::True, _)
            | (ColorSupport::EightBit, ColorLevel::EightBit)
            | (ColorSupport::EightBit, ColorLevel::Simple)
            | (ColorSupport::Simple, ColorLevel::Simple) => {
                self.color.fmt(f);
                self.value.fmt_fallback(supported, f);
                push_sgr_reset(f);
            },
            (ColorSupport::Simple, ColorLevel::EightBit)
            | (ColorSupport::Simple, ColorLevel::True) => {
                let convert = |c: &C| -> (simple: Simple)
                    ensures
                        simple == c.spec_to_simple(),
                {
                    c.to_simple()
                };
                let color = self.color.map_borrow(convert);
                color.fmt(f);
                self.value.fmt_fallback(supported, f);
                push_sgr_reset(f);
            },
            (ColorSupport::EightBit, ColorLevel::True) => {
                let convert = |c: &C| -> (eight_bit: EightBit)
                    ensures
                        eight_bit == c.spec_to_eight_bit(),
                {
                    c.to_eight_bit()
                };
                let color = self.color.map_borrow(convert);
                color.fmt(f);
                self.value.fmt_fallback(supported, f);
                push_sgr_reset(f);
            },
        }
        assert(f@ =~= old(f)@ + self.fallback_text(supported));
    }
}

impl<
    C: Color + ToSimple + ToEightBit,
    D: DisplayWithExact + DisplayWithFallback,
> Colorizer<C, D> {
    /// The text that the node renders as under a configuration: with
    /// conversion where the configuration asks for it, without where not.
    pub open spec fn text(&self, config: &Config) -> Seq<char> {
        if config.fallback() {
            self.fallback_text(config.support())
        } else {
            self.exact_text(config.support())
        }
    }

    /// Writes the node as the configuration asks for it.
    pub fn fmt(&self, config: &Config, f: &mut String)
        ensures
            final(f)@ == old(f)@ + self.text(config),
    {
        let support = get_color_support(config);
        let should_fallback = get_convert_to_supported(config);

        if should_fallback {
            self.fmt_fallback(support, f)
        } else {
            self.fmt_exact(support, f)
        }
    }

    /// The node as the configuration asks for it, as a string.
    pub fn to_string(&self, config: &Config) -> (text: String)
        ensures
            text@ == self.text(config),
    {
        let mut text = String::new();
        self.fmt(config, &mut text);
        assert(text@ =~= self.text(config));
        text
    }
}

/// Without any color support a colored node renders as what it wraps, with
/// conversion and without.
pub proof fn lemma_no_color_is_plain<
    C: Color + ToSimple + ToEightBit,
    D: DisplayWithExact + DisplayWithFallback,
>(node: Colorizer<C, D>)
    ensures
        node.exact_text(ColorSupport::NoColor) == node.value.exact_text(ColorSupport::NoColor),
        node.fallback_text(ColorSupport::NoColor) == node.value.fallback_text(
            ColorSupport::NoColor,
        ),
{
}

/// Without any color support a colored piece of bare text renders as the
/// text itself, whatever the configuration says about conversion.
pub proof fn lemma_no_color_on_bare_text<C: Color + ToSimple + ToEightBit>(
    node: Colorizer<C, &str>,
    config: Config,
)
    requires
        config.support() == ColorSupport::NoColor,
    ensures
        node.text(&config) == node.value@,
{
}

/// Without conversion, a color that the terminal does not support is left
/// out: the node renders as what it wraps.
pub proof fn lemma_exact_unsupported_is_plain<C: Color, D: DisplayWithExact>(
    node: Colorizer<C, D>,
    supported: ColorSupport,
)
    requires
        supported.rank() < node.color.color().spec_level().rank(),
    ensures
        node.exact_text(supported) == node.value.exact_text(supported),
{
}

/// A color that the terminal supports is written with its own code, with
/// conversion and without.
pub proof fn lemma_supported_is_own<
    C: Color + ToSimple + ToEightBit,
    D: DisplayWithExact + DisplayWithFallback,
>(node: Colorizer<C, D>, supported: ColorSupport)
    requires
        supported.rank() >= node.color.color().spec_level().rank(),
    ensures
        node.exact_text(supported) == decorated(
            node.color.code(),
            node.value.exact_text(supported),
        ),
        node.fallback_text(supported) == decorated(
            node.color.code(),
            node.value.fallback_text(supported),
        ),
{
}

/// On a terminal with simple colors only, a node with a color above that
/// level renders with conversion exactly as the same node with the color
/// converted to a simple color.
pub proof fn lemma_fallback_as_simple<C: Color + ToSimple + ToEightBit, D: DisplayWithFallback>(
    node: Colorizer<C, D>,
)
    requires
        node.color.color().spec_level() != ColorLevel::Simple,
    ensures
        node.fallback_text(ColorSupport::Simple) == (Colorizer {
            color: node.color.with(node.color.color().spec_to_simple()),
            value: node.value,
        }).fallback_text(ColorSupport::Simple),
{
}

/// On a terminal with eight-bit colors, a node with a true color renders
/// with conversion exactly as the same node with the color converted to an
/// eight-bit color.
pub proof fn lemma_fallback_as_eight_bit<
    C: Color + ToSimple + ToEightBit,
    D: DisplayWithFallback,
>(node: Colorizer<C, D>)
    requires
        node.color.color().spec_level() == ColorLevel::True,
    ensures
        node.fallback_text(ColorSupport::EightBit) == (Colorizer {
            color: node.color.with(node.color.color().spec_to_eight_bit()),
            value: node.value,
        }).fallback_text(ColorSupport::EightBit),
{
}

} // verus!
