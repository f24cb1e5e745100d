//! Colors and styles for terminal text.
//!
//! A piece of text is wrapped in [`Colorizer`] and [`Styler`] nodes, and each
//! node decides at render time, from the terminal's [`ColorSupport`] and the
//! fallback policy, whether it writes its own escape code, the code of a
//! color downgraded to what the terminal can show, or nothing at all.
//!
//! Rendering is specified over `Seq<char>`: every node has a spec function
//! that gives the exact text it contributes, and the executable renderers are
//! proved to append exactly that text to the output buffer.
pub use color::{upcase_u16, upcase_u8, Color};
pub use color_level::ColorLevel;
pub use color_support::{
    env_is_true, env_support, env_to_bool, env_value_is_true, env_value_to_bool,
    term_env_support, term_value_support, ColorSupport,
};
pub use colorize::Colorize;
pub use colorizer::{
    exact_rendition, fallback_rendition, lemma_exact_unsupported_is_plain,
    lemma_fallback_as_eight_bit, lemma_fallback_as_simple, lemma_no_color_is_plain,
    lemma_no_color_on_bare_text, lemma_supported_is_own, ColorZone, Colorizer, Rendition,
};
pub use colors::Colors;
pub use display::{
    lemma_bare_text_is_unchanged, DisplayExact, DisplayFallback, DisplayWithExact,
    DisplayWithFallback,
};
pub use style::Style;
pub use styler::{lemma_any_color_is_styled, lemma_no_color_is_unstyled, styled, Styler};
pub use styles::Styles;
pub use stylize::Stylize;

mod color;
mod color_level;
mod color_support;
mod colorize;
mod colorizer;
pub mod colors;
pub mod config;
pub mod conversion;
mod display;
pub mod prelude;
mod style;
mod styler;
pub mod styles;
mod stylize;
pub mod text;
