//! Re-exports the traits that add the colorization and styling methods to
//! strings.
pub use crate::{Colorize, DisplayWithExact, DisplayWithFallback, Stylize};
