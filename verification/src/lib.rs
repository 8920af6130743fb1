//! Styled text rendered as the escape sequences of `termion`.
//!
//! A styled string is a text together with an optional [`Style`]: a foreground
//! color, a background color and a set of effects. This crate turns such a
//! string into what a terminal expects: the sequences that switch the
//! formatting on, the text itself, and one sequence that clears all
//! formatting if any was switched on.
//!
//! Every sequence comes from `termion`. The formatting is always cleared with
//! `termion::style::Reset`, never with `termion::style::NoBold` and its
//! siblings, because some terminals do not honor those.
//!
//! [`render`] writes one styled string to a [`Sink`], [`render_iter`] writes
//! several, and [`Termion::termion`] gives a [`TermionStr`], which can be
//! written to a sink or turned into a `String`.

mod codes;
pub mod mapper;
pub mod output;
pub mod render;
pub mod sequence;
pub mod sink;
pub mod style;

pub use render::{render, render_iter, Termion, TermionStr};
pub use sequence::Role;
pub use sink::{Bounded, Full, Sink};
pub use style::{
    AnsiColor, AnsiMode, Color, Effect, Effects, Style, StyledStr, StyledString, StyledText,
};
