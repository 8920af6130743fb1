//! The calls into `termion`.
//!
//! Nothing in this file is proved: each function hands back what one function
//! of `termion` returns, and its contract repeats the literal that `termion`
//! builds for it.

use vstd::prelude::*;
use crate::sequence::decimal;

verus! {

/// `termion::color::Black::fg_str`: the literal `ESC [ 38 ; 5 ; 0 m`, which
/// selects palette entry 0 as the foreground.
#[verifier::external_body]
pub(crate) fn black_fg() -> (r: &'static str)
    ensures
        r@ == "\x1b[38;5;0m"@,
{
    termion::color::Black.fg_str()
}

/// `termion::color::Red::fg_str`: the literal `ESC [ 38 ; 5 ; 1 m`, which
/// selects palette entry 1 as the foreground.
#[verifier::external_body]
pub(crate) fn red_fg() -> (r: &'static str)
    ensures
        r@ == "\x1b[38;5;1m"@,
{
    termion::color::Red.fg_str()
}

/// `termion::color::Green::fg_str`: the literal `ESC [ 38 ; 5 ; 2 m`, which
/// selects palette entry 2 as the foreground.
#[verifier::external_body]
pub(crate) fn green_fg() -> (r: &'static str)
    ensures
        r@ == "\x1b[38;5;2m"@,
{
    termion::color::Green.fg_str()
}

/// `termion::color::Yellow::fg_str`: the literal `ESC [ 38 ; 5 ; 3 m`, which
/// selects palette entry 3 as the foreground.
#[verifier::external_body]
pub(crate) fn yellow_fg() -> (r: &'static str)
    ensures
        r@ == "\x1b[38;5;3m"@,
{
    termion::color::Yellow.fg_str()
}

/// `termion::color::Blue::fg_str`: the literal `ESC [ 38 ; 5 ; 4 m`, which
/// selects palette entry 4 as the foreground.
#[verifier::external_body]
pub(crate) fn blue_fg() -> (r: &'static str)
    ensures
        r@ == "\x1b[38;5;4m"@,
{
    termion::color::Blue.fg_str()
}

/// `termion::color::Magenta::fg_str`: the literal `ESC [ 38 ; 5 ; 5 m`, which
/// selects palette entry 5 as the foreground.
#[verifier::external_body]
pub(crate) fn magenta_fg() -> (r: &'static str)
    ensures
        r@ == "\x1b[38;5;5m"@,
{
    termion::color::Magenta.fg_str()
}

/// `termion::color::Cyan::fg_str`: the literal `ESC [ 38 ; 5 ; 6 m`, which
/// selects palette entry 6 as the foreground.
#[verifier::external_body]
pub(crate) fn cyan_fg() -> (r: &'static str)
    ensures
        r@ == "\x1b[38;5;6m"@,
{
    termion::color::Cyan.fg_str()
}

/// `termion::color::White::fg_str`: the literal `ESC [ 38 ; 5 ; 7 m`, which
/// selects palette entry 7 as the foreground.
#[verifier::external_body]
pub(crate) fn white_fg() -> (r: &'static str)
    ensures
        r@ == "\x1b[38;5;7m"@,
{
    termion::color::White.fg_str()
}

/// `termion::color::LightBlack::fg_str`: the literal `ESC [ 38 ; 5 ; 8 m`, which
/// selects palette entry 8 as the foreground.
#[verifier::external_body]
pub(crate) fn light_black_fg() -> (r: &'static str)
    ensures
        r@ == "\x1b[38;5;8m"@,
{
    termion::color::LightBlack.fg_str()
}

/// `termion::color::LightRed::fg_str`: the literal `ESC [ 38 ; 5 ; 9 m`, which
/// selects palette entry 9 as the foreground.
#[verifier::external_body]
pub(crate) fn light_red_fg() -> (r: &'static str)
    ensures
        r@ == "\x1b[38;5;9m"@,
{
    termion::color::LightRed.fg_str()
}

/// `termion::color::LightGreen::fg_str`: the literal `ESC [ 38 ; 5 ; 10 m`, which
/// selects palette entry 10 as the foreground.
#[verifier::external_body]
pub(crate) fn light_green_fg() -> (r: &'static str)
    ensures
        r@ == "\x1b[38;5;10m"@,
{
    termion::color::LightGreen.fg_str()
}

/// `termion::color::LightYellow::fg_str`: the literal `ESC [ 38 ; 5 ; 11 m`, which
/// selects palette entry 11 as the foreground.
#[verifier::external_body]
pub(crate) fn light_yellow_fg() -> (r: &'static str)
    ensures
        r@ == "\x1b[38;5;11m"@,
{
    termion::color::LightYellow.fg_str()
}

/// `termion::color::LightBlue::fg_str`: the literal `ESC [ 38 ; 5 ; 12 m`, which
/// selects palette entry 12 as the foreground.
#[verifier::external_body]
pub(crate) fn light_blue_fg() -> (r: &'static str)
    ensures
        r@ == "\x1b[38;5;12m"@,
{
    termion::color::LightBlue.fg_str()
}

/// `termion::color::LightMagenta::fg_str`: the literal `ESC [ 38 ; 5 ; 13 m`, which
/// selects palette entry 13 as the foreground.
#[verifier::external_body]
pub(crate) fn light_magenta_fg() -> (r: &'static str)
    ensures
        r@ == "\x1b[38;5;13m"@,
{
    termion::color::LightMagenta.fg_str()
}

/// `termion::color::LightCyan::fg_str`: the literal `ESC [ 38 ; 5 ; 14 m`, which
/// selects palette entry 14 as the foreground.
#[verifier::external_body]
pub(crate) fn light_cyan_fg() -> (r: &'static str)
    ensures
        r@ == "\x1b[38;5;14m"@,
{
    termion::color::LightCyan.fg_str()
}

/// `termion::color::LightWhite::fg_str`: the literal `ESC [ 38 ; 5 ; 15 m`, which
/// selects palette entry 15 as the foreground.
#[verifier::external_body]
pub(crate) fn light_white_fg() -> (r: &'static str)
    ensures
        r@ == "\x1b[38;5;15m"@,
{
    termion::color::LightWhite.fg_str()
}

/// `termion::color::Black::bg_str`: the literal `ESC [ 48 ; 5 ; 0 m`, which
/// selects palette entry 0 as the background.
#[verifier::external_body]
pub(crate) fn black_bg() -> (r: &'static str)
    ensures
        r@ == "\x1b[48;5;0m"@,
{
    termion::color::Black.bg_str()
}

/// `termion::color::Red::bg_str`: the literal `ESC [ 48 ; 5 ; 1 m`, which
/// selects palette entry 1 as the background.
#[verifier::external_body]
pub(crate) fn red_bg() -> (r: &'static str)
    ensures
        r@ == "\x1b[48;5;1m"@,
{
    termion::color::Red.bg_str()
}

/// `termion::color::Green::bg_str`: the literal `ESC [ 48 ; 5 ; 2 m`, which
/// selects palette entry 2 as the background.
#[verifier::external_body]
pub(crate) fn green_bg() -> (r: &'static str)
    ensures
        r@ == "\x1b[48;5;2m"@,
{
    termion::color::Green.bg_str()
}

/// `termion::color::Yellow::bg_str`: the literal `ESC [ 48 ; 5 ; 3 m`, which
/// selects palette entry 3 as the background.
#[verifier::external_body]
pub(crate) fn yellow_bg() -> (r: &'static str)
    ensures
        r@ == "\x1b[48;5;3m"@,
{
    termion::color::Yellow.bg_str()
}

/// `termion::color::Blue::bg_str`: the literal `ESC [ 48 ; 5 ; 4 m`, which
/// selects palette entry 4 as the background.
#[verifier::external_body]
pub(crate) fn blue_bg() -> (r: &'static str)
    ensures
        r@ == "\x1b[48;5;4m"@,
{
    termion::color::Blue.bg_str()
}

/// `termion::color::Magenta::bg_str`: the literal `ESC [ 48 ; 5 ; 5 m`, which
/// selects palette entry 5 as the background.
#[verifier::external_body]
pub(crate) fn magenta_bg() -> (r: &'static str)
    ensures
        r@ == "\x1b[48;5;5m"@,
{
    termion::color::Magenta.bg_str()
}

/// `termion::color::Cyan::bg_str`: the literal `ESC [ 48 ; 5 ; 6 m`, which
/// selects palette entry 6 as the background.
#[verifier::external_body]
pub(crate) fn cyan_bg() -> (r: &'static str)
    ensures
        r@ == "\x1b[48;5;6m"@,
{
    termion::color::Cyan.bg_str()
}

/// `termion::color::White::bg_str`: the literal `ESC [ 48 ; 5 ; 7 m`, which
/// selects palette entry 7 as the background.
#[verifier::external_body]
pub(crate) fn white_bg() -> (r: &'static str)
    ensures
        r@ == "\x1b[48;5;7m"@,
{
    termion::color::White.bg_str()
}

/// `termion::color::LightBlack::bg_str`: the literal `ESC [ 48 ; 5 ; 8 m`, which
/// selects palette entry 8 as the background.
#[verifier::external_body]
pub(crate) fn light_black_bg() -> (r: &'static str)
    ensures
        r@ == "\x1b[48;5;8m"@,
{
    termion::color::LightBlack.bg_str()
}

/// `termion::color::LightRed::bg_str`: the literal `ESC [ 48 ; 5 ; 9 m`, which
/// selects palette entry 9 as the background.
#[verifier::external_body]
pub(crate) fn light_red_bg() -> (r: &'static str)
    ensures
        r@ == "\x1b[48;5;9m"@,
{
    termion::color::LightRed.bg_str()
}

/// `termion::color::LightGreen::bg_str`: the literal `ESC [ 48 ; 5 ; 10 m`, which
/// selects palette entry 10 as the background.
#[verifier::external_body]
pub(crate) fn light_green_bg() -> (r: &'static str)
    ensures
        r@ == "\x1b[48;5;10m"@,
{
    termion::color::LightGreen.bg_str()
}

/// `termion::color::LightYellow::bg_str`: the literal `ESC [ 48 ; 5 ; 11 m`, which
/// selects palette entry 11 as the background.
#[verifier::external_body]
pub(crate) fn light_yellow_bg() -> (r: &'static str)
    ensures
        r@ == "\x1b[48;5;11m"@,
{
    termion::color::LightYellow.bg_str()
}

/// `termion::color::LightBlue::bg_str`: the literal `ESC [ 48 ; 5 ; 12 m`, which
/// selects palette entry 12 as the background.
#[verifier::external_body]
pub(crate) fn light_blue_bg() -> (r: &'static str)
    ensures
        r@ == "\x1b[48;5;12m"@,
{
    termion::color::LightBlue.bg_str()
}

/// `termion::color::LightMagenta::bg_str`: the literal `ESC [ 48 ; 5 ; 13 m`, which
/// selects palette entry 13 as the background.
#[verifier::external_body]
pub(crate) fn light_magenta_bg() -> (r: &'static str)
    ensures
        r@ == "\x1b[48;5;13m"@,
{
    termion::color::LightMagenta.bg_str()
}

/// `termion::color::LightCyan::bg_str`: the literal `ESC [ 48 ; 5 ; 14 m`, which
/// selects palette entry 14 as the background.
#[verifier::external_body]
pub(crate) fn light_cyan_bg() -> (r: &'static str)
    ensures
        r@ == "\x1b[48;5;14m"@,
{
    termion::color::LightCyan.bg_str()
}

/// `termion::color::LightWhite::bg_str`: the literal `ESC [ 48 ; 5 ; 15 m`, which
/// selects palette entry 15 as the background.
#[verifier::external_body]
pub(crate) fn light_white_bg() -> (r: &'static str)
    ensures
        r@ == "\x1b[48;5;15m"@,
{
    termion::color::LightWhite.bg_str()
}

/// `termion::color::Rgb::fg_string`: `ESC [ 38 ; 2 ;`, then the three components
/// as decimal numerals without leading zeros, separated by `;`, then `m`.
#[verifier::external_body]
pub(crate) fn rgb_fg(r: u8, g: u8, b: u8) -> (s: String)
    ensures
        s@ == "\x1b[38;2;"@ + decimal(r as nat) + ";"@ + decimal(g as nat) + ";"@ + decimal(
            b as nat,
        ) + "m"@,
{
    termion::color::Rgb(r, g, b).fg_string()
}

/// `termion::color::Rgb::bg_string`: `ESC [ 48 ; 2 ;`, then the three components
/// as decimal numerals without leading zeros, separated by `;`, then `m`.
#[verifier::external_body]
pub(crate) fn rgb_bg(r: u8, g: u8, b: u8) -> (s: String)
    ensures
        s@ == "\x1b[48;2;"@ + decimal(r as nat) + ";"@ + decimal(g as nat) + ";"@ + decimal(
            b as nat,
        ) + "m"@,
{
    termion::color::Rgb(r, g, b).bg_string()
}

/// `AsRef<str>` of `termion::style::Bold`: the literal `ESC [ 1m`, which
/// switches bold on.
#[verifier::external_body]
pub(crate) fn style_bold() -> (r: &'static str)
    ensures
        r@ == "\x1b[1m"@,
{
    termion::style::Bold.as_ref()
}

/// `AsRef<str>` of `termion::style::Italic`: the literal `ESC [ 3m`, which
/// switches italic on.
#[verifier::external_body]
pub(crate) fn style_italic() -> (r: &'static str)
    ensures
        r@ == "\x1b[3m"@,
{
    termion::style::Italic.as_ref()
}

/// `AsRef<str>` of `termion::style::Underline`: the literal `ESC [ 4m`, which
/// switches underline on.
#[verifier::external_body]
pub(crate) fn style_underline() -> (r: &'static str)
    ensures
        r@ == "\x1b[4m"@,
{
    termion::style::Underline.as_ref()
}

/// `AsRef<str>` of `termion::style::Reset`: the literal `ESC [ m`, which
/// clears every color and effect.
#[verifier::external_body]
pub(crate) fn style_reset() -> (r: &'static str)
    ensures
        r@ == "\x1b[m"@,
{
    termion::style::Reset.as_ref()
}

} // verus!
