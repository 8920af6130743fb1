//! From a color or an effect to the sequence that `termion` defines for it.

use std::borrow::Cow;
use vstd::prelude::*;
use crate::codes;
use crate::sequence::{
    ansi_sequence, color_sequence, decimal, effect_sequence, reset_sequence, rgb_sequence, Role,
};
use crate::style::{AnsiColor, AnsiMode, Color, Effect};

verus! {

/// The sixteen foreground literals of `termion` are the palette sequences
/// of the sixteen palette entries.
proof fn lemma_foreground_literals()
    ensures
        "\x1b[38;5;0m"@ == ansi_sequence(Role::Foreground, AnsiColor::Black, AnsiMode::Dark),
        "\x1b[38;5;1m"@ == ansi_sequence(Role::Foreground, AnsiColor::Red, AnsiMode::Dark),
        "\x1b[38;5;2m"@ == ansi_sequence(Role::Foreground, AnsiColor::Green, AnsiMode::Dark),
        "\x1b[38;5;3m"@ == ansi_sequence(Role::Foreground, AnsiColor::Yellow, AnsiMode::Dark),
        "\x1b[38;5;4m"@ == ansi_sequence(Role::Foreground, AnsiColor::Blue, AnsiMode::Dark),
        "\x1b[38;5;5m"@ == ansi_sequence(Role::Foreground, AnsiColor::Magenta, AnsiMode::Dark),
        "\x1b[38;5;6m"@ == ansi_sequence(Role::Foreground, AnsiColor::Cyan, AnsiMode::Dark),
        "\x1b[38;5;7m"@ == ansi_sequence(Role::Foreground, AnsiColor::White, AnsiMode::Dark),
        "\x1b[38;5;8m"@ == ansi_sequence(Role::Foreground, AnsiColor::Black, AnsiMode::Light),
        "\x1b[38;5;9m"@ == ansi_sequence(Role::Foreground, AnsiColor::Red, AnsiMode::Light),
        "\x1b[38;5;10m"@ == ansi_sequence(Role::Foreground, AnsiColor::Green, AnsiMode::Light),
        "\x1b[38;5;11m"@ == ansi_sequence(Role::Foreground, AnsiColor::Yellow, AnsiMode::Light),
        "\x1b[38;5;12m"@ == ansi_sequence(Role::Foreground, AnsiColor::Blue, AnsiMode::Light),
        "\x1b[38;5;13m"@ == ansi_sequence(Role::Foreground, AnsiColor::Magenta, AnsiMode::Light),
        "\x1b[38;5;14m"@ == ansi_sequence(Role::Foreground, AnsiColor::Cyan, AnsiMode::Light),
        "\x1b[38;5;15m"@ == ansi_sequence(Role::Foreground, AnsiColor::White, AnsiMode::Light),
{
    reveal_with_fuel(decimal, 2);
    reveal_strlit("\x1b[38;5;0m");
    reveal_strlit("\x1b[38;5;1m");
    reveal_strlit("\x1b[38;5;2m");
    reveal_strlit("\x1b[38;5;3m");
    reveal_strlit("\x1b[38;5;4m");
    reveal_strlit("\x1b[38;5;5m");
    reveal_strlit("\x1b[38;5;6m");
    reveal_strlit("\x1b[38;5;7m");
    reveal_strlit("\x1b[38;5;8m");
    reveal_strlit("\x1b[38;5;9m");
    reveal_strlit("\x1b[38;5;10m");
    reveal_strlit("\x1b[38;5;11m");
    reveal_strlit("\x1b[38;5;12m");
    reveal_strlit("\x1b[38;5;13m");
    reveal_strlit("\x1b[38;5;14m");
    reveal_strlit("\x1b[38;5;15m");
    assert("\x1b[38;5;0m"@ =~= ansi_sequence(Role::Foreground, AnsiColor::Black, AnsiMode::Dark));
    assert("\x1b[38;5;1m"@ =~= ansi_sequence(Role::Foreground, AnsiColor::Red, AnsiMode::Dark));
    assert("\x1b[38;5;2m"@ =~= ansi_sequence(Role::Foreground, AnsiColor::Green, AnsiMode::Dark));
    assert("\x1b[38;5;3m"@ =~= ansi_sequence(Role::Foreground, AnsiColor::Yellow, AnsiMode::Dark));
    assert("\x1b[38;5;4m"@ =~= ansi_sequence(Role::Foreground, AnsiColor::Blue, AnsiMode::Dark));
    assert("\x1b[38;5;5m"@ =~= ansi_sequence(Role::Foreground, AnsiColor::Magenta, AnsiMode::Dark));
    assert("\x1b[38;5;6m"@ =~= ansi_sequence(Role::Foreground, AnsiColor::Cyan, AnsiMode::Dark));
    assert("\x1b[38;5;7m"@ =~= ansi_sequence(Role::Foreground, AnsiColor::White, AnsiMode::Dark));
    assert("\x1b[38;5;8m"@ =~= ansi_sequence(Role::Foreground, AnsiColor::Black, AnsiMode::Light));
    assert("\x1b[38;5;9m"@ =~= ansi_sequence(Role::Foreground, AnsiColor::Red, AnsiMode::Light));
    assert("\x1b[38;5;10m"@ =~= ansi_sequence(Role::Foreground, AnsiColor::Green, AnsiMode::Light));
    assert("\x1b[38;5;11m"@
        =~= ansi_sequence(Role::Foreground, AnsiColor::Yellow, AnsiMode::Light));
    assert("\x1b[38;5;12m"@ =~= ansi_sequence(Role::Foreground, AnsiColor::Blue, AnsiMode::Light));
    assert("\x1b[38;5;13m"@
        =~= ansi_sequence(Role::Foreground, AnsiColor::Magenta, AnsiMode::Light));
    assert("\x1b[38;5;14m"@ =~= ansi_sequence(Role::Foreground, AnsiColor::Cyan, AnsiMode::Light));
    assert("\x1b[38;5;15m"@ =~= ansi_sequence(Role::Foreground, AnsiColor::White, AnsiMode::Light));
}

/// The sixteen background literals of `termion` are the palette sequences
/// of the sixteen palette entries.
proof fn lemma_background_literals()
    ensures
        "\x1b[48;5;0m"@ == ansi_sequence(Role::Background, AnsiColor::Black, AnsiMode::Dark),
        "\x1b[48;5;1m"@ == ansi_sequence(Role::Background, AnsiColor::Red, AnsiMode::Dark),
        "\x1b[48;5;2m"@ == ansi_sequence(Role::Background, AnsiColor::Green, AnsiMode::Dark),
        "\x1b[48;5;3m"@ == ansi_sequence(Role::Background, AnsiColor::Yellow, AnsiMode::Dark),
        "\x1b[48;5;4m"@ == ansi_sequence(Role::Background, AnsiColor::Blue, AnsiMode::Dark),
        "\x1b[48;5;5m"@ == ansi_sequence(Role::Background, AnsiColor::Magenta, AnsiMode::Dark),
        "\x1b[48;5;6m"@ == ansi_sequence(Role::Background, AnsiColor::Cyan, AnsiMode::Dark),
        "\x1b[48;5;7m"@ == ansi_sequence(Role::Background, AnsiColor::White, AnsiMode::Dark),
        "\x1b[48;5;8m"@ == ansi_sequence(Role::Background, AnsiColor::Black, AnsiMode::Light),
        "\x1b[48;5;9m"@ == ansi_sequence(Role::Background, AnsiColor::Red, AnsiMode::Light),
        "\x1b[48;5;10m"@ == ansi_sequence(Role::Background, AnsiColor::Green, AnsiMode::Light),
        "\x1b[48;5;11m"@ == ansi_sequence(Role::Background, AnsiColor::Yellow, AnsiMode::Light),
        "\x1b[48;5;12m"@ == ansi_sequence(Role::Background, AnsiColor::Blue, AnsiMode::Light),
        "\x1b[48;5;13m"@ == ansi_sequence(Role::Background, AnsiColor::Magenta, AnsiMode::Light),
        "\x1b[48;5;14m"@ == ansi_sequence(Role::Background, AnsiColor::Cyan, AnsiMode::Light),
        "\x1b[48;5;15m"@ == ansi_sequence(Role::Background, AnsiColor::White, AnsiMode::Light),
{
    reveal_with_fuel(decimal, 2);
    reveal_strlit("\x1b[48;5;0m");
    reveal_strlit("\x1b[48;5;1m");
    reveal_strlit("\x1b[48;5;2m");
    reveal_strlit("\x1b[48;5;3m");
    reveal_strlit("\x1b[48;5;4m");
    reveal_strlit("\x1b[48;5;5m");
    reveal_strlit("\x1b[48;5;6m");
    reveal_strlit("\x1b[48;5;7m");
    reveal_strlit("\x1b[48;5;8m");
    reveal_strlit("\x1b[48;5;9m");
    reveal_strlit("\x1b[48;5;10m");
    reveal_strlit("\x1b[48;5;11m");
    reveal_strlit("\x1b[48;5;12m");
    reveal_strlit("\x1b[48;5;13m");
    reveal_strlit("\x1b[48;5;14m");
    reveal_strlit("\x1b[48;5;15m");
    assert("\x1b[48;5;0m"@ =~= ansi_sequence(Role::Background, AnsiColor::Black, AnsiMode::Dark));
    assert("\x1b[48;5;1m"@ =~= ansi_sequence(Role::Background, AnsiColor::Red, AnsiMode::Dark));
    assert("\x1b[48;5;2m"@ =~= ansi_sequence(Role::Background, AnsiColor::Green, AnsiMode::Dark));
    assert("\x1b[48;5;3m"@ =~= ansi_sequence(Role::Background, AnsiColor::Yellow, AnsiMode::Dark));
    assert("\x1b[48;5;4m"@ =~= ansi_sequence(Role::Background, AnsiColor::Blue, AnsiMode::Dark));
    assert("\x1b[48;5;5m"@ =~= ansi_sequence(Role::Background, AnsiColor::Magenta, AnsiMode::Dark));
    assert("\x1b[48;5;6m"@ =~= ansi_sequence(Role::Background, AnsiColor::Cyan, AnsiMode::Dark));
    assert("\x1b[48;5;7m"@ =~= ansi_sequence(Role::Background, AnsiColor::White, AnsiMode::Dark));
    assert("\x1b[48;5;8m"@ =~= ansi_sequence(Role::Background, AnsiColor::Black, AnsiMode::Light));
    assert("\x1b[48;5;9m"@ =~= ansi_sequence(Role::Background, AnsiColor::Red, AnsiMode::Light));
    assert("\x1b[48;5;10m"@ =~= ansi_sequence(Role::Background, AnsiColor::Green, AnsiMode::Light));
    assert("\x1b[48;5;11m"@
        =~= ansi_sequence(Role::Background, AnsiColor::Yellow, AnsiMode::Light));
    assert("\x1b[48;5;12m"@ =~= ansi_sequence(Role::Background, AnsiColor::Blue, AnsiMode::Light));
    assert("\x1b[48;5;13m"@
        =~= ansi_sequence(Role::Background, AnsiColor::Magenta, AnsiMode::Light));
    assert("\x1b[48;5;14m"@ =~= ansi_sequence(Role::Background, AnsiColor::Cyan, AnsiMode::Light));
    assert("\x1b[48;5;15m"@ =~= ansi_sequence(Role::Background, AnsiColor::White, AnsiMode::Light));
}

/// The sequence that selects a palette color as the foreground.
pub fn get_ansi_fg(color: AnsiColor, mode: AnsiMode) -> (r: &'static str)
    ensures
        r@ == ansi_sequence(Role::Foreground, color, mode),
{
    proof {
        lemma_foreground_literals();
    }
    match (mode, color) {
        (AnsiMode::Dark, AnsiColor::Black) => codes::black_fg(),
        (AnsiMode::Dark, AnsiColor::Red) => codes::red_fg(),
        (AnsiMode::Dark, AnsiColor::Green) => codes::green_fg(),
        (AnsiMode::Dark, AnsiColor::Yellow) => codes::yellow_fg(),
        (AnsiMode::Dark, AnsiColor::Blue) => codes::blue_fg(),
        (AnsiMode::Dark, AnsiColor::Magenta) => codes::magenta_fg(),
        (AnsiMode::Dark, AnsiColor::Cyan) => codes::cyan_fg(),
        (AnsiMode::Dark, AnsiColor::White) => codes::white_fg(),
        (AnsiMode::Light, AnsiColor::Black) => codes::light_black_fg(),
        (AnsiMode::Light, AnsiColor::Red) => codes::light_red_fg(),
        (AnsiMode::Light, AnsiColor::Green) => codes::light_green_fg(),
        (AnsiMode::Light, AnsiColor::Yellow) => codes::light_yellow_fg(),
        (AnsiMode::Light, AnsiColor::Blue) => codes::light_blue_fg(),
        (AnsiMode::Light, AnsiColor::Magenta) => codes::light_magenta_fg(),
        (AnsiMode::Light, AnsiColor::Cyan) => codes::light_cyan_fg(),
        (AnsiMode::Light, AnsiColor::White) => codes::light_white_fg(),
    }
}

/// The sequence that selects a palette color as the background.
pub fn get_ansi_bg(color: AnsiColor, mode: AnsiMode) -> (r: &'static str)
    ensures
        r@ == ansi_sequence(Role::Background, color, mode),
{
    proof {
        lemma_background_literals();
    }
    match (mode, color) {
        (AnsiMode::Dark, AnsiColor::Black) => codes::black_bg(),
        (AnsiMode::Dark, AnsiColor::Red) => codes::red_bg(),
        (AnsiMode::Dark, AnsiColor::Green) => codes::green_bg(),
        (AnsiMode::Dark, AnsiColor::Yellow) => codes::yellow_bg(),
        (AnsiMode::Dark, AnsiColor::Blue) => codes::blue_bg(),
        (AnsiMode::Dark, AnsiColor::Magenta) => codes::magenta_bg(),
        (AnsiMode::Dark, AnsiColor::Cyan) => codes::cyan_bg(),
        (AnsiMode::Dark, AnsiColor::White) => codes::white_bg(),
        (AnsiMode::Light, AnsiColor::Black) => codes::light_black_bg(),
        (AnsiMode::Light, AnsiColor::Red) => codes::light_red_bg(),
        (AnsiMode::Light, AnsiColor::Green) => codes::light_green_bg(),
        (AnsiMode::Light, AnsiColor::Yellow) => codes::light_yellow_bg(),
        (AnsiMode::Light, AnsiColor::Blue) => codes::light_blue_bg(),
        (AnsiMode::Light, AnsiColor::Magenta) => codes::light_magenta_bg(),
        (AnsiMode::Light, AnsiColor::Cyan) => codes::light_cyan_bg(),
        (AnsiMode::Light, AnsiColor::White) => codes::light_white_bg(),
    }
}

/// The sequence that selects a color as the foreground: a literal for a palette
/// color, a string made for the occasion for a 24-bit color.
pub fn get_fg(color: Color) -> (r: Cow<'static, str>)
    ensures
        r@ == color_sequence(Role::Foreground, color),
{
    match color {
        Color::Ansi { color, mode } => Cow::Borrowed(get_ansi_fg(color, mode)),
        Color::Rgb { r, g, b } => {
            let s = codes::rgb_fg(r, g, b);
            proof {
                reveal_strlit("\x1b[38;2;");
                reveal_strlit(";");
                reveal_strlit("m");
                assert(s@ =~= rgb_sequence(Role::Foreground, r, g, b));
            }
            Cow::Owned(s)
        },
    }
}

/// The sequence that selects a color as the background: a literal for a palette
/// color, a string made for the occasion for a 24-bit color.
pub fn get_bg(color: Color) -> (r: Cow<'static, str>)
    ensures
        r@ == color_sequence(Role::Background, color),
{
    match color {
        Color::Ansi { color, mode } => Cow::Borrowed(get_ansi_bg(color, mode)),
        Color::Rgb { r, g, b } => {
            let s = codes::rgb_bg(r, g, b);
            proof {
                reveal_strlit("\x1b[48;2;");
                reveal_strlit(";");
                reveal_strlit("m");
                assert(s@ =~= rgb_sequence(Role::Background, r, g, b));
            }
            Cow::Owned(s)
        },
    }
}

/// The sequence that switches an effect on.
pub fn get_effect(effect: Effect) -> (r: &'static str)
    ensures
        r@ == effect_sequence(effect),
{
    proof {
        reveal_strlit("\x1b[1m");
        reveal_strlit("\x1b[3m");
        reveal_strlit("\x1b[4m");
        assert("\x1b[1m"@ =~= effect_sequence(Effect::Bold));
        assert("\x1b[3m"@ =~= effect_sequence(Effect::Italic));
        assert("\x1b[4m"@ =~= effect_sequence(Effect::Underline));
    }
    match effect {
        Effect::Bold => codes::style_bold(),
        Effect::Italic => codes::style_italic(),
        Effect::Underline => codes::style_underline(),
    }
}

/// The sequence that clears every color and effect at once.
pub fn get_reset() -> (r: &'static str)
    ensures
        r@ == reset_sequence(),
{
    proof {
        reveal_strlit("\x1b[m");
        assert("\x1b[m"@ =~= reset_sequence());
    }
    codes::style_reset()
}

} // verus!
