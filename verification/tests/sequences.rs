use std::borrow::Cow;
use std::collections::HashSet;

use text_style::mapper::{get_ansi_bg, get_ansi_fg, get_bg, get_effect, get_fg, get_reset};
use text_style::{AnsiColor, AnsiMode, Color, Effect, Effects};

const HUES: [AnsiColor; 8] = [
    AnsiColor::Black,
    AnsiColor::Red,
    AnsiColor::Green,
    AnsiColor::Yellow,
    AnsiColor::Blue,
    AnsiColor::Magenta,
    AnsiColor::Cyan,
    AnsiColor::White,
];

const MODES: [AnsiMode; 2] = [AnsiMode::Dark, AnsiMode::Light];

#[test]
fn dark_foreground_literals() {
    assert_eq!(get_ansi_fg(AnsiColor::Black, AnsiMode::Dark), "\x1b[38;5;0m");
    assert_eq!(get_ansi_fg(AnsiColor::Red, AnsiMode::Dark), "\x1b[38;5;1m");
    assert_eq!(get_ansi_fg(AnsiColor::Green, AnsiMode::Dark), "\x1b[38;5;2m");
    assert_eq!(get_ansi_fg(AnsiColor::Yellow, AnsiMode::Dark), "\x1b[38;5;3m");
    assert_eq!(get_ansi_fg(AnsiColor::Blue, AnsiMode::Dark), "\x1b[38;5;4m");
    assert_eq!(get_ansi_fg(AnsiColor::Magenta, AnsiMode::Dark), "\x1b[38;5;5m");
    assert_eq!(get_ansi_fg(AnsiColor::Cyan, AnsiMode::Dark), "\x1b[38;5;6m");
    assert_eq!(get_ansi_fg(AnsiColor::White, AnsiMode::Dark), "\x1b[38;5;7m");
}

#[test]
fn light_foreground_literals() {
    assert_eq!(get_ansi_fg(AnsiColor::Black, AnsiMode::Light), "\x1b[38;5;8m");
    assert_eq!(get_ansi_fg(AnsiColor::Red, AnsiMode::Light), "\x1b[38;5;9m");
    assert_eq!(get_ansi_fg(AnsiColor::Green, AnsiMode::Light), "\x1b[38;5;10m");
    assert_eq!(get_ansi_fg(AnsiColor::Yellow, AnsiMode::Light), "\x1b[38;5;11m");
    assert_eq!(get_ansi_fg(AnsiColor::Blue, AnsiMode::Light), "\x1b[38;5;12m");
    assert_eq!(get_ansi_fg(AnsiColor::Magenta, AnsiMode::Light), "\x1b[38;5;13m");
    assert_eq!(get_ansi_fg(AnsiColor::Cyan, AnsiMode::Light), "\x1b[38;5;14m");
    assert_eq!(get_ansi_fg(AnsiColor::White, AnsiMode::Light), "\x1b[38;5;15m");
}

#[test]
fn dark_background_literals() {
    assert_eq!(get_ansi_bg(AnsiColor::Black, AnsiMode::Dark), "\x1b[48;5;0m");
    assert_eq!(get_ansi_bg(AnsiColor::Red, AnsiMode::Dark), "\x1b[48;5;1m");
    assert_eq!(get_ansi_bg(AnsiColor::Green, AnsiMode::Dark), "\x1b[48;5;2m");
    assert_eq!(get_ansi_bg(AnsiColor::Yellow, AnsiMode::Dark), "\x1b[48;5;3m");
    assert_eq!(get_ansi_bg(AnsiColor::Blue, AnsiMode::Dark), "\x1b[48;5;4m");
    assert_eq!(get_ansi_bg(AnsiColor::Magenta, AnsiMode::Dark), "\x1b[48;5;5m");
    assert_eq!(get_ansi_bg(AnsiColor::Cyan, AnsiMode::Dark), "\x1b[48;5;6m");
    assert_eq!(get_ansi_bg(AnsiColor::White, AnsiMode::Dark), "\x1b[48;5;7m");
}

#[test]
fn light_background_literals() {
    assert_eq!(get_ansi_bg(AnsiColor::Black, AnsiMode::Light), "\x1b[48;5;8m");
    assert_eq!(get_ansi_bg(AnsiColor::Red, AnsiMode::Light), "\x1b[48;5;9m");
    assert_eq!(get_ansi_bg(AnsiColor::Green, AnsiMode::Light), "\x1b[48;5;10m");
    assert_eq!(get_ansi_bg(AnsiColor::Yellow, AnsiMode::Light), "\x1b[48;5;11m");
    assert_eq!(get_ansi_bg(AnsiColor::Blue, AnsiMode::Light), "\x1b[48;5;12m");
    assert_eq!(get_ansi_bg(AnsiColor::Magenta, AnsiMode::Light), "\x1b[48;5;13m");
    assert_eq!(get_ansi_bg(AnsiColor::Cyan, AnsiMode::Light), "\x1b[48;5;14m");
    assert_eq!(get_ansi_bg(AnsiColor::White, AnsiMode::Light), "\x1b[48;5;15m");
}

#[test]
fn palette_sequences_are_distinct() {
    let mut seen: HashSet<String> = HashSet::new();
    for mode in MODES {
        for hue in HUES {
            assert!(seen.insert(get_ansi_fg(hue, mode).to_string()));
            assert!(seen.insert(get_ansi_bg(hue, mode).to_string()));
        }
    }
    assert_eq!(seen.len(), 32);
}

#[test]
fn palette_colour_is_borrowed() {
    let color = Color::Ansi { color: AnsiColor::Cyan, mode: AnsiMode::Light };
    let fg = get_fg(color);
    let bg = get_bg(color);
    assert!(matches!(fg, Cow::Borrowed("\x1b[38;5;14m")));
    assert!(matches!(bg, Cow::Borrowed("\x1b[48;5;14m")));
}

#[test]
fn palette_colour_goes_through_the_table() {
    for mode in MODES {
        for hue in HUES {
            let color = Color::Ansi { color: hue, mode };
            assert_eq!(get_fg(color), get_ansi_fg(hue, mode));
            assert_eq!(get_bg(color), get_ansi_bg(hue, mode));
        }
    }
}

#[test]
fn rgb_foreground_examples() {
    assert_eq!(get_fg(Color::Rgb { r: 1, g: 2, b: 3 }), "\x1b[38;2;1;2;3m");
    assert_eq!(get_fg(Color::Rgb { r: 0, g: 0, b: 0 }), "\x1b[38;2;0;0;0m");
    assert_eq!(get_fg(Color::Rgb { r: 255, g: 255, b: 255 }), "\x1b[38;2;255;255;255m");
    assert_eq!(get_fg(Color::Rgb { r: 10, g: 100, b: 9 }), "\x1b[38;2;10;100;9m");
    assert_eq!(get_fg(Color::Rgb { r: 99, g: 200, b: 101 }), "\x1b[38;2;99;200;101m");
}

#[test]
fn rgb_background_examples() {
    assert_eq!(get_bg(Color::Rgb { r: 1, g: 2, b: 3 }), "\x1b[48;2;1;2;3m");
    assert_eq!(get_bg(Color::Rgb { r: 0, g: 0, b: 0 }), "\x1b[48;2;0;0;0m");
    assert_eq!(get_bg(Color::Rgb { r: 255, g: 255, b: 255 }), "\x1b[48;2;255;255;255m");
    assert_eq!(get_bg(Color::Rgb { r: 10, g: 100, b: 9 }), "\x1b[48;2;10;100;9m");
}

#[test]
fn rgb_colour_is_owned() {
    let fg = get_fg(Color::Rgb { r: 7, g: 8, b: 9 });
    assert!(matches!(fg, Cow::Owned(_)));
}

#[test]
fn rgb_components_are_decimal() {
    for n in 0..=255u8 {
        let others = n.wrapping_mul(7).wrapping_add(3);
        assert_eq!(
            get_fg(Color::Rgb { r: n, g: others, b: 0 }),
            format!("\x1b[38;2;{};{};0m", n, others)
        );
        assert_eq!(
            get_fg(Color::Rgb { r: 0, g: n, b: others }),
            format!("\x1b[38;2;0;{};{}m", n, others)
        );
        assert_eq!(
            get_bg(Color::Rgb { r: others, g: 0, b: n }),
            format!("\x1b[48;2;{};0;{}m", others, n)
        );
    }
}

fn components(sequence: &str, head: &str) -> (u8, u8, u8) {
    let body = sequence.strip_prefix(head).unwrap().strip_suffix('m').unwrap();
    let parts: Vec<&str> = body.split(';').collect();
    assert_eq!(parts.len(), 3);
    (parts[0].parse().unwrap(), parts[1].parse().unwrap(), parts[2].parse().unwrap())
}

#[test]
fn rgb_round_trip() {
    for r in [0u8, 1, 9, 10, 42, 99, 100, 128, 199, 200, 254, 255] {
        for g in [0u8, 5, 10, 77, 100, 255] {
            for b in [0u8, 9, 10, 99, 100, 255] {
                let color = Color::Rgb { r, g, b };
                assert_eq!(components(&get_fg(color), "\x1b[38;2;"), (r, g, b));
                assert_eq!(components(&get_bg(color), "\x1b[48;2;"), (r, g, b));
            }
        }
    }
}

#[test]
fn rgb_foreground_differs_from_background() {
    for n in 0..=255u8 {
        let color = Color::Rgb { r: n, g: 255 - n, b: n / 2 };
        assert_ne!(get_fg(color), get_bg(color));
    }
}

#[test]
fn rgb_sequences_of_different_colours_differ() {
    let a = get_fg(Color::Rgb { r: 1, g: 23, b: 4 });
    let b = get_fg(Color::Rgb { r: 12, g: 3, b: 4 });
    let c = get_fg(Color::Rgb { r: 1, g: 2, b: 34 });
    assert_ne!(a, b);
    assert_ne!(a, c);
    assert_ne!(b, c);
}

#[test]
fn effect_literals() {
    assert_eq!(get_effect(Effect::Bold), "\x1b[1m");
    assert_eq!(get_effect(Effect::Italic), "\x1b[3m");
    assert_eq!(get_effect(Effect::Underline), "\x1b[4m");
}

#[test]
fn reset_literal() {
    assert_eq!(get_reset(), "\x1b[m");
}

#[test]
fn effects_come_in_their_order() {
    let all = Effects { is_bold: true, is_italic: true, is_underline: true };
    assert_eq!(all.to_vec(), vec![Effect::Bold, Effect::Italic, Effect::Underline]);
    let two = Effects { is_bold: true, is_italic: false, is_underline: true };
    assert_eq!(two.to_vec(), vec![Effect::Bold, Effect::Underline]);
    let one = Effects { is_bold: false, is_italic: true, is_underline: false };
    assert_eq!(one.to_vec(), vec![Effect::Italic]);
}

#[test]
fn empty_effects() {
    let none = Effects::default();
    assert!(none.is_empty());
    assert_eq!(none.to_vec(), Vec::<Effect>::new());
    assert!(!Effects { is_bold: false, is_italic: false, is_underline: true }.is_empty());
    assert!(!Effects { is_bold: false, is_italic: true, is_underline: false }.is_empty());
    assert!(!Effects { is_bold: true, is_italic: false, is_underline: false }.is_empty());
}
