use text_style::{
    render, render_iter, AnsiColor, AnsiMode, Color, Effects, Style, StyledStr, StyledString,
    Termion,
};

const RED: Color = Color::Ansi { color: AnsiColor::Red, mode: AnsiMode::Dark };
const LIGHT_BLUE: Color = Color::Ansi { color: AnsiColor::Blue, mode: AnsiMode::Light };

fn rendered(s: StyledStr<'_>) -> Vec<u8> {
    let mut out: Vec<u8> = Vec::new();
    assert!(render(&mut out, s).is_ok());
    out
}

#[test]
fn string_without_style_is_written_as_it_is() {
    assert_eq!(rendered(StyledStr::plain("test")), b"test");
    assert_eq!(rendered(StyledStr::plain("")), b"");
}

#[test]
fn style_that_sets_nothing_adds_nothing() {
    let s = StyledStr::styled("test", Style::default());
    assert_eq!(rendered(s), b"test");
    let s = StyledStr {
        s: "x y",
        style: Some(Style {
            fg: None,
            bg: None,
            effects: Effects { is_bold: false, is_italic: false, is_underline: false },
        }),
    };
    assert_eq!(rendered(s), b"x y");
}

#[test]
fn foreground_only() {
    assert_eq!(rendered(StyledStr::plain("test").with(RED)), b"\x1b[38;5;1mtest\x1b[m");
    let rgb = Color::Rgb { r: 12, g: 0, b: 255 };
    assert_eq!(rendered(StyledStr::plain("test").with(rgb)), b"\x1b[38;2;12;0;255mtest\x1b[m");
}

#[test]
fn background_only() {
    assert_eq!(rendered(StyledStr::plain("test").on(LIGHT_BLUE)), b"\x1b[48;5;12mtest\x1b[m");
    let rgb = Color::Rgb { r: 1, g: 20, b: 200 };
    assert_eq!(rendered(StyledStr::plain("test").on(rgb)), b"\x1b[48;2;1;20;200mtest\x1b[m");
}

#[test]
fn one_effect() {
    assert_eq!(rendered(StyledStr::plain("test").bold()), b"\x1b[1mtest\x1b[m");
    assert_eq!(rendered(StyledStr::plain("test").italic()), b"\x1b[3mtest\x1b[m");
    assert_eq!(rendered(StyledStr::plain("test").underline()), b"\x1b[4mtest\x1b[m");
}

#[test]
fn several_effects_one_reset() {
    let s = StyledStr::plain("test").bold().italic().underline();
    let out = rendered(s);
    assert_eq!(out, b"\x1b[1m\x1b[3m\x1b[4mtest\x1b[m");
    let text = String::from_utf8(out).unwrap();
    assert_eq!(text.matches("\x1b[m").count(), 1);
}

#[test]
fn effects_are_written_in_their_order_however_they_were_set() {
    let s = StyledStr::plain("test").underline().bold();
    assert_eq!(rendered(s), b"\x1b[1m\x1b[4mtest\x1b[m");
    let s = StyledStr::plain("test").italic().bold();
    assert_eq!(rendered(s), b"\x1b[1m\x1b[3mtest\x1b[m");
}

#[test]
fn foreground_background_and_effects() {
    let s = StyledStr::plain("test").bold().on(LIGHT_BLUE).with(RED).underline();
    assert_eq!(rendered(s), b"\x1b[38;5;1m\x1b[48;5;12m\x1b[1m\x1b[4mtest\x1b[m");
}

#[test]
fn text_is_not_escaped() {
    let s = StyledStr::plain("a\x1b[mb\n\u{e9}\u{4e16}").bold();
    let mut expected: Vec<u8> = Vec::new();
    expected.extend_from_slice(b"\x1b[1m");
    expected.extend_from_slice("a\x1b[mb\n\u{e9}\u{4e16}".as_bytes());
    expected.extend_from_slice(b"\x1b[m");
    assert_eq!(rendered(s), expected);
}

#[test]
fn builders_keep_what_was_set() {
    let s = StyledStr::plain("t").with(RED).bold().on(LIGHT_BLUE);
    assert_eq!(s.s, "t");
    assert_eq!(
        s.style,
        Some(Style {
            fg: Some(RED),
            bg: Some(LIGHT_BLUE),
            effects: Effects { is_bold: true, is_italic: false, is_underline: false },
        })
    );
    assert_eq!(StyledStr::plain("t").style, None);
    assert_eq!(StyledStr::styled("t", Style::default()).style, Some(Style::default()));
    assert_eq!(
        Style::default(),
        Style { fg: None, bg: None, effects: Effects::default() }
    );
}

#[test]
fn render_appends_to_the_sink() {
    let mut out: Vec<u8> = b"> ".to_vec();
    assert!(render(&mut out, StyledStr::plain("a").bold()).is_ok());
    assert!(render(&mut out, StyledStr::plain("b")).is_ok());
    assert_eq!(out, b"> \x1b[1ma\x1b[mb");
}

#[test]
fn three_strings_in_a_row() {
    let v = vec![
        StyledStr::plain("a").bold(),
        StyledStr::plain(" "),
        StyledStr::plain("b").italic(),
    ];
    let mut out: Vec<u8> = Vec::new();
    assert!(render_iter(&mut out, &v).is_ok());
    assert_eq!(out, b"\x1b[1ma\x1b[m \x1b[3mb\x1b[m");

    let mut one_by_one: Vec<u8> = Vec::new();
    for s in &v {
        one_by_one.extend_from_slice(&rendered(*s));
    }
    assert_eq!(out, one_by_one);
}

#[test]
fn no_strings_nothing_written() {
    let mut out: Vec<u8> = Vec::new();
    assert!(render_iter(&mut out, &[]).is_ok());
    assert!(out.is_empty());
}

#[test]
fn to_string_gives_what_render_writes() {
    let s = StyledStr::plain("test").with(RED).italic();
    assert_eq!(s.termion().to_string(), "\x1b[38;5;1m\x1b[3mtest\x1b[m");
    assert_eq!(s.termion().to_string().as_bytes(), rendered(s));
    assert_eq!(StyledStr::plain("test").termion().to_string(), "test");
}

#[test]
fn render_into_a_string() {
    let mut out = String::from("> ");
    assert!(render(&mut out, StyledStr::plain("\u{e9}t\u{e9}").underline()).is_ok());
    assert_eq!(out, "> \x1b[4m\u{e9}t\u{e9}\x1b[m");
}

#[test]
fn owned_string_renders_like_a_borrowed_one() {
    let style = Style {
        fg: Some(RED),
        bg: None,
        effects: Effects { is_bold: true, is_italic: false, is_underline: false },
    };
    let owned = StyledString { s: String::from("test"), style: Some(style) };
    let borrowed = StyledStr::styled("test", style);
    assert_eq!(owned.termion().to_string(), "\x1b[38;5;1m\x1b[1mtest\x1b[m");
    assert_eq!(owned.termion().to_string(), borrowed.termion().to_string());

    let mut out: Vec<u8> = Vec::new();
    assert!(owned.termion().write_to(&mut out).is_ok());
    assert_eq!(out, b"\x1b[38;5;1m\x1b[1mtest\x1b[m");
}

#[test]
fn owned_string_as_a_borrowed_one() {
    let owned = StyledString { s: String::from("test"), style: None };
    assert_eq!(owned.as_styled_str(), StyledStr::plain("test"));
    let styled = StyledString { s: String::from("x"), style: Some(Style::default()) };
    assert_eq!(styled.as_styled_str(), StyledStr::styled("x", Style::default()));
    assert_eq!(rendered(styled.as_styled_str()), b"x");
}
