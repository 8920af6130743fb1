//! The data model of styled text: colors, effects, styles and styled strings.

use vstd::prelude::*;

verus! {

/// The eight hues of the terminal palette.
#[derive(Clone, Copy, Debug, PartialEq, Eq, Hash, Structural)]
pub enum AnsiColor {
    Black,
    Red,
    Green,
    Yellow,
    Blue,
    Magenta,
    Cyan,
    White,
}

/// The intensity of a palette hue.
#[derive(Clone, Copy, Debug, PartialEq, Eq, Hash, Structural)]
pub enum AnsiMode {
    Dark,
    Light,
}

/// A color: a palette entry or a 24-bit value.
#[derive(Clone, Copy, Debug, PartialEq, Eq, Hash, Structural)]
pub enum Color {
    Ansi { color: AnsiColor, mode: AnsiMode },
    Rgb { r: u8, g: u8, b: u8 },
}

/// A text decoration.
#[derive(Clone, Copy, Debug, PartialEq, Eq, Hash, Structural)]
pub enum Effect {
    Bold,
    Italic,
    Underline,
}

/// A set of effects, one flag for each.
#[derive(Clone, Copy, Debug, PartialEq, Eq, Hash, Structural)]
pub struct Effects {
    pub is_bold: bool,
    pub is_italic: bool,
    pub is_underline: bool,
}

impl Effects {
    /// The empty set.
    pub open spec fn none() -> Effects {
        Effects { is_bold: false, is_italic: false, is_underline: false }
    }

    /// Whether `effect` belongs to the set.
    pub open spec fn contains(self, effect: Effect) -> bool {
        match effect {
            Effect::Bold => self.is_bold,
            Effect::Italic => self.is_italic,
            Effect::Underline => self.is_underline,
        }
    }

    /// The effects of the set in the order in which they are switched on:
    /// bold, italic, underline.
    pub open spec fn ordered(self) -> Seq<Effect> {
        (if self.is_bold {
            seq![Effect::Bold]
        } else {
            Seq::empty()
        }) + (if self.is_italic {
            seq![Effect::Italic]
        } else {
            Seq::empty()
        }) + (if self.is_underline {
            seq![Effect::Underline]
        } else {
            Seq::empty()
        })
    }

    /// The effects of the set, in the order in which they are switched on.
    pub fn to_vec(&self) -> (r: Vec<Effect>)
        ensures
            r@ == self.ordered(),
    {
        let mut r: Vec<Effect> = Vec::new();
        if self.is_bold {
            r.push(Effect::Bold);
        }
        if self.is_italic {
            r.push(Effect::Italic);
        }
        if self.is_underline {
            r.push(Effect::Underline);
        }
        assert(r@ =~= self.ordered());
        r
    }

    /// Whether the set holds no effect.
    pub fn is_empty(&self) -> (r: bool)
        ensures
            r <==> *self == Effects::none(),
            r <==> self.ordered().len() == 0,
    {
        !self.is_bold && !self.is_italic && !self.is_underline
    }

    /// The order of a set holds the effects of the set, each once.
    pub proof fn lemma_ordered_holds_the_set(self)
        ensures
            forall|e: Effect| self.contains(e) <==> #[trigger] self.ordered().contains(e),
            self.ordered().no_duplicates(),
    {
        let order = self.ordered();
        assert forall|e: Effect| self.contains(e) implies #[trigger] order.contains(e) by {
            let before: int = match e {
                Effect::Bold => 0,
                Effect::Italic => if self.is_bold { 1 } else { 0 },
                Effect::Underline => (if self.is_bold { 1int } else { 0 }) + (if self.is_italic {
                    1int
                } else {
                    0
                }),
            };
            assert(order[before] == e);
        }
    }
}

impl Default for Effects {
    /// The empty set.
    fn default() -> (r: Effects)
        ensures
            r == Effects::none(),
    {
        Effects { is_bold: false, is_italic: false, is_underline: false }
    }
}

/// The formatting of a text.
#[derive(Clone, Copy, Debug, PartialEq, Eq, Hash, Structural)]
pub struct Style {
    pub fg: Option<Color>,
    pub bg: Option<Color>,
    pub effects: Effects,
}

impl Style {
    /// The style that switches nothing on.
    pub open spec fn plain() -> Style {
        Style { fg: None, bg: None, effects: Effects::none() }
    }

    /// The style itself, or the style that switches nothing on where there
    /// is none.
    pub open spec fn or_plain(style: Option<Style>) -> Style {
        match style {
            Some(st) => st,
            None => Style::plain(),
        }
    }

    /// Whether the style switches anything on: a color or an effect.
    pub open spec fn is_formatted(self) -> bool {
        self.fg is Some || self.bg is Some || self.effects != Effects::none()
    }
}

impl Default for Style {
    /// The style that switches nothing on.
    fn default() -> (r: Style)
        ensures
            r == Style::plain(),
    {
        Style { fg: None, bg: None, effects: Effects::default() }
    }
}

/// What a styled string is: its characters and its style.
pub struct StyledText {
    pub text: Seq<char>,
    pub style: Option<Style>,
}

/// A borrowed text with an optional style.
#[derive(Clone, Copy, Debug, PartialEq, Eq)]
pub struct StyledStr<'a> {
    pub s: &'a str,
    pub style: Option<Style>,
}

impl<'a> View for StyledStr<'a> {
    type V = StyledText;

    open spec fn view(&self) -> StyledText {
        StyledText { text: self.s@, style: self.style }
    }
}

impl<'a> StyledStr<'a> {
    /// A text with a style.
    pub fn styled(s: &'a str, style: Style) -> (r: StyledStr<'a>)
        ensures
            r@ == (StyledText { text: s@, style: Some(style) }),
    {
        StyledStr { s, style: Some(style) }
    }

    /// A text without a style.
    pub fn plain(s: &'a str) -> (r: StyledStr<'a>)
        ensures
            r@ == (StyledText { text: s@, style: None }),
    {
        StyledStr { s, style: None }
    }

    /// The style of the string, or the style that switches nothing on.
    fn style_or_plain(&self) -> (r: Style)
        ensures
            r == Style::or_plain(self.style),
    {
        match self.style {
            Some(style) => style,
            None => Style::default(),
        }
    }

    /// The same string with `fg` as its foreground.
    pub fn with(self, fg: Color) -> (r: StyledStr<'a>)
        ensures
            r@.text == self@.text,
            r@.style == Some(Style { fg: Some(fg), ..Style::or_plain(self@.style) }),
    {
        let mut style = self.style_or_plain();
        style.fg = Some(fg);
        StyledStr { s: self.s, style: Some(style) }
    }

    /// The same string with `bg` as its background.
    pub fn on(self, bg: Color) -> (r: StyledStr<'a>)
        ensures
            r@.text == self@.text,
            r@.style == Some(Style { bg: Some(bg), ..Style::or_plain(self@.style) }),
    {
        let mut style = self.style_or_plain();
        style.bg = Some(bg);
        StyledStr { s: self.s, style: Some(style) }
    }

    /// The same string in bold.
    pub fn bold(self) -> (r: StyledStr<'a>)
        ensures
            r@.text == self@.text,
            r@.style == Some(
                Style {
                    effects: Effects { is_bold: true, ..Style::or_plain(self@.style).effects },
                    ..Style::or_plain(self@.style)
                },
            ),
    {
        let mut style = self.style_or_plain();
        style.effects.is_bold = true;
        StyledStr { s: self.s, style: Some(style) }
    }

    /// The same string in italic.
    pub fn italic(self) -> (r: StyledStr<'a>)
        ensures
            r@.text == self@.text,
            r@.style == Some(
                Style {
                    effects: Effects { is_italic: true, ..Style::or_plain(self@.style).effects },
                    ..Style::or_plain(self@.style)
                },
            ),
    {
        let mut style = self.style_or_plain();
        style.effects.is_italic = true;
        StyledStr { s: self.s, style: Some(style) }
    }

    /// The same string underlined.
    pub fn underline(self) -> (r: StyledStr<'a>)
        ensures
            r@.text == self@.text,
            r@.style == Some(
                Style {
                    effects: Effects {
                        is_underline: true,
                        ..Style::or_plain(self@.style).effects
                    },
                    ..Style::or_plain(self@.style)
                },
            ),
    {
        let mut style = self.style_or_plain();
        style.effects.is_underline = true;
        StyledStr { s: self.s, style: Some(style) }
    }
}

/// An owned text with an optional style.
#[derive(Clone, Debug, PartialEq, Eq)]
pub struct StyledString {
    pub s: String,
    pub style: Option<Style>,
}

impl View for StyledString {
    type V = StyledText;

    open spec fn view(&self) -> StyledText {
        StyledText { text: self.s@, style: self.style }
    }
}

impl StyledString {
    /// The same text, borrowed, with the same style.
    pub fn as_styled_str(&self) -> (r: StyledStr<'_>)
        ensures
            r@ == self@,
    {
        StyledStr { s: self.s.as_str(), style: self.style }
    }
}

} // verus!
