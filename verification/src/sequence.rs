//! The escape sequences as character sequences: what each color, each effect
//! and the reset look like on the wire.
//!
//! A sequence starts with the control sequence introducer, `ESC [`.  A palette
//! color is selected by `38;5;N m` (foreground) or `48;5;N m` (background),
//! where `N` is the decimal palette index; a 24-bit color by `38;2;R;G;B m` or
//! `48;2;R;G;B m`.  Bold, italic and underline are `1m`, `3m` and `4m`, and a
//! bare `m` clears everything.

use vstd::prelude::*;
use crate::style::{AnsiColor, AnsiMode, Color, Effect};

verus! {

/// Whether a color applies to the text or to what is behind it.
#[derive(Clone, Copy, Debug, PartialEq, Eq, Hash, Structural)]
pub enum Role {
    Foreground,
    Background,
}

/// The control sequence introducer.
pub open spec fn csi() -> Seq<char> {
    seq!['\x1b', '[']
}

/// The character of the decimal digit `d`.
pub open spec fn digit(d: nat) -> char
    recommends
        d < 10,
{
    ('0' as nat + d) as char
}

/// Whether `c` is a decimal digit.
pub open spec fn is_digit(c: char) -> bool {
    '0' <= c <= '9'
}

/// The decimal numeral of `n`, without leading zeros.
pub open spec fn decimal(n: nat) -> Seq<char>
    decreases n,
{
    if n < 10 {
        seq![digit(n)]
    } else {
        decimal(n / 10).push(digit(n % 10))
    }
}

/// The number that a decimal numeral stands for.
pub open spec fn decimal_value(s: Seq<char>) -> nat
    decreases s.len(),
{
    if s.len() == 0 {
        0
    } else {
        decimal_value(s.drop_last()) * 10 + (s.last() as nat - '0' as nat) as nat
    }
}

/// The position of a hue among the eight of the palette.
pub open spec fn hue_index(color: AnsiColor) -> nat {
    match color {
        AnsiColor::Black => 0,
        AnsiColor::Red => 1,
        AnsiColor::Green => 2,
        AnsiColor::Yellow => 3,
        AnsiColor::Blue => 4,
        AnsiColor::Magenta => 5,
        AnsiColor::Cyan => 6,
        AnsiColor::White => 7,
    }
}

/// The palette index of a hue in a mode: the light hues follow the dark ones.
pub open spec fn palette_index(color: AnsiColor, mode: AnsiMode) -> nat {
    match mode {
        AnsiMode::Dark => hue_index(color),
        AnsiMode::Light => hue_index(color) + 8,
    }
}

/// The parameter that says which role a color sequence sets.
pub open spec fn role_selector(role: Role) -> Seq<char> {
    match role {
        Role::Foreground => seq!['3', '8'],
        Role::Background => seq!['4', '8'],
    }
}

/// The sequence that selects a palette color for a role.
pub open spec fn ansi_sequence(role: Role, color: AnsiColor, mode: AnsiMode) -> Seq<char> {
    csi() + role_selector(role) + seq![';', '5', ';'] + decimal(palette_index(color, mode))
        + seq!['m']
}

/// The sequence that selects a 24-bit color for a role.
pub open spec fn rgb_sequence(role: Role, r: u8, g: u8, b: u8) -> Seq<char> {
    csi() + role_selector(role) + seq![';', '2', ';'] + decimal(r as nat) + seq![';']
        + decimal(g as nat) + seq![';'] + decimal(b as nat) + seq!['m']
}

/// The sequence that selects a color for a role.
pub open spec fn color_sequence(role: Role, color: Color) -> Seq<char> {
    match color {
        Color::Ansi { color, mode } => ansi_sequence(role, color, mode),
        Color::Rgb { r, g, b } => rgb_sequence(role, r, g, b),
    }
}

/// The sequence that switches an effect on.
pub open spec fn effect_sequence(effect: Effect) -> Seq<char> {
    match effect {
        Effect::Bold => csi() + seq!['1', 'm'],
        Effect::Italic => csi() + seq!['3', 'm'],
        Effect::Underline => csi() + seq!['4', 'm'],
    }
}

/// The sequence that clears every color and effect at once.
pub open spec fn reset_sequence() -> Seq<char> {
    csi() + seq!['m']
}

/// A decimal numeral is not empty and holds digits only.
pub proof fn lemma_decimal_digits(n: nat)
    ensures
        decimal(n).len() >= 1,
        forall|i: int| 0 <= i < decimal(n).len() ==> is_digit(#[trigger] decimal(n)[i]),
    decreases n,
{
    if n >= 10 {
        lemma_decimal_digits(n / 10);
    }
}

/// A decimal numeral stands for the number it was made from: nothing of the
/// number is lost in its numeral.
pub proof fn lemma_decimal_value(n: nat)
    ensures
        decimal_value(decimal(n)) == n,
    decreases n,
{
    if n < 10 {
        assert(decimal(n).drop_last() =~= Seq::<char>::empty());
        assert(decimal_value(decimal(n).drop_last()) == 0);
    } else {
        lemma_decimal_value(n / 10);
        assert(decimal(n).drop_last() =~= decimal(n / 10));
    }
}

/// Two numbers with the same decimal numeral are the same number.
pub proof fn lemma_decimal_injective(a: nat, b: nat)
    requires
        decimal(a) == decimal(b),
    ensures
        a == b,
{
    lemma_decimal_value(a);
    lemma_decimal_value(b);
}

/// Where two texts are equal, each a decimal numeral followed by something
/// that starts with a character that is no digit, the numerals stand for the
/// same number and what follows them is equal.
proof fn lemma_numeral_ends(a: nat, x: Seq<char>, b: nat, y: Seq<char>)
    requires
        decimal(a) + x == decimal(b) + y,
        x.len() > 0 && !is_digit(x[0]),
        y.len() > 0 && !is_digit(y[0]),
    ensures
        a == b,
        x == y,
{
    let da = decimal(a);
    let db = decimal(b);
    lemma_decimal_digits(a);
    lemma_decimal_digits(b);
    if da.len() < db.len() {
        assert((da + x)[da.len() as int] == x[0]);
        assert((db + y)[da.len() as int] == db[da.len() as int]);
        assert(false);
    }
    if db.len() < da.len() {
        assert((db + y)[db.len() as int] == y[0]);
        assert((da + x)[db.len() as int] == da[db.len() as int]);
        assert(false);
    }
    assert(da =~= (da + x).take(da.len() as int));
    assert(db =~= (db + y).take(db.len() as int));
    assert(x =~= (da + x).skip(da.len() as int));
    assert(y =~= (db + y).skip(db.len() as int));
    lemma_decimal_injective(a, b);
}

/// The palette sequences of two different triples of role, hue and mode are
/// different: the thirty-two sequences are distinct.
pub proof fn lemma_ansi_sequence_injective(
    role1: Role,
    color1: AnsiColor,
    mode1: AnsiMode,
    role2: Role,
    color2: AnsiColor,
    mode2: AnsiMode,
)
    requires
        ansi_sequence(role1, color1, mode1) == ansi_sequence(role2, color2, mode2),
    ensures
        role1 == role2,
        color1 == color2,
        mode1 == mode2,
{
    let s1 = ansi_sequence(role1, color1, mode1);
    let s2 = ansi_sequence(role2, color2, mode2);
    let n1 = palette_index(color1, mode1);
    let n2 = palette_index(color2, mode2);
    assert(s1[2] == role_selector(role1)[0]);
    assert(s2[2] == role_selector(role2)[0]);
    assert(s1.skip(7) =~= decimal(n1) + seq!['m']);
    assert(s2.skip(7) =~= decimal(n2) + seq!['m']);
    lemma_numeral_ends(n1, seq!['m'], n2, seq!['m']);
}

/// What follows the head of a 24-bit sequence: the three numerals, each with
/// the character that ends it.
spec fn rgb_tail(r: nat, g: nat, b: nat) -> Seq<char> {
    decimal(r) + (seq![';'] + (decimal(g) + (seq![';'] + (decimal(b) + seq!['m']))))
}

/// A 24-bit sequence is a head of seven characters, the third of which tells
/// the role, and the three numerals.
proof fn lemma_rgb_parts(role: Role, r: u8, g: u8, b: u8)
    ensures
        rgb_sequence(role, r, g, b).len() >= 7,
        rgb_sequence(role, r, g, b)[2] == role_selector(role)[0],
        rgb_sequence(role, r, g, b).skip(7) == rgb_tail(r as nat, g as nat, b as nat),
{
    let head = csi() + role_selector(role) + seq![';', '2', ';'];
    assert(head.len() == 7);
    assert(rgb_sequence(role, r, g, b) =~= head + rgb_tail(r as nat, g as nat, b as nat));
    assert((head + rgb_tail(r as nat, g as nat, b as nat)).skip(7) =~= rgb_tail(
        r as nat,
        g as nat,
        b as nat,
    ));
}

/// Two equal tails of 24-bit sequences hold the same three numbers.
proof fn lemma_rgb_tail_injective(r1: nat, g1: nat, b1: nat, r2: nat, g2: nat, b2: nat)
    requires
        rgb_tail(r1, g1, b1) == rgb_tail(r2, g2, b2),
    ensures
        r1 == r2,
        g1 == g2,
        b1 == b2,
{
    let blue1 = decimal(b1) + seq!['m'];
    let blue2 = decimal(b2) + seq!['m'];
    let green1 = decimal(g1) + (seq![';'] + blue1);
    let green2 = decimal(g2) + (seq![';'] + blue2);
    lemma_numeral_ends(r1, seq![';'] + green1, r2, seq![';'] + green2);
    assert(green1 == green2) by {
        assert(green1 =~= (seq![';'] + green1).skip(1));
        assert(green2 =~= (seq![';'] + green2).skip(1));
    }
    lemma_numeral_ends(g1, seq![';'] + blue1, g2, seq![';'] + blue2);
    assert(blue1 == blue2) by {
        assert(blue1 =~= (seq![';'] + blue1).skip(1));
        assert(blue2 =~= (seq![';'] + blue2).skip(1));
    }
    lemma_numeral_ends(b1, seq!['m'], b2, seq!['m']);
}

/// The 24-bit sequence keeps the role and the three components: two
/// sequences are equal only if they were made for the same role from the same
/// components. So a foreground sequence never equals a background sequence.
pub proof fn lemma_rgb_sequence_injective(
    role1: Role,
    r1: u8,
    g1: u8,
    b1: u8,
    role2: Role,
    r2: u8,
    g2: u8,
    b2: u8,
)
    requires
        rgb_sequence(role1, r1, g1, b1) == rgb_sequence(role2, r2, g2, b2),
    ensures
        role1 == role2,
        r1 == r2,
        g1 == g2,
        b1 == b2,
{
    lemma_rgb_parts(role1, r1, g1, b1);
    lemma_rgb_parts(role2, r2, g2, b2);
    lemma_rgb_tail_injective(r1 as nat, g1 as nat, b1 as nat, r2 as nat, g2 as nat, b2 as nat);
}

/// The sequence of a color keeps the role and the color: two sequences are
/// equal only if they were made for the same role from the same color.
pub proof fn lemma_color_sequence_injective(role1: Role, color1: Color, role2: Role, color2: Color)
    requires
        color_sequence(role1, color1) == color_sequence(role2, color2),
    ensures
        role1 == role2,
        color1 == color2,
{
    match (color1, color2) {
        (Color::Ansi { color: c1, mode: m1 }, Color::Ansi { color: c2, mode: m2 }) => {
            lemma_ansi_sequence_injective(role1, c1, m1, role2, c2, m2);
        },
        (Color::Rgb { r: r1, g: g1, b: b1 }, Color::Rgb { r: r2, g: g2, b: b2 }) => {
            lemma_rgb_sequence_injective(role1, r1, g1, b1, role2, r2, g2, b2);
        },
        (Color::Ansi { color, mode }, Color::Rgb { r, g, b }) => {
            assert(ansi_sequence(role1, color, mode)[5] == '5');
            assert(rgb_sequence(role2, r, g, b)[5] == '2');
        },
        (Color::Rgb { r, g, b }, Color::Ansi { color, mode }) => {
            assert(rgb_sequence(role1, r, g, b)[5] == '2');
            assert(ansi_sequence(role2, color, mode)[5] == '5');
        },
    }
}

} // verus!
