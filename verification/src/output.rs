//! What a styled string looks like when it is rendered.
//!
//! The rendering is the sequence of the foreground, the sequence of the
//! background, the sequences of the effects in their order, the text as it
//! is, and one reset if any of the former is there.

use vstd::prelude::*;
use vstd::utf8::encode_utf8;
use crate::sequence::{color_sequence, effect_sequence, reset_sequence, Role};
use crate::style::{Color, Effect, Effects, Style, StyledStr, StyledText};

verus! {

/// The sequence that selects a color for a role, if there is a color.
pub open spec fn optional_color_sequence(role: Role, color: Option<Color>) -> Seq<char> {
    match color {
        Some(c) => color_sequence(role, c),
        None => Seq::empty(),
    }
}

/// The sequences of several effects, one after the other.
pub open spec fn effects_sequence(effects: Seq<Effect>) -> Seq<char>
    decreases effects.len(),
{
    if effects.len() == 0 {
        Seq::empty()
    } else {
        effects_sequence(effects.drop_last()) + effect_sequence(effects.last())
    }
}

/// What is written before the text: the foreground, the background, then the
/// effects in their order.
pub open spec fn activation(style: Option<Style>) -> Seq<char> {
    match style {
        Some(st) => optional_color_sequence(Role::Foreground, st.fg) + optional_color_sequence(
            Role::Background,
            st.bg,
        ) + effects_sequence(st.effects.ordered()),
        None => Seq::empty(),
    }
}

/// What is written after the text: one reset if the style switches anything
/// on, else nothing.
pub open spec fn closing(style: Option<Style>) -> Seq<char> {
    match style {
        Some(st) => if st.is_formatted() {
            reset_sequence()
        } else {
            Seq::empty()
        },
        None => Seq::empty(),
    }
}

/// A styled text as the terminal gets it.
pub open spec fn rendered(t: StyledText) -> Seq<char> {
    activation(t.style) + t.text + closing(t.style)
}

/// Several styled texts as the terminal gets them, one after the other.
pub open spec fn rendered_all(items: Seq<StyledText>) -> Seq<char>
    decreases items.len(),
{
    if items.len() == 0 {
        Seq::empty()
    } else {
        rendered_all(items.drop_last()) + rendered(items.last())
    }
}

/// The texts and styles of a list of styled strings.
pub open spec fn texts(items: Seq<StyledStr<'_>>) -> Seq<StyledText> {
    Seq::new(items.len(), |i: int| items[i]@)
}

/// The sequences of a list of effects that is made of two parts are those of
/// the first part followed by those of the second.
pub proof fn lemma_effects_sequence_concat(a: Seq<Effect>, b: Seq<Effect>)
    ensures
        effects_sequence(a + b) == effects_sequence(a) + effects_sequence(b),
    decreases b.len(),
{
    if b.len() == 0 {
        assert(a + b =~= a);
        assert(effects_sequence(a) + effects_sequence(b) =~= effects_sequence(a));
    } else {
        assert((a + b).drop_last() =~= a + b.drop_last());
        lemma_effects_sequence_concat(a, b.drop_last());
        assert(effects_sequence(a + b) =~= effects_sequence(a) + effects_sequence(b));
    }
}

/// The sequences of a list of one effect are the sequence of that effect.
proof fn lemma_effects_sequence_single(effect: Effect)
    ensures
        effects_sequence(seq![effect]) == effect_sequence(effect),
{
    assert(seq![effect].drop_last() =~= Seq::<Effect>::empty());
    assert(effects_sequence(Seq::empty()) =~= Seq::<char>::empty());
    assert(effects_sequence(seq![effect]) =~= effect_sequence(effect));
}

/// The rendering of a list that is made of two parts is the rendering of the
/// first part followed by the rendering of the second.
pub proof fn lemma_rendered_all_concat(a: Seq<StyledText>, b: Seq<StyledText>)
    ensures
        rendered_all(a + b) == rendered_all(a) + rendered_all(b),
    decreases b.len(),
{
    if b.len() == 0 {
        assert(a + b =~= a);
        assert(rendered_all(a) + rendered_all(b) =~= rendered_all(a));
    } else {
        assert((a + b).drop_last() =~= a + b.drop_last());
        lemma_rendered_all_concat(a, b.drop_last());
        assert(rendered_all(a + b) =~= rendered_all(a) + rendered_all(b));
    }
}

/// A string without a style, or with a style that switches nothing on, is
/// rendered as it is, byte for byte: no sequence before it and no reset
/// after it.
pub proof fn lemma_unformatted_is_verbatim(t: StyledText)
    requires
        t.style matches Some(st) ==> !st.is_formatted(),
    ensures
        rendered(t) == t.text,
        encode_utf8(rendered(t)) == encode_utf8(t.text),
{
    assert(Effects::none().ordered() =~= Seq::<Effect>::empty());
    assert(activation(t.style) =~= Seq::<char>::empty());
    assert(rendered(t) =~= t.text);
}

/// A string with a foreground and nothing else is rendered as the sequence
/// of the foreground, the text and the reset: no sequence of a background or
/// of an effect is there.
pub proof fn lemma_foreground_only(text: Seq<char>, fg: Color)
    ensures
        rendered(
            (StyledText {
                text,
                style: Some(Style { fg: Some(fg), bg: None, effects: Effects::none() }),
            }),
        ) == color_sequence(Role::Foreground, fg) + text + reset_sequence(),
{
    let style = Some(Style { fg: Some(fg), bg: None, effects: Effects::none() });
    assert(Effects::none().ordered() =~= Seq::<Effect>::empty());
    assert(activation(style) =~= color_sequence(Role::Foreground, fg));
}

/// The sequences of a set of effects are those of bold, of italic and of
/// underline, in this order, each if it is in the set.
pub proof fn lemma_effects_in_order(effects: Effects)
    ensures
        effects_sequence(effects.ordered()) == (if effects.is_bold {
            effect_sequence(Effect::Bold)
        } else {
            Seq::empty()
        }) + (if effects.is_italic {
            effect_sequence(Effect::Italic)
        } else {
            Seq::empty()
        }) + (if effects.is_underline {
            effect_sequence(Effect::Underline)
        } else {
            Seq::empty()
        }),
{
    let bold = if effects.is_bold { seq![Effect::Bold] } else { Seq::empty() };
    let italic = if effects.is_italic { seq![Effect::Italic] } else { Seq::empty() };
    let underline = if effects.is_underline { seq![Effect::Underline] } else { Seq::empty() };
    lemma_effects_sequence_concat(bold + italic, underline);
    lemma_effects_sequence_concat(bold, italic);
    lemma_effects_sequence_single(Effect::Bold);
    lemma_effects_sequence_single(Effect::Italic);
    lemma_effects_sequence_single(Effect::Underline);
}

/// A string with effects and no color is rendered as the sequences of its
/// effects in their order, the text, and one reset, however many effects
/// there are.
pub proof fn lemma_effects_only(text: Seq<char>, effects: Effects)
    requires
        effects != Effects::none(),
    ensures
        rendered((StyledText { text, style: Some(Style { fg: None, bg: None, effects }) }))
            == effects_sequence(effects.ordered()) + text + reset_sequence(),
{
    let style = Some(Style { fg: None, bg: None, effects });
    assert(activation(style) =~= effects_sequence(effects.ordered()));
}

} // verus!
