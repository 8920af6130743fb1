//! Rendering: styled strings written to a sink, piece by piece.

use std::borrow::Cow;
use vstd::prelude::*;
use vstd::utf8::{encode_utf8, encode_utf8_decode_utf8};
use crate::mapper::{get_bg, get_effect, get_fg, get_reset};
use crate::output::{
    activation, closing, effects_sequence, lemma_effects_sequence_concat,
    lemma_rendered_all_concat, optional_color_sequence, rendered, rendered_all, texts,
};
use crate::sequence::Role;
use crate::sink::{
    lemma_encode_utf8_concat, lemma_wrote_nothing, lemma_wrote_stopped, lemma_wrote_then, wrote,
    wrote_part, Sink,
};
use crate::style::{Effect, Effects, Style, StyledStr, StyledString, StyledText};

verus! {

/// The string that a `Cow` holds, borrowed or owned.
fn cow_str<'a>(c: &'a Cow<'static, str>) -> (r: &'a str)
    ensures
        r@ == c@,
{
    match c {
        Cow::Borrowed(s) => s,
        Cow::Owned(s) => s.as_str(),
    }
}

/// Writes the next piece of a text that is written piece by piece: `done` has
/// been written since `start`, and `rest` follows the piece.
fn write_piece<W: Sink>(
    w: &mut W,
    piece: &str,
    Ghost(start): Ghost<W>,
    Ghost(done): Ghost<Seq<char>>,
    Ghost(rest): Ghost<Seq<char>>,
) -> (r: Result<(), W::Error>)
    requires
        wrote(start, done, true, *old(w)),
    ensures
        r is Ok ==> wrote(start, done + piece@, true, *final(w)),
        r is Err ==> wrote(start, done + piece@ + rest, false, *final(w)),
{
    let ghost mid = *w;
    let r = w.write_str(piece);
    proof {
        lemma_wrote_then(start, done, mid, piece@, r is Ok, *w);
        if r is Err {
            lemma_wrote_stopped(start, done + piece@, rest, *w);
        }
    }
    r
}

/// Writes the sequences of the effects of a set, one by one, as the next
/// pieces of a text that is written piece by piece.
fn write_effects<W: Sink>(
    w: &mut W,
    effects: Effects,
    Ghost(start): Ghost<W>,
    Ghost(done): Ghost<Seq<char>>,
    Ghost(rest): Ghost<Seq<char>>,
) -> (r: Result<(), W::Error>)
    requires
        wrote(start, done, true, *old(w)),
    ensures
        r is Ok ==> wrote(start, done + effects_sequence(effects.ordered()), true, *final(w)),
        r is Err ==> wrote(
            start,
            done + effects_sequence(effects.ordered()) + rest,
            false,
            *final(w),
        ),
{
    let list = effects.to_vec();
    let ghost all = effects_sequence(list@);
    let mut i: usize = 0;
    proof {
        assert(list@.take(0) =~= Seq::<Effect>::empty());
        assert(done + effects_sequence(list@.take(0)) =~= done);
    }
    while i < list.len()
        invariant
            i <= list.len(),
            list@ == effects.ordered(),
            all == effects_sequence(list@),
            wrote(start, done + effects_sequence(list@.take(i as int)), true, *w),
        decreases list.len() - i,
    {
        let ghost before = effects_sequence(list@.take(i as int));
        let ghost after = effects_sequence(list@.skip(i as int + 1));
        let piece = get_effect(list[i]);
        proof {
            let upto = list@.take(i as int + 1);
            assert(upto.drop_last() =~= list@.take(i as int));
            assert(list@ =~= upto + list@.skip(i as int + 1));
            lemma_effects_sequence_concat(upto, list@.skip(i as int + 1));
            assert((done + before) + piece@ + (after + rest) =~= done + all + rest);
            assert((done + before) + piece@ =~= done + effects_sequence(upto));
        }
        write_piece(w, piece, Ghost(start), Ghost(done + before), Ghost(after + rest))?;
        i += 1;
    }
    proof {
        assert(list@.take(i as int) =~= list@);
    }
    Ok(())
}

/// A styled string that can be rendered with the sequences of `termion`.
pub struct TermionStr<'a> {
    s: &'a str,
    style: Option<Style>,
}

impl<'a> View for TermionStr<'a> {
    type V = StyledText;

    closed spec fn view(&self) -> StyledText {
        StyledText { text: self.s@, style: self.style }
    }
}

impl<'a> TermionStr<'a> {
    /// Writes the string to a sink as the terminal is to get it: the
    /// foreground, the background and the effects if the style has them, the
    /// text as it is, and one reset if the style has switched anything on.
    ///
    /// The pieces are written one by one, and the first failure ends the
    /// writing: what was written before it stays in the sink.
    pub fn write_to<W: Sink>(&self, w: &mut W) -> (r: Result<(), W::Error>)
        ensures
            wrote(*old(w), rendered(self@), r is Ok, *final(w)),
    {
        let ghost start = *w;
        let ghost total = rendered(self@);
        let ghost fg_part = Seq::<char>::empty();
        let ghost bg_part = Seq::<char>::empty();
        let ghost effects_part = Seq::<char>::empty();
        let ghost tail = self.s@ + closing(self.style);
        proof {
            lemma_wrote_nothing(start);
        }
        if let Some(style) = &self.style {
            proof {
                fg_part = optional_color_sequence(Role::Foreground, style.fg);
                bg_part = optional_color_sequence(Role::Background, style.bg);
                effects_part = effects_sequence(style.effects.ordered());
            }
            if let Some(fg) = style.fg {
                let fg = get_fg(fg);
                let piece = cow_str(&fg);
                assert(Seq::<char>::empty() + piece@ + (bg_part + effects_part + tail) =~= total);
                write_piece(
                    w,
                    piece,
                    Ghost(start),
                    Ghost(Seq::empty()),
                    Ghost(bg_part + effects_part + tail),
                )?;
            }
            assert(Seq::<char>::empty() + fg_part =~= fg_part);
            if let Some(bg) = style.bg {
                let bg = get_bg(bg);
                let piece = cow_str(&bg);
                assert(fg_part + piece@ + (effects_part + tail) =~= total);
                write_piece(w, piece, Ghost(start), Ghost(fg_part), Ghost(effects_part + tail))?;
            }
            assert(fg_part + Seq::<char>::empty() =~= fg_part);
            assert(fg_part + bg_part + effects_part + tail =~= total);
            write_effects(w, style.effects, Ghost(start), Ghost(fg_part + bg_part), Ghost(tail))?;
        }
        assert(activation(self.style) =~= fg_part + bg_part + effects_part);
        assert(activation(self.style) + self.s@ + closing(self.style) =~= total);
        write_piece(
            w,
            self.s,
            Ghost(start),
            Ghost(activation(self.style)),
            Ghost(closing(self.style)),
        )?;
        if let Some(style) = &self.style {
            if style.fg.is_some() || style.bg.is_some() || !style.effects.is_empty() {
                let piece = get_reset();
                assert(activation(self.style) + self.s@ + piece@ + Seq::<char>::empty() =~= total);
                write_piece(
                    w,
                    piece,
                    Ghost(start),
                    Ghost(activation(self.style) + self.s@),
                    Ghost(Seq::empty()),
                )?;
            }
        }
        assert(activation(self.style) + self.s@ + closing(self.style) =~= total);
        Ok(())
    }

    /// The string as the terminal is to get it.
    pub fn to_string(&self) -> (r: String)
        ensures
            r@ == rendered(self@),
    {
        let mut out = String::new();
        let ghost empty = out;
        let _ = self.write_to(&mut out);
        proof {
            assert(empty.has_room(encode_utf8(rendered(self@)).len()));
            assert(encode_utf8(Seq::<char>::empty()) + encode_utf8(rendered(self@))
                =~= encode_utf8(rendered(self@)));
            encode_utf8_decode_utf8(out@);
            encode_utf8_decode_utf8(rendered(self@));
        }
        out
    }
}

/// Styled strings that can be rendered with the sequences of `termion`.
pub trait Termion: View<V = StyledText> {
    /// The same text and style, ready to be rendered.
    fn termion(&self) -> (r: TermionStr<'_>)
        ensures
            r@ == self@,
    ;
}

impl<'a> Termion for StyledStr<'a> {
    fn termion(&self) -> (r: TermionStr<'_>) {
        TermionStr { s: self.s, style: self.style }
    }
}

impl Termion for StyledString {
    fn termion(&self) -> (r: TermionStr<'_>) {
        TermionStr { s: self.s.as_str(), style: self.style }
    }
}

/// Renders a styled string to a sink.
///
/// The sink gets the sequences that switch the formatting on, the text, and
/// one reset if anything was switched on. If the sink fails, the error is
/// returned and the sink keeps what it had taken.
pub fn render<'a, W: Sink>(w: &mut W, s: StyledStr<'a>) -> (r: Result<(), W::Error>)
    ensures
        wrote(*old(w), rendered(s@), r is Ok, *final(w)),
{
    s.termion().write_to(w)
}

/// Renders several styled strings to a sink, one after the other.
///
/// Each string is written as [`render`] writes it, as soon as it is reached.
/// The first failure ends the rendering: the error is returned, the strings
/// before the failing one are in the sink, and nothing of the strings after
/// it is written.
pub fn render_iter<'a, W: Sink>(w: &mut W, items: &[StyledStr<'a>]) -> (r: Result<(), W::Error>)
    ensures
        wrote(*old(w), rendered_all(texts(items@)), r is Ok, *final(w)),
{
    let ghost start = *w;
    let ghost all = texts(items@);
    let mut i: usize = 0;
    proof {
        lemma_wrote_nothing(start);
        assert(all.take(0) =~= Seq::<StyledText>::empty());
    }
    while i < items.len()
        invariant
            i <= items.len(),
            start == *old(w),
            all == texts(items@),
            wrote(start, rendered_all(all.take(i as int)), true, *w),
        decreases items.len() - i,
    {
        let ghost mid = *w;
        let ghost done = rendered_all(all.take(i as int));
        let r = render(w, items[i]);
        proof {
            let upto = all.take(i as int + 1);
            assert(upto.drop_last() =~= all.take(i as int));
            assert(all =~= upto + all.skip(i as int + 1));
            lemma_rendered_all_concat(upto, all.skip(i as int + 1));
            lemma_wrote_then(start, done, mid, rendered(all[i as int]), r is Ok, *w);
            if r is Err {
                lemma_wrote_stopped(
                    start,
                    rendered_all(upto),
                    rendered_all(all.skip(i as int + 1)),
                    *w,
                );
            }
        }
        r?;
        i += 1;
    }
    proof {
        assert(all.take(i as int) =~= all);
    }
    Ok(())
}

/// What a rendering of several strings that stopped has left in the sink:
/// the strings before some position in full, and the beginning of the string
/// at that position. Nothing of the strings after it is there.
pub proof fn lemma_stopped_at_item(before: Seq<u8>, items: Seq<StyledText>, after: Seq<u8>)
    requires
        items.len() > 0,
        wrote_part(before, encode_utf8(rendered_all(items)), after),
    ensures
        exists|n: int|
            0 <= n < items.len() && wrote_part(
                before + encode_utf8(#[trigger] rendered_all(items.take(n))),
                encode_utf8(rendered(items[n])),
                after,
            ),
    decreases items.len(),
{
    let front = items.drop_last();
    let front_bytes = encode_utf8(rendered_all(front));
    let last_bytes = encode_utf8(rendered(items.last()));
    lemma_encode_utf8_concat(rendered_all(front), rendered(items.last()));
    if after.len() >= before.len() + front_bytes.len() {
        let n = items.len() - 1;
        assert(items.take(n) =~= front);
        assert(before + (front_bytes + last_bytes) =~= (before + front_bytes) + last_bytes);
        assert(wrote_part(before + front_bytes, last_bytes, after));
    } else {
        assert((before + (front_bytes + last_bytes)).take(after.len() as int) =~= (before
            + front_bytes).take(after.len() as int));
        assert(front.len() > 0) by {
            if front.len() == 0 {
                assert(front_bytes =~= Seq::<u8>::empty());
            }
        }
        lemma_stopped_at_item(before, front, after);
        let n = choose|n: int|
            0 <= n < front.len() && wrote_part(
                before + encode_utf8(#[trigger] rendered_all(front.take(n))),
                encode_utf8(rendered(front[n])),
                after,
            );
        assert(front.take(n) =~= items.take(n));
        assert(wrote_part(
            before + encode_utf8(rendered_all(items.take(n))),
            encode_utf8(rendered(items[n])),
            after,
        ));
    }
}

} // verus!
