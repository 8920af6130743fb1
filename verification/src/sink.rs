//! Where rendered text goes: a sink takes strings and keeps their bytes.

use core::convert::Infallible;
use vstd::prelude::*;
use vstd::slice::slice_subrange;
use vstd::utf8::encode_utf8;

verus! {

/// `after` is `before` followed by the first bytes of `bytes`, by none of them
/// or by all of them: what a sink holds when a write has stopped on the way.
pub open spec fn wrote_part(before: Seq<u8>, bytes: Seq<u8>, after: Seq<u8>) -> bool {
    &&& before.len() <= after.len() <= before.len() + bytes.len()
    &&& after == (before + bytes).take(after.len() as int)
}

/// A destination for text.
///
/// A sink is described by the bytes it has taken so far. A write that
/// succeeds adds the whole string, encoded as UTF-8; one that fails may have
/// added the beginning of it.
pub trait Sink {
    /// Why a write failed.
    type Error;

    /// The bytes that the sink has taken so far.
    spec fn written(&self) -> Seq<u8>;

    /// Whether the sink is certain to take `n` more bytes, in however many
    /// writes. A sink that cannot tell says no.
    spec fn has_room(&self, n: nat) -> bool;

    /// Hands the bytes of `s` to the sink.
    fn write_str(&mut self, s: &str) -> (r: Result<(), Self::Error>)
        ensures
            r is Ok ==> final(self).written() == old(self).written() + encode_utf8(s@),
            r is Err ==> wrote_part(old(self).written(), encode_utf8(s@), final(self).written()),
            forall|n: nat|
                #![trigger old(self).has_room(n)]
                old(self).has_room(n) && encode_utf8(s@).len() <= n ==> r is Ok
                    && final(self).has_room((n - encode_utf8(s@).len()) as nat),
    ;
}

/// What writing `text` to a sink does, in one write or in several: `before`
/// is the sink when the writing starts, `after` the sink when it ends, `ok`
/// whether it succeeded.
///
/// On success the sink has taken the whole encoding of `text`. On failure it
/// has taken the beginning of it, and how much is not known. Where the sink
/// had room for the encoding, the writing has succeeded and has used that
/// room.
pub open spec fn wrote<W: Sink>(before: W, text: Seq<char>, ok: bool, after: W) -> bool {
    &&& ok ==> after.written() == before.written() + encode_utf8(text)
    &&& !ok ==> wrote_part(before.written(), encode_utf8(text), after.written())
    &&& forall|n: nat|
        #![trigger before.has_room(n)]
        before.has_room(n) && encode_utf8(text).len() <= n ==> ok && after.has_room(
            (n - encode_utf8(text).len()) as nat,
        )
}

/// The encoding of a text that is made of two parts is the encoding of the
/// first part followed by the encoding of the second.
pub proof fn lemma_encode_utf8_concat(a: Seq<char>, b: Seq<char>)
    ensures
        encode_utf8(a + b) == encode_utf8(a) + encode_utf8(b),
    decreases a.len(),
{
    if a.len() == 0 {
        assert(a + b =~= b);
        assert(encode_utf8(a) + encode_utf8(b) =~= encode_utf8(b));
    } else {
        assert((a + b).drop_first() =~= a.drop_first() + b);
        lemma_encode_utf8_concat(a.drop_first(), b);
        assert(encode_utf8(a + b) =~= encode_utf8(a) + encode_utf8(b));
    }
}

/// Writing nothing succeeds and leaves the sink as it is.
pub proof fn lemma_wrote_nothing<W: Sink>(start: W)
    ensures
        wrote(start, Seq::empty(), true, start),
{
    assert(encode_utf8(Seq::<char>::empty()) =~= Seq::<u8>::empty());
    assert(start.written() + Seq::<u8>::empty() =~= start.written());
}

/// A writing that follows one that succeeded continues it: together they
/// are the writing of both texts, and it succeeds if the second does.
pub proof fn lemma_wrote_then<W: Sink>(
    start: W,
    done: Seq<char>,
    mid: W,
    piece: Seq<char>,
    ok: bool,
    end: W,
)
    requires
        wrote(start, done, true, mid),
        wrote(mid, piece, ok, end),
    ensures
        wrote(start, done + piece, ok, end),
{
    lemma_encode_utf8_concat(done, piece);
    let d = encode_utf8(done);
    let p = encode_utf8(piece);
    if ok {
        assert(start.written() + d + p =~= start.written() + (d + p));
    } else {
        assert(start.written() + (d + p) =~= (start.written() + d) + p);
    }
    assert forall|n: nat| start.has_room(n) && (d + p).len() <= n implies ok && end.has_room(
        (n - (d + p).len()) as nat,
    ) by {
        assert(mid.has_room((n - d.len()) as nat));
    }
}

/// A writing that failed is also a failed writing of any longer text.
pub proof fn lemma_wrote_stopped<W: Sink>(start: W, done: Seq<char>, rest: Seq<char>, end: W)
    requires
        wrote(start, done, false, end),
    ensures
        wrote(start, done + rest, false, end),
{
    lemma_encode_utf8_concat(done, rest);
    let d = encode_utf8(done);
    let r = encode_utf8(rest);
    let k = end.written().len() as int;
    assert((start.written() + (d + r)).take(k) =~= (start.written() + d).take(k));
}

/// A string takes everything: the bytes it has taken are its encoding.
impl Sink for String {
    type Error = Infallible;

    open spec fn written(&self) -> Seq<u8> {
        encode_utf8(self@)
    }

    open spec fn has_room(&self, n: nat) -> bool {
        true
    }

    fn write_str(&mut self, s: &str) -> (r: Result<(), Infallible>)
        ensures
            r is Ok,
            final(self)@ == old(self)@ + s@,
    {
        proof {
            lemma_encode_utf8_concat(self@, s@);
        }
        self.append(s);
        Ok(())
    }
}

/// A byte vector takes everything.
impl Sink for Vec<u8> {
    type Error = Infallible;

    open spec fn written(&self) -> Seq<u8> {
        self@
    }

    open spec fn has_room(&self, n: nat) -> bool {
        true
    }

    fn write_str(&mut self, s: &str) -> (r: Result<(), Infallible>)
        ensures
            r is Ok,
    {
        let ghost before = self@;
        self.extend_from_slice(s.as_bytes());
        assert(self@ =~= before + encode_utf8(s@));
        Ok(())
    }
}

/// The error of a [`Bounded`] sink: the text did not fit.
#[derive(Clone, Copy, Debug, PartialEq, Eq, Structural)]
pub struct Full;

/// A buffer that takes bytes up to a limit. A write that does not fit fills
/// the buffer to the limit and fails.
pub struct Bounded {
    bytes: Vec<u8>,
    room: usize,
}

impl View for Bounded {
    type V = Seq<u8>;

    closed spec fn view(&self) -> Seq<u8> {
        self.bytes@
    }
}

impl Bounded {
    /// The number of bytes that the buffer can hold.
    pub closed spec fn limit(&self) -> nat {
        self.bytes@.len() + self.room as nat
    }

    /// An empty buffer that holds up to `limit` bytes.
    pub fn new(limit: usize) -> (r: Bounded)
        ensures
            r@ == Seq::<u8>::empty(),
            r.limit() == limit,
    {
        Bounded { bytes: Vec::new(), room: limit }
    }

    /// The bytes in the buffer.
    pub fn as_bytes(&self) -> (r: &[u8])
        ensures
            r@ == self@,
            r@.len() <= self.limit(),
    {
        self.bytes.as_slice()
    }
}

impl Sink for Bounded {
    type Error = Full;

    open spec fn written(&self) -> Seq<u8> {
        self@
    }

    open spec fn has_room(&self, n: nat) -> bool {
        self@.len() + n <= self.limit()
    }

    fn write_str(&mut self, s: &str) -> (r: Result<(), Full>)
        ensures
            final(self).limit() == old(self).limit(),
            r is Ok <==> old(self)@.len() + encode_utf8(s@).len() <= old(self).limit(),
            r is Err ==> final(self)@.len() == old(self).limit(),
    {
        let ghost before = self.bytes@;
        let bytes = s.as_bytes();
        if bytes.len() <= self.room {
            self.bytes.extend_from_slice(bytes);
            self.room = self.room - bytes.len();
            assert(self.bytes@ =~= before + bytes@);
            Ok(())
        } else {
            self.bytes.extend_from_slice(slice_subrange(bytes, 0, self.room));
            self.room = 0;
            assert(self.bytes@ =~= (before + bytes@).take(self.bytes@.len() as int));
            Err(Full)
        }
    }
}

} // verus!
