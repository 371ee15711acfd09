//! Length-prefixed framing over an ordered byte stream.
//!
//! Each payload goes on the stream as one length byte followed by the payload
//! itself. A `FrameReader` takes the stream's bytes in whatever chunks the
//! transport hands over and gives back whole payloads, in order.
use vstd::prelude::*;
use crate::wire::{encode, message_bytes, ChannelMessage};

verus! {

/// The longest payload that the one-byte length prefix can announce.
pub const MAX_FRAME_PAYLOAD: usize = 255;

/// Every payload fits behind a length prefix.
pub open spec fn payloads_fit(ps: Seq<Seq<u8>>) -> bool {
    forall|i: int| 0 <= i < ps.len() ==> (#[trigger] ps[i]).len() <= MAX_FRAME_PAYLOAD
}

/// One payload as it stands on the stream.
pub open spec fn frame(p: Seq<u8>) -> Seq<u8> {
    seq![p.len() as u8] + p
}

/// Several payloads sent one after another.
pub open spec fn frames(ps: Seq<Seq<u8>>) -> Seq<u8>
    decreases ps.len(),
{
    if ps.len() == 0 {
        Seq::empty()
    } else {
        frame(ps[0]) + frames(ps.skip(1))
    }
}

/// Whether `s` begins with a whole frame.
pub open spec fn has_frame(s: Seq<u8>) -> bool {
    s.len() >= 1 && s.len() - 1 >= s[0]
}

/// The payloads that `s` holds whole, in order, and the bytes after them
/// (the start of a frame that has not fully arrived).
pub open spec fn split_frames(s: Seq<u8>) -> (Seq<Seq<u8>>, Seq<u8>)
    decreases s.len(),
{
    if has_frame(s) {
        let n = s[0] as int;
        let rest = split_frames(s.skip(1 + n));
        (seq![s.subrange(1, 1 + n)] + rest.0, rest.1)
    } else {
        (Seq::empty(), s)
    }
}

/// What a reader that holds `pending` gives back after taking each chunk in
/// turn: the payloads, and what it holds at the end.
pub open spec fn receive_chunks(pending: Seq<u8>, chunks: Seq<Seq<u8>>) -> (
    Seq<Seq<u8>>,
    Seq<u8>,
)
    decreases chunks.len(),
{
    if chunks.len() == 0 {
        (Seq::empty(), pending)
    } else {
        let first = split_frames(pending + chunks[0]);
        let rest = receive_chunks(first.1, chunks.skip(1));
        (first.0 + rest.0, rest.1)
    }
}

proof fn lemma_split_after_frames(a: Seq<Seq<u8>>, x: Seq<u8>)
    requires
        payloads_fit(a),
    ensures
        split_frames(frames(a) + x) == (a + split_frames(x).0, split_frames(x).1),
    decreases a.len(),
{
    if a.len() > 0 {
        let p = a[0];
        let tail = a.skip(1);
        assert(payloads_fit(tail)) by {
            assert forall|i: int| 0 <= i < tail.len() implies (#[trigger] tail[i]).len()
                <= MAX_FRAME_PAYLOAD by {
                assert(tail[i] == a[i + 1]);
            }
        }
        lemma_split_after_frames(tail, x);
        let s = frames(a) + x;
        assert(s =~= seq![p.len() as u8] + (p + (frames(tail) + x)));
        assert((p.len() as u8) as int == p.len());
        assert(s.subrange(1, 1 + p.len() as int) =~= p);
        assert(s.skip(1 + p.len() as int) =~= frames(tail) + x);
        assert(a =~= seq![p] + tail);
        assert(seq![p] + (tail + split_frames(x).0) =~= a + split_frames(x).0);
    }
}

proof fn lemma_split_rebuilds(s: Seq<u8>)
    ensures
        payloads_fit(split_frames(s).0),
        frames(split_frames(s).0) + split_frames(s).1 == s,
        !has_frame(split_frames(s).1),
    decreases s.len(),
{
    if has_frame(s) {
        let n = s[0] as int;
        let rest = s.skip(1 + n);
        lemma_split_rebuilds(rest);
        let got = split_frames(s).0;
        let p = s.subrange(1, 1 + n);
        assert(got == seq![p] + split_frames(rest).0);
        assert(got.skip(1) =~= split_frames(rest).0);
        assert(got[0] == p);
        assert(payloads_fit(got)) by {
            assert forall|i: int| 0 <= i < got.len() implies (#[trigger] got[i]).len()
                <= MAX_FRAME_PAYLOAD by {
                if i > 0 {
                    assert(got[i] == split_frames(rest).0[i - 1]);
                }
            }
        }
        assert((p.len() as u8) == s[0]);
        assert(s =~= frame(p) + (frames(split_frames(rest).0) + split_frames(rest).1));
    } else {
        assert(frames(Seq::<Seq<u8>>::empty()) == Seq::<u8>::empty());
        assert(Seq::<u8>::empty() + s =~= s);
    }
}

proof fn lemma_receive_is_split(pending: Seq<u8>, chunks: Seq<Seq<u8>>)
    requires
        !has_frame(pending),
    ensures
        receive_chunks(pending, chunks) == split_frames(pending + chunks.flatten()),
    decreases chunks.len(),
{
    if chunks.len() == 0 {
        assert(pending + chunks.flatten() =~= pending);
    } else {
        let first = split_frames(pending + chunks[0]);
        lemma_split_rebuilds(pending + chunks[0]);
        lemma_receive_is_split(first.1, chunks.skip(1));
        assert(chunks.drop_first() == chunks.skip(1));
        let r = chunks.skip(1).flatten();
        assert(chunks.flatten() == chunks[0] + r);
        assert(pending + chunks.flatten() =~= (pending + chunks[0]) + r);
        assert(pending + chunks.flatten() =~= frames(first.0) + (first.1 + r));
        lemma_split_after_frames(first.0, first.1 + r);
    }
}

/// Payloads sent one after another come out of a reader whole, in the same
/// order, and nothing is left over, however the stream cuts the bytes into
/// chunks (one byte at a time included).
pub proof fn lemma_framing_integrity(ps: Seq<Seq<u8>>, chunks: Seq<Seq<u8>>)
    requires
        payloads_fit(ps),
        chunks.flatten() == frames(ps),
    ensures
        receive_chunks(Seq::empty(), chunks) == (ps, Seq::<u8>::empty()),
{
    lemma_receive_is_split(Seq::empty(), chunks);
    assert(Seq::<u8>::empty() + chunks.flatten() =~= frames(ps) + Seq::<u8>::empty());
    lemma_split_after_frames(ps, Seq::empty());
    assert(!has_frame(Seq::<u8>::empty()));
    assert(ps + Seq::<Seq<u8>>::empty() =~= ps);
}

/// A payload with its length prefix, or `None` where it is too long for one.
pub fn encode_frame(payload: &[u8]) -> (r: Option<Vec<u8>>)
    ensures
        payload@.len() <= MAX_FRAME_PAYLOAD ==> r is Some && r.unwrap()@ == frame(payload@),
        payload@.len() > MAX_FRAME_PAYLOAD ==> r.is_none(),
{
    let n = payload.len();
    if n > MAX_FRAME_PAYLOAD {
        return None;
    }
    let mut out: Vec<u8> = Vec::with_capacity(n + 1);
    out.push(n as u8);
    let mut i: usize = 0;
    while i < n
        invariant
            n == payload@.len(),
            i <= n,
            out@ == seq![n as u8] + payload@.subrange(0, i as int),
        decreases n - i,
    {
        out.push(payload[i]);
        i += 1;
        assert(out@ =~= seq![n as u8] + payload@.subrange(0, i as int));
    }
    assert(payload@.subrange(0, n as int) =~= payload@);
    Some(out)
}

proof fn lemma_frames_push(a: Seq<Seq<u8>>, p: Seq<u8>)
    ensures
        frames(a.push(p)) == frames(a) + frame(p),
    decreases a.len(),
{
    if a.len() == 0 {
        assert(a.push(p).skip(1) =~= Seq::<Seq<u8>>::empty());
        assert(frames(a.push(p)) =~= frame(p) + frames(Seq::<Seq<u8>>::empty()));
        assert(frame(p) + Seq::<u8>::empty() =~= frame(p));
        assert(Seq::<u8>::empty() + frame(p) =~= frame(p));
    } else {
        lemma_frames_push(a.skip(1), p);
        assert(a.push(p).skip(1) =~= a.skip(1).push(p));
        assert(frame(a[0]) + (frames(a.skip(1)) + frame(p)) =~= (frame(a[0]) + frames(a.skip(1)))
            + frame(p));
    }
}

/// Several payloads one after another, each with its length prefix, or
/// `None` where one of them is too long for a prefix.
pub fn encode_frames(payloads: &Vec<Vec<u8>>) -> (r: Option<Vec<u8>>)
    ensures
        r is Some <==> payloads_fit(payloads.deep_view()),
        r is Some ==> r.unwrap()@ == frames(payloads.deep_view()),
{
    let ghost ps = payloads.deep_view();
    let mut out: Vec<u8> = Vec::new();
    let mut i: usize = 0;
    proof {
        assert(ps.take(0) =~= Seq::<Seq<u8>>::empty());
    }
    while i < payloads.len()
        invariant
            ps == payloads.deep_view(),
            i <= ps.len(),
            payloads_fit(ps.take(i as int)),
            out@ == frames(ps.take(i as int)),
        decreases ps.len() - i,
    {
        proof {
            assert(payloads@[i as int].deep_view() =~= payloads@[i as int]@);
        }
        match encode_frame(payloads[i].as_slice()) {
            Some(f) => {
                let ghost before = out@;
                let mut f = f;
                out.append(&mut f);
                proof {
                    lemma_frames_push(ps.take(i as int), ps[i as int]);
                    assert(ps.take(i + 1) =~= ps.take(i as int).push(ps[i as int]));
                    assert(payloads_fit(ps.take(i + 1))) by {
                        assert forall|j: int| 0 <= j < i + 1 implies (#[trigger] ps.take(
                            i + 1,
                        )[j]).len() <= MAX_FRAME_PAYLOAD by {
                            if j < i {
                                assert(ps.take(i + 1)[j] == ps.take(i as int)[j]);
                            }
                        }
                    }
                }
                i += 1;
            },
            None => {
                assert(!payloads_fit(ps)) by {
                    assert(ps[i as int].len() > MAX_FRAME_PAYLOAD);
                }
                return None;
            },
        }
    }
    assert(ps.take(ps.len() as int) =~= ps);
    Some(out)
}

/// A message with its length prefix, as it goes on the stream.
pub fn frame_message(m: &ChannelMessage) -> (r: Vec<u8>)
    ensures
        r@ == frame(message_bytes(*m)),
{
    let bytes = encode(m);
    let framed = encode_frame(bytes.as_slice());
    framed.unwrap()
}

fn copy_range(v: &Vec<u8>, lo: usize, hi: usize) -> (r: Vec<u8>)
    requires
        lo <= hi <= v@.len(),
    ensures
        r@ == v@.subrange(lo as int, hi as int),
{
    let mut out: Vec<u8> = Vec::with_capacity(hi - lo);
    let mut i: usize = lo;
    while i < hi
        invariant
            lo <= i <= hi <= v@.len(),
            out@ == v@.subrange(lo as int, i as int),
        decreases hi - i,
    {
        out.push(v[i]);
        i += 1;
        assert(out@ =~= v@.subrange(lo as int, i as int));
    }
    out
}

/// The receiving end of a framed stream: it holds the bytes of a frame that
/// has not fully arrived.
pub struct FrameReader {
    pending: Vec<u8>,
}

impl View for FrameReader {
    type V = Seq<u8>;

    closed spec fn view(&self) -> Seq<u8> {
        self.pending@
    }
}

impl FrameReader {
    /// A reader holds no whole frame between calls.
    pub closed spec fn wf(&self) -> bool {
        !has_frame(self.pending@)
    }

    pub fn new() -> (r: FrameReader)
        ensures
            r.wf(),
            r@ == Seq::<u8>::empty(),
    {
        FrameReader { pending: Vec::new() }
    }

    /// Takes the next chunk of the stream and gives back the payloads that are
    /// now whole, in order.
    pub fn push_bytes(&mut self, chunk: &[u8]) -> (out: Vec<Vec<u8>>)
        requires
            old(self).wf(),
        ensures
            final(self).wf(),
            (out.deep_view(), final(self)@) == split_frames(old(self)@ + chunk@),
    {
        let mut all = self.pending.clone();
        all.extend_from_slice(chunk);
        let ghost whole = all@;
        assert(whole == old(self)@ + chunk@);
        let mut out: Vec<Vec<u8>> = Vec::new();
        let mut pos: usize = 0;
        proof {
            assert(whole.skip(0) =~= whole);
            assert(out.deep_view() =~= Seq::<Seq<u8>>::empty());
            assert(Seq::<Seq<u8>>::empty() + split_frames(whole).0 =~= split_frames(whole).0);
        }
        while pos < all.len() && all.len() - pos - 1 >= all[pos] as usize
            invariant
                all@ == whole,
                pos <= all@.len(),
                split_frames(whole) == (
                    out.deep_view() + split_frames(whole.skip(pos as int)).0,
                    split_frames(whole.skip(pos as int)).1,
                ),
            decreases all@.len() - pos,
        {
            let n = all[pos] as usize;
            let payload = copy_range(&all, pos + 1, pos + 1 + n);
            let ghost s = whole.skip(pos as int);
            let ghost before = out.deep_view();
            proof {
                assert(has_frame(s));
                assert(s.subrange(1, 1 + n as int) =~= payload@);
                assert(s.skip(1 + n as int) =~= whole.skip((pos + 1 + n) as int));
                assert(payload.deep_view() =~= payload@);
            }
            let ghost old_out = out@;
            out.push(payload);
            pos = pos + 1 + n;
            proof {
                assert(out@ == old_out.push(payload));
                assert(out.deep_view() =~= before.push(payload@));
                let rest = split_frames(whole.skip(pos as int));
                assert(before + (seq![payload@] + rest.0) =~= out.deep_view() + rest.0);
            }
        }
        let rest = copy_range(&all, pos, all.len());
        proof {
            assert(rest@ =~= whole.skip(pos as int));
            assert(!has_frame(rest@));
            assert(out.deep_view() + Seq::<Seq<u8>>::empty() =~= out.deep_view());
        }
        self.pending = rest;
        out
    }

    /// Takes several chunks of the stream in turn and gives back every
    /// payload that became whole, in order.
    pub fn push_chunks(&mut self, chunks: &Vec<Vec<u8>>) -> (out: Vec<Vec<u8>>)
        requires
            old(self).wf(),
        ensures
            final(self).wf(),
            (out.deep_view(), final(self)@) == receive_chunks(old(self)@, chunks.deep_view()),
    {
        let ghost cs = chunks.deep_view();
        let mut out: Vec<Vec<u8>> = Vec::new();
        let mut i: usize = 0;
        proof {
            assert(cs.skip(0) =~= cs);
            assert(out.deep_view() + receive_chunks(self@, cs).0 =~= receive_chunks(self@, cs).0);
        }
        while i < chunks.len()
            invariant
                cs == chunks.deep_view(),
                i <= cs.len(),
                self.wf(),
                receive_chunks(old(self)@, cs) == (
                    out.deep_view() + receive_chunks(self@, cs.skip(i as int)).0,
                    receive_chunks(self@, cs.skip(i as int)).1,
                ),
            decreases cs.len() - i,
        {
            let ghost before = out.deep_view();
            let ghost held = self@;
            proof {
                assert(chunks@[i as int].deep_view() =~= chunks@[i as int]@);
                assert(cs.skip(i as int)[0] == cs[i as int]);
                assert(cs.skip(i as int).skip(1) =~= cs.skip(i + 1));
            }
            let mut got = self.push_bytes(chunks[i].as_slice());
            let ghost got_dv = got.deep_view();
            let ghost old_out = out@;
            let ghost got_v = got@;
            out.append(&mut got);
            i += 1;
            proof {
                assert(out@ == old_out + got_v);
                assert(out.deep_view() =~= before + got_dv);
                let rest = receive_chunks(self@, cs.skip(i as int));
                assert(before + (got_dv + rest.0) =~= out.deep_view() + rest.0);
            }
        }
        proof {
            assert(cs.skip(i as int) =~= Seq::<Seq<u8>>::empty());
            assert(out.deep_view() + Seq::<Seq<u8>>::empty() =~= out.deep_view());
        }
        out
    }
}

} // verus!
