//! The bounded sample ring between an audio callback and the network.
//!
//! Samples are 32-bit words: the bit patterns of the device's 32-bit float
//! samples, which the ring moves without looking at them. Silence is zero.
//! Writes past the capacity are dropped (the newest samples go), and reads of
//! an empty ring return nothing: neither side ever waits on the other.
use vstd::prelude::*;
use ringbuf::traits::{Consumer, Observer, Producer};

verus! {

/// The silent sample.
pub const SILENCE: u32 = 0;

/// A ring of samples with a capacity fixed when it is made.
///
/// The ring buffer lives in a field hidden from the verifier: its type,
/// `SharedRb<S: Storage>`, is bounded by ringbuf's own `Storage` trait, which
/// the verifier cannot take as a declared type. The two names below stand
/// for what it holds and how many slots it has.
#[verifier::external_body]
pub struct SampleRing {
    rb: ringbuf::HeapRb<u32>,
}

/// The samples a ring holds, oldest first.
pub uninterp spec fn ring_samples(r: SampleRing) -> Seq<u32>;

/// The capacity a ring was made with.
pub uninterp spec fn ring_capacity(r: SampleRing) -> nat;

pub open spec fn min_nat(a: nat, b: nat) -> nat {
    if a < b {
        a
    } else {
        b
    }
}

/// What a ring holding `items` with room for `cap` holds after taking `s`:
/// the samples that fit are appended and the rest are dropped.
pub open spec fn after_push(items: Seq<u32>, cap: nat, s: Seq<u32>) -> Seq<u32> {
    items + s.take(min_nat(s.len(), (cap - items.len()) as nat) as int)
}

/// What a ring holds after taking each slice of `slices` in turn.
pub open spec fn after_pushes(items: Seq<u32>, cap: nat, slices: Seq<Seq<u32>>) -> Seq<u32>
    decreases slices.len(),
{
    if slices.len() == 0 {
        items
    } else {
        after_pushes(after_push(items, cap, slices[0]), cap, slices.skip(1))
    }
}

/// Relies on `HeapRb::new` (ringbuf): an empty ring of exactly `capacity`
/// slots; it panics on a zero capacity.
#[verifier::external_body]
fn rb_new(capacity: usize) -> (r: SampleRing)
    requires
        capacity > 0,
    ensures
        ring_samples(r) == Seq::<u32>::empty(),
        ring_capacity(r) == capacity,
{
    SampleRing { rb: ringbuf::HeapRb::<u32>::new(capacity) }
}

/// Relies on `Producer::push_slice` (ringbuf): it copies as many leading
/// items of `s` as there are vacant slots and returns that count.
#[verifier::external_body]
fn rb_push_slice(r: &mut SampleRing, s: &[u32]) -> (n: usize)
    requires
        ring_samples(*old(r)).len() <= ring_capacity(*old(r)),
    ensures
        n == min_nat(s@.len(), (ring_capacity(*old(r)) - ring_samples(*old(r)).len()) as nat),
        ring_samples(*final(r)) == ring_samples(*old(r)) + s@.take(n as int),
        ring_capacity(*final(r)) == ring_capacity(*old(r)),
{
    r.rb.push_slice(s)
}

/// Relies on `Consumer::pop_slice` (ringbuf): it moves the oldest items into
/// the front of `out`, as many as fit or as there are, and returns that count.
#[verifier::external_body]
fn rb_pop_slice(r: &mut SampleRing, out: &mut Vec<u32>) -> (n: usize)
    ensures
        n == min_nat(old(out)@.len(), ring_samples(*old(r)).len()),
        final(out)@ == ring_samples(*old(r)).take(n as int) + old(out)@.skip(n as int),
        ring_samples(*final(r)) == ring_samples(*old(r)).skip(n as int),
        ring_capacity(*final(r)) == ring_capacity(*old(r)),
{
    r.rb.pop_slice(out.as_mut_slice())
}

/// Relies on `Observer::occupied_len` (ringbuf): the number of items held.
#[verifier::external_body]
fn rb_occupied_len(r: &SampleRing) -> (n: usize)
    ensures
        n == ring_samples(*r).len(),
{
    r.rb.occupied_len()
}

/// Relies on `Observer::capacity` (ringbuf): the number of slots.
#[verifier::external_body]
fn rb_capacity(r: &SampleRing) -> (n: usize)
    ensures
        n == ring_capacity(*r),
{
    r.rb.capacity().get()
}

impl SampleRing {
    /// A ring never holds more than its capacity.
    pub open spec fn wf(self) -> bool {
        ring_samples(self).len() <= ring_capacity(self)
    }

    /// An empty ring with room for `capacity` samples.
    pub fn new(capacity: usize) -> (r: SampleRing)
        requires
            capacity > 0,
        ensures
            r.wf(),
            ring_samples(r) == Seq::<u32>::empty(),
            ring_capacity(r) == capacity,
    {
        rb_new(capacity)
    }

    pub fn len(&self) -> (n: usize)
        ensures
            n == ring_samples(*self).len(),
    {
        rb_occupied_len(self)
    }

    pub fn capacity(&self) -> (n: usize)
        ensures
            n == ring_capacity(*self),
    {
        rb_capacity(self)
    }

    pub fn is_empty(&self) -> (b: bool)
        ensures
            b == (ring_samples(*self).len() == 0),
    {
        rb_occupied_len(self) == 0
    }

    /// Appends as many samples of `s` as there is room for and drops the rest;
    /// returns how many were kept.
    pub fn push_slice(&mut self, s: &[u32]) -> (n: usize)
        requires
            old(self).wf(),
        ensures
            final(self).wf(),
            n == min_nat(s@.len(), (ring_capacity(*old(self)) - ring_samples(*old(self)).len()) as nat),
            ring_samples(*final(self)) == after_push(ring_samples(*old(self)), ring_capacity(*old(self)), s@),
            ring_capacity(*final(self)) == ring_capacity(*old(self)),
    {
        rb_push_slice(self, s)
    }

    /// Takes several slices in turn, each as `push_slice` does; returns how
    /// many samples were kept in all.
    pub fn push_slices(&mut self, slices: &Vec<Vec<u32>>) -> (kept: usize)
        requires
            old(self).wf(),
        ensures
            final(self).wf(),
            ring_samples(*final(self)) == after_pushes(
                ring_samples(*old(self)),
                ring_capacity(*old(self)),
                slices.deep_view(),
            ),
            ring_capacity(*final(self)) == ring_capacity(*old(self)),
            kept == ring_samples(*final(self)).len() - ring_samples(*old(self)).len(),
    {
        let ghost ss = slices.deep_view();
        let ghost cap = ring_capacity(*old(self));
        let ghost start = ring_samples(*old(self));
        let start_len = self.len();
        let mut i: usize = 0;
        proof {
            assert(ss.skip(0) =~= ss);
        }
        while i < slices.len()
            invariant
                ss == slices.deep_view(),
                i <= ss.len(),
                self.wf(),
                ring_capacity(*self) == cap,
                ring_samples(*self).len() >= start.len(),
                after_pushes(start, cap, ss) == after_pushes(ring_samples(*self), cap, ss.skip(i as int)),
            decreases ss.len() - i,
        {
            proof {
                assert(slices@[i as int].deep_view() =~= slices@[i as int]@);
                assert(ss.skip(i as int)[0] == ss[i as int]);
                assert(ss.skip(i as int).skip(1) =~= ss.skip(i + 1));
            }
            self.push_slice(slices[i].as_slice());
            i += 1;
        }
        assert(ss.skip(i as int) =~= Seq::<Seq<u32>>::empty());
        self.len() - start_len
    }

    /// Moves the oldest samples into the front of `out`, as many as fit or as
    /// there are, and returns that count; the rest of `out` is untouched.
    pub fn pop_slice(&mut self, out: &mut Vec<u32>) -> (n: usize)
        requires
            old(self).wf(),
        ensures
            final(self).wf(),
            n == min_nat(old(out)@.len(), ring_samples(*old(self)).len()),
            final(out)@ == ring_samples(*old(self)).take(n as int) + old(out)@.skip(n as int),
            ring_samples(*final(self)) == ring_samples(*old(self)).skip(n as int),
            ring_capacity(*final(self)) == ring_capacity(*old(self)),
    {
        rb_pop_slice(self, out)
    }

    /// The playback pull: exactly `n` samples, the oldest held ones first and
    /// silence after them where the ring runs short.
    pub fn pull_playback(&mut self, n: usize) -> (r: Vec<u32>)
        requires
            old(self).wf(),
        ensures
            final(self).wf(),
            r@.len() == n,
            ({
                let k = min_nat(n as nat, ring_samples(*old(self)).len());
                &&& forall|i: int| 0 <= i < k ==> r@[i] == ring_samples(*old(self))[i]
                &&& forall|i: int| k <= i < n ==> r@[i] == SILENCE
                &&& ring_samples(*final(self)) == ring_samples(*old(self)).skip(k as int)
            }),
            ring_capacity(*final(self)) == ring_capacity(*old(self)),
    {
        let mut out: Vec<u32> = Vec::with_capacity(n);
        let mut i: usize = 0;
        while i < n
            invariant
                i <= n,
                out@.len() == i,
                forall|j: int| 0 <= j < i ==> out@[j] == SILENCE,
            decreases n - i,
        {
            out.push(SILENCE);
            i += 1;
        }
        rb_pop_slice(self, &mut out);
        out
    }

    /// Takes exactly `frame_len` of the oldest samples, or nothing where fewer
    /// are held: a partial frame never leaves the ring.
    pub fn take_frame(&mut self, frame_len: usize) -> (r: Option<Vec<u32>>)
        requires
            old(self).wf(),
        ensures
            final(self).wf(),
            ring_capacity(*final(self)) == ring_capacity(*old(self)),
            ring_samples(*old(self)).len() >= frame_len ==> r is Some && r.unwrap()@
                == ring_samples(*old(self)).take(frame_len as int) && ring_samples(*final(self))
                == ring_samples(*old(self)).skip(frame_len as int),
            ring_samples(*old(self)).len() < frame_len ==> r is None && *final(self) == *old(self),
    {
        if rb_occupied_len(self) < frame_len {
            return None;
        }
        let mut out: Vec<u32> = Vec::with_capacity(frame_len);
        let mut i: usize = 0;
        while i < frame_len
            invariant
                i <= frame_len,
                out@.len() == i,
            decreases frame_len - i,
        {
            out.push(SILENCE);
            i += 1;
        }
        rb_pop_slice(self, &mut out);
        assert(out@ =~= ring_samples(*old(self)).take(frame_len as int));
        Some(out)
    }
}

proof fn lemma_after_pushes_general(items: Seq<u32>, cap: nat, slices: Seq<Seq<u32>>)
    requires
        items.len() <= cap,
    ensures
        after_pushes(items, cap, slices) == (items + slices.flatten()).take(
            min_nat(cap, items.len() + slices.flatten().len()) as int,
        ),
    decreases slices.len(),
{
    if slices.len() == 0 {
        assert((items + slices.flatten()).take(items.len() as int) =~= items);
    } else {
        let s0 = slices[0];
        let rest = slices.skip(1);
        let next = after_push(items, cap, s0);
        assert(slices.drop_first() == rest);
        assert(slices.flatten() == s0 + rest.flatten());
        lemma_after_pushes_general(next, cap, rest);
        let all = items + slices.flatten();
        assert(items + s0 + rest.flatten() =~= all);
        if items.len() + s0.len() <= cap {
            assert(next =~= items + s0);
        } else {
            assert(next =~= all.take(cap as int));
            assert((next + rest.flatten()).take(cap as int) =~= all.take(cap as int));
        }
    }
}

/// Pushing slices into a ring of capacity `cap` that starts empty keeps the
/// oldest samples, at most `cap` of them, unchanged and in order; every
/// sample past the capacity is dropped.
pub proof fn lemma_ring_bounds(cap: nat, slices: Seq<Seq<u32>>)
    ensures
        after_pushes(Seq::empty(), cap, slices) == slices.flatten().take(
            min_nat(cap, slices.flatten().len()) as int,
        ),
        after_pushes(Seq::empty(), cap, slices).len() <= cap,
{
    lemma_after_pushes_general(Seq::empty(), cap, slices);
    assert(Seq::<u32>::empty() + slices.flatten() =~= slices.flatten());
}

} // verus!
