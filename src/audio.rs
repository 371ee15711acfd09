//! Audio frames on the wire: a fixed number of interleaved stereo samples,
//! each as four little-endian bytes, sent whole with no prefix.
use vstd::prelude::*;
use crate::ring::{after_push, ring_capacity, ring_samples, SampleRing};
use crate::wire::{le_bytes, le_value, lemma_le_round_trip};

verus! {

/// Samples in one frame: 128 stereo sample pairs.
pub const FRAME_SAMPLES: usize = 256;

/// Bytes in one frame.
pub const FRAME_BYTES: usize = 1024;

/// The capacity of the capture ring: ten frames.
pub const CAPTURE_RING_SAMPLES: usize = 2560;

/// The capacity of the playback ring.
pub const PLAYBACK_RING_SAMPLES: usize = 44100;

/// The samples that a byte string holds, four bytes each.
pub open spec fn samples_of(b: Seq<u8>) -> Seq<u32> {
    Seq::new(
        b.len() / 4,
        |i: int| le_value(b[4 * i], b[4 * i + 1], b[4 * i + 2], b[4 * i + 3]),
    )
}

/// The bytes of a run of samples.
pub open spec fn bytes_of(s: Seq<u32>) -> Seq<u8> {
    Seq::new(4 * s.len(), |j: int| le_bytes(s[j / 4])[j % 4])
}

/// Samples turned into bytes and back are the same samples: the audio path
/// neither converts nor reorders them.
pub proof fn lemma_samples_round_trip(s: Seq<u32>)
    ensures
        samples_of(bytes_of(s)) == s,
{
    let b = bytes_of(s);
    assert(b.len() / 4 == s.len());
    assert forall|i: int| 0 <= i < s.len() implies #[trigger] samples_of(b)[i] == s[i] by {
        assert((4 * i) / 4 == i && (4 * i + 1) / 4 == i && (4 * i + 2) / 4 == i && (4 * i + 3)
            / 4 == i);
        assert((4 * i) % 4 == 0 && (4 * i + 1) % 4 == 1 && (4 * i + 2) % 4 == 2 && (4 * i + 3)
            % 4 == 3);
        lemma_le_round_trip(s[i]);
    }
    assert(samples_of(b) =~= s);
}

/// The samples of a byte string whose length is a multiple of four.
pub fn samples_from_bytes(b: &[u8]) -> (r: Vec<u32>)
    requires
        b@.len() % 4 == 0,
    ensures
        r@ == samples_of(b@),
{
    let len = b.len();
    let n = len / 4;
    let mut out: Vec<u32> = Vec::with_capacity(n);
    let mut i: usize = 0;
    while i < n
        invariant
            len == b@.len(),
            n == b@.len() / 4,
            b@.len() % 4 == 0,
            i <= n,
            out@.len() == i,
            forall|j: int| 0 <= j < i ==> out@[j] == samples_of(b@)[j],
        decreases n - i,
    {
        assert(4 * i + 4 <= b@.len()) by (nonlinear_arith)
            requires
                i < n,
                n == b@.len() / 4,
                b@.len() % 4 == 0,
        ;
        let at = 4 * i;
        let v = (b[at] as u32) | ((b[at + 1] as u32) << 8u32) | ((b[at + 2] as u32) << 16u32) | ((
        b[at + 3] as u32) << 24u32);
        out.push(v);
        i += 1;
    }
    assert(out@ =~= samples_of(b@));
    out
}

/// The bytes of a run of samples.
pub fn bytes_from_samples(s: &[u32]) -> (r: Vec<u8>)
    requires
        4 * s@.len() <= usize::MAX,
    ensures
        r@ == bytes_of(s@),
{
    let n = s.len();
    let mut out: Vec<u8> = Vec::with_capacity(4 * n);
    let mut i: usize = 0;
    while i < n
        invariant
            n == s@.len(),
            4 * n <= usize::MAX,
            i <= n,
            out@.len() == 4 * i,
            forall|j: int| 0 <= j < 4 * i ==> out@[j] == bytes_of(s@)[j],
        decreases n - i,
    {
        let v = s[i];
        out.push(v as u8);
        out.push((v >> 8u32) as u8);
        out.push((v >> 16u32) as u8);
        out.push((v >> 24u32) as u8);
        proof {
            assert forall|j: int| 0 <= j < 4 * (i + 1) implies out@[j] == bytes_of(s@)[j] by {
                if j >= 4 * i {
                    assert(j / 4 == i);
                    assert(j % 4 == j - 4 * i);
                }
            }
        }
        i += 1;
    }
    assert(out@ =~= bytes_of(s@));
    out
}

/// The playback side takes one frame off the network: its samples go into the
/// ring as far as there is room, and the rest are dropped.
pub fn receive_audio_frame(ring: &mut SampleRing, frame: &[u8]) -> (kept: usize)
    requires
        old(ring).wf(),
        frame@.len() % 4 == 0,
    ensures
        final(ring).wf(),
        ring_samples(*final(ring)) == after_push(
            ring_samples(*old(ring)),
            ring_capacity(*old(ring)),
            samples_of(frame@),
        ),
        ring_capacity(*final(ring)) == ring_capacity(*old(ring)),
        kept == ring_samples(*final(ring)).len() - ring_samples(*old(ring)).len(),
{
    let samples = samples_from_bytes(frame);
    ring.push_slice(samples.as_slice())
}

/// The capture side's network loop: the bytes of the next whole frame, or
/// `None` while the ring holds less than a frame.
pub fn next_audio_frame(ring: &mut SampleRing) -> (r: Option<Vec<u8>>)
    requires
        old(ring).wf(),
    ensures
        final(ring).wf(),
        ring_capacity(*final(ring)) == ring_capacity(*old(ring)),
        ring_samples(*old(ring)).len() >= FRAME_SAMPLES ==> r is Some && r.unwrap()@ == bytes_of(
            ring_samples(*old(ring)).take(FRAME_SAMPLES as int),
        ) && ring_samples(*final(ring)) == ring_samples(*old(ring)).skip(FRAME_SAMPLES as int),
        ring_samples(*old(ring)).len() < FRAME_SAMPLES ==> r is None && *final(ring) == *old(ring),
{
    match ring.take_frame(FRAME_SAMPLES) {
        Some(samples) => Some(bytes_from_samples(samples.as_slice())),
        None => None,
    }
}

} // verus!
