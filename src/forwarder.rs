//! The input forwarder: the sending side's queue of captured events and the
//! receiving side's turn from stream bytes to messages.
//!
//! An event leaves the queue only once its frame was written whole. When the
//! link drops, the events not yet written stay queued and go out, in order,
//! on the next link; an event that was written is never written again.
use vstd::prelude::*;
use crate::codes::HidEvent;
use crate::framing::{
    frame, frame_message, frames, lemma_framing_integrity, payloads_fit, receive_chunks,
    split_frames, FrameReader, MAX_FRAME_PAYLOAD,
};
use crate::wire::{
    decode, lemma_decode_encode, message_bytes, parse_message, ChannelMessage, DecodeError,
};

verus! {

/// The events that a run of send attempts delivers, and those still queued
/// after it: an attempt that succeeds delivers the oldest queued event, one
/// that fails (the link dropped) delivers nothing and keeps the queue.
pub open spec fn after_attempts(queue: Seq<HidEvent>, outcomes: Seq<bool>) -> (
    Seq<HidEvent>,
    Seq<HidEvent>,
)
    decreases outcomes.len(),
{
    if outcomes.len() == 0 {
        (Seq::empty(), queue)
    } else if outcomes[0] && queue.len() > 0 {
        let rest = after_attempts(queue.skip(1), outcomes.skip(1));
        (seq![queue[0]] + rest.0, rest.1)
    } else {
        after_attempts(queue, outcomes.skip(1))
    }
}

/// However the link fails and recovers, the delivered events followed by the
/// queued ones are exactly the captured events in order: none is delivered
/// twice, none is lost, none overtakes another.
pub proof fn lemma_delivered_once(queue: Seq<HidEvent>, outcomes: Seq<bool>)
    ensures
        after_attempts(queue, outcomes).0 + after_attempts(queue, outcomes).1 == queue,
    decreases outcomes.len(),
{
    if outcomes.len() == 0 {
        assert(Seq::<HidEvent>::empty() + queue =~= queue);
    } else if outcomes[0] && queue.len() > 0 {
        lemma_delivered_once(queue.skip(1), outcomes.skip(1));
        let rest = after_attempts(queue.skip(1), outcomes.skip(1));
        assert(seq![queue[0]] + rest.0 + rest.1 =~= seq![queue[0]] + queue.skip(1));
        assert(seq![queue[0]] + queue.skip(1) =~= queue);
    } else {
        lemma_delivered_once(queue, outcomes.skip(1));
    }
}

/// Captured events that wait to be written to the link, oldest first.
pub struct InputOutbox {
    queue: Vec<HidEvent>,
}

impl View for InputOutbox {
    type V = Seq<HidEvent>;

    closed spec fn view(&self) -> Seq<HidEvent> {
        self.queue@
    }
}

impl InputOutbox {
    pub fn new() -> (r: InputOutbox)
        ensures
            r@ == Seq::<HidEvent>::empty(),
    {
        InputOutbox { queue: Vec::new() }
    }

    pub fn len(&self) -> (n: usize)
        ensures
            n == self@.len(),
    {
        self.queue.len()
    }

    /// Queues a captured event behind the others.
    pub fn enqueue(&mut self, e: HidEvent)
        ensures
            final(self)@ == old(self)@.push(e),
    {
        self.queue.push(e);
    }

    /// The frame to write next: the oldest event as a message, or `None`
    /// when nothing waits.
    pub fn next_frame(&self) -> (r: Option<Vec<u8>>)
        ensures
            self@.len() == 0 ==> r is None,
            self@.len() > 0 ==> r is Some && r.unwrap()@ == frame(
                message_bytes(ChannelMessage::Hid(self@[0])),
            ),
    {
        if self.queue.len() == 0 {
            None
        } else {
            Some(frame_message(&ChannelMessage::Hid(self.queue[0])))
        }
    }

    /// Records that the frame of the oldest event was written whole.
    pub fn confirm_sent(&mut self) -> (sent: Option<HidEvent>)
        ensures
            old(self)@.len() == 0 ==> sent is None && final(self)@ == old(self)@,
            old(self)@.len() > 0 ==> sent == Some(old(self)@[0]) && final(self)@ == old(
                self,
            )@.skip(1),
    {
        if self.queue.len() == 0 {
            None
        } else {
            let e = self.queue.remove(0);
            assert(old(self)@.remove(0) =~= old(self)@.skip(1));
            Some(e)
        }
    }
}

/// The messages that a run of payloads holds, up to the first one that does
/// not decode, and that one's error.
pub open spec fn decode_all(ps: Seq<Seq<u8>>) -> (Seq<ChannelMessage>, Option<DecodeError>)
    decreases ps.len(),
{
    if ps.len() == 0 {
        (Seq::empty(), None)
    } else {
        match parse_message(ps[0]) {
            Ok(m) => {
                let rest = decode_all(ps.skip(1));
                (seq![m] + rest.0, rest.1)
            },
            Err(e) => (Seq::empty(), Some(e)),
        }
    }
}

/// The receiving end of the input stream.
pub struct InputReceiver {
    reader: FrameReader,
}

impl View for InputReceiver {
    type V = Seq<u8>;

    closed spec fn view(&self) -> Seq<u8> {
        self.reader@
    }
}

impl InputReceiver {
    pub closed spec fn wf(&self) -> bool {
        self.reader.wf()
    }

    pub fn new() -> (r: InputReceiver)
        ensures
            r.wf(),
            r@ == Seq::<u8>::empty(),
    {
        InputReceiver { reader: FrameReader::new() }
    }

    /// Takes the next chunk of the stream and gives back the messages that
    /// are now whole, in order. A payload that does not decode ends the list
    /// and comes back as the error: the stream can no longer be trusted.
    pub fn take_bytes(&mut self, chunk: &[u8]) -> (r: (Vec<ChannelMessage>, Option<DecodeError>))
        requires
            old(self).wf(),
        ensures
            final(self).wf(),
            final(self)@ == split_frames(old(self)@ + chunk@).1,
            (r.0@, r.1) == decode_all(split_frames(old(self)@ + chunk@).0),
    {
        let payloads = self.reader.push_bytes(chunk);
        let ghost ps = payloads.deep_view();
        let mut out: Vec<ChannelMessage> = Vec::new();
        let mut i: usize = 0;
        proof {
            assert(ps.skip(0) =~= ps);
            assert(Seq::<ChannelMessage>::empty() + decode_all(ps).0 =~= decode_all(ps).0);
        }
        while i < payloads.len()
            invariant
                self.wf(),
                self@ == split_frames(old(self)@ + chunk@).1,
                ps == split_frames(old(self)@ + chunk@).0,
                ps == payloads.deep_view(),
                i <= payloads@.len(),
                decode_all(ps) == (out@ + decode_all(ps.skip(i as int)).0, decode_all(
                    ps.skip(i as int),
                ).1),
            decreases payloads@.len() - i,
        {
            let ghost tail = ps.skip(i as int);
            proof {
                assert(payloads@[i as int].deep_view() =~= payloads@[i as int]@);
                assert(tail[0] == ps[i as int]);
                assert(tail.skip(1) =~= ps.skip(i + 1));
            }
            match decode(payloads[i].as_slice()) {
                Ok(m) => {
                    let ghost before = out@;
                    out.push(m);
                    i += 1;
                    proof {
                        let rest = decode_all(ps.skip(i as int));
                        assert(before + (seq![m] + rest.0) =~= out@ + rest.0);
                    }
                },
                Err(e) => {
                    assert(out@ + Seq::<ChannelMessage>::empty() =~= out@);
                    return (out, Some(e));
                },
            }
        }
        assert(out@ + Seq::<ChannelMessage>::empty() =~= out@);
        (out, None)
    }
}

proof fn lemma_message_fits(m: ChannelMessage)
    ensures
        message_bytes(m).len() <= MAX_FRAME_PAYLOAD,
{
}

proof fn lemma_decode_all_events(es: Seq<HidEvent>)
    ensures
        decode_all(es.map_values(|e: HidEvent| message_bytes(ChannelMessage::Hid(e)))) == (
            es.map_values(|e: HidEvent| ChannelMessage::Hid(e)),
            None::<DecodeError>,
        ),
    decreases es.len(),
{
    let ps = es.map_values(|e: HidEvent| message_bytes(ChannelMessage::Hid(e)));
    if es.len() > 0 {
        lemma_decode_encode(ChannelMessage::Hid(es[0]));
        lemma_decode_all_events(es.skip(1));
        assert(ps.skip(1) =~= es.skip(1).map_values(
            |e: HidEvent| message_bytes(ChannelMessage::Hid(e)),
        ));
        assert(es.map_values(|e: HidEvent| ChannelMessage::Hid(e)) =~= seq![
            ChannelMessage::Hid(es[0]),
        ] + es.skip(1).map_values(|e: HidEvent| ChannelMessage::Hid(e)));
    } else {
        assert(es.map_values(|e: HidEvent| ChannelMessage::Hid(e)) =~= Seq::<
            ChannelMessage,
        >::empty());
    }
}

/// Events sent one after another are received as the same events in the
/// same order, whatever chunks the stream delivers them in.
pub proof fn lemma_events_in_order(es: Seq<HidEvent>, chunks: Seq<Seq<u8>>)
    requires
        chunks.flatten() == frames(
            es.map_values(|e: HidEvent| message_bytes(ChannelMessage::Hid(e))),
        ),
    ensures
        receive_chunks(Seq::empty(), chunks).1 == Seq::<u8>::empty(),
        decode_all(receive_chunks(Seq::empty(), chunks).0) == (
            es.map_values(|e: HidEvent| ChannelMessage::Hid(e)),
            None::<DecodeError>,
        ),
{
    let ps = es.map_values(|e: HidEvent| message_bytes(ChannelMessage::Hid(e)));
    assert(payloads_fit(ps)) by {
        assert forall|i: int| 0 <= i < ps.len() implies (#[trigger] ps[i]).len()
            <= MAX_FRAME_PAYLOAD by {
            lemma_message_fits(ChannelMessage::Hid(es[i]));
        }
    }
    lemma_framing_integrity(ps, chunks);
    lemma_decode_all_events(es);
}

} // verus!
