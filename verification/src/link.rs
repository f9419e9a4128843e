//! What the transport guarantees, stated for a link that loses datagrams.
//!
//! A [`Link`] joins the two state machines of the transport and records what
//! the receiving caller has been handed so far. Nothing here runs: these are
//! the theorems that make the transport worth using.

use vstd::prelude::*;
use crate::frame::{lemma_decode_encode, spec_decode, spec_encode, FrameView};
use crate::transport::{
    spec_already_seen, spec_distance_behind, spec_next_seq, DeliveryView, ReceiverView,
    ReceptionView, SenderView, TimeoutView,
};

verus! {

/// The way in which one transmission attempt comes to nothing.
pub ghost enum Loss {
    /// The data frame never reaches the receiver.
    Data,
    /// The data frame arrives, but its acknowledgment never reaches the sender.
    Ack,
}

/// A sender and a receiver joined by a network, with a record of what the
/// receiving caller has got.
pub ghost struct Link {
    pub sender: SenderView,
    pub receiver: ReceiverView,
    /// All payload bytes handed to the receiving caller, in order.
    pub delivered: Seq<u8>,
    /// How many times the receiving caller was told that the stream has ended.
    pub end_reports: nat,
}

impl Link {
    /// A link whose two ends have just been set up with the same chunk size.
    pub open spec fn fresh(chunk_size: u32, retry_budget: u32) -> Link {
        Link {
            sender: SenderView::fresh(chunk_size, retry_budget),
            receiver: ReceiverView::fresh(chunk_size),
            delivered: Seq::empty(),
            end_reports: 0,
        }
    }

    /// Both ends agree on where the stream stands: nothing is in flight, the
    /// receiver awaits the very number that the sender will use next, the
    /// stream is open, and the receiver takes whatever size the sender sends.
    pub open spec fn in_step(self) -> bool {
        &&& self.sender.pending is None
        &&& self.sender.end_seq is None
        &&& !self.receiver.finished
        &&& self.receiver.expected == self.sender.next_seq
        &&& self.sender.chunk_size <= self.receiver.chunk_size
    }

    /// The link after `datagram` reached the receiver and the caller was
    /// handed what it yields. The acknowledgment, if any, is still under way.
    pub open spec fn arrive(self, datagram: Seq<u8>) -> Link {
        let answer = self.receiver.reception(datagram);
        Link {
            receiver: self.receiver.after_datagram(datagram),
            delivered: self.delivered + answer.delivery.bytes(),
            end_reports: if answer.delivery is EndOfStream {
                self.end_reports + 1
            } else {
                self.end_reports
            },
            ..self
        }
    }

    /// The link after `datagram` reached the receiver and the acknowledgment
    /// it earned, if any, reached the sender.
    pub open spec fn exchange(self, datagram: Seq<u8>) -> Link {
        let there = self.arrive(datagram);
        match self.receiver.reception(datagram).ack {
            Some(ack) => Link { sender: there.sender.after_datagram(ack), ..there },
            None => there,
        }
    }

    /// Plays out the sending of the pending frame over a network that foils
    /// the first attempts as `losses` says and lets the next attempt through.
    /// After each foiled attempt the sender's wait times out. The result is
    /// `None` if the sender gives up.
    pub open spec fn carry(self, losses: Seq<Loss>) -> Option<Link>
        decreases losses.len(),
    {
        match self.sender.pending {
            None => Some(self),
            Some(p) => if losses.len() == 0 {
                Some(self.exchange(p.datagram()))
            } else {
                let there = match losses[0] {
                    Loss::Data => self,
                    Loss::Ack => self.arrive(p.datagram()),
                };
                match there.sender.timeout_action() {
                    TimeoutView::Retransmit(_) => Link {
                        sender: there.sender.after_timeout(),
                        ..there
                    }.carry(losses.drop_first()),
                    _ => None,
                }
            },
        }
    }

    /// Plays out the acknowledged sending of `chunks`, one after the other,
    /// where `losses[i]` says what befalls the attempts to send `chunks[i]`.
    /// The result is `None` if the sender gives up along the way.
    pub open spec fn transfer(self, chunks: Seq<Seq<u8>>, losses: Seq<Seq<Loss>>) -> Option<Link>
        decreases chunks.len(),
    {
        if chunks.len() == 0 {
            Some(self)
        } else {
            let sent = Link { sender: self.sender.after_send(chunks.first(), true), ..self };
            match sent.carry(losses.first()) {
                Some(next) => next.transfer(chunks.drop_first(), losses.drop_first()),
                None => None,
            }
        }
    }

    /// The link after the sender ended the stream and the marker got through.
    pub open spec fn finish(self) -> Link {
        Link { sender: self.sender.after_end(), ..self }.exchange(self.sender.end_datagram())
    }
}

/// The receiver's state after it took each of `datagrams` in turn.
pub open spec fn after_all(r: ReceiverView, datagrams: Seq<Seq<u8>>) -> ReceiverView
    decreases datagrams.len(),
{
    if datagrams.len() == 0 {
        r
    } else {
        after_all(r.after_datagram(datagrams.first()), datagrams.drop_first())
    }
}

/// The frame just behind the one that is due counts as seen, also across the wrap.
pub proof fn lemma_previous_is_seen(seq: u32)
    ensures
        spec_already_seen(spec_next_seq(seq), seq),
        spec_distance_behind(spec_next_seq(seq), seq) == 1,
{
}

proof fn lemma_carry(link: Link, losses: Seq<Loss>, base: Seq<u8>)
    requires
        link.sender.pending is Some,
        1 <= link.sender.pending->0.payload.len() <= link.receiver.chunk_size,
        losses.len() <= link.sender.pending->0.retries_left,
        !link.receiver.finished,
        (link.receiver.expected == link.sender.pending->0.seq && link.delivered == base) || (
        link.receiver.expected == spec_next_seq(link.sender.pending->0.seq) && link.delivered
            == base + link.sender.pending->0.payload),
    ensures
        link.carry(losses) is Some,
        link.carry(losses)->0.sender == (SenderView { pending: None, ..link.sender }),
        link.carry(losses)->0.receiver == (ReceiverView {
            expected: spec_next_seq(link.sender.pending->0.seq),
            ..link.receiver
        }),
        link.carry(losses)->0.delivered == base + link.sender.pending->0.payload,
        link.carry(losses)->0.end_reports == link.end_reports,
    decreases losses.len(),
{
    let p = link.sender.pending->0;
    let frame = FrameView::Data { seq: p.seq, payload: p.payload };
    lemma_decode_encode(frame);
    lemma_decode_encode(FrameView::Ack { seq: p.seq });
    lemma_previous_is_seen(p.seq);
    let there = link.arrive(p.datagram());
    assert(there.receiver == ReceiverView { expected: spec_next_seq(p.seq), ..link.receiver });
    assert(there.delivered == base + p.payload) by {
        if link.receiver.expected == p.seq {
        } else {
            assert(link.delivered + Seq::<u8>::empty() =~= link.delivered);
        }
    }
    if losses.len() == 0 {
    } else {
        let after_loss = match losses[0] {
            Loss::Data => link,
            Loss::Ack => there,
        };
        let again = Link { sender: after_loss.sender.after_timeout(), ..after_loss };
        lemma_carry(again, losses.drop_first(), base);
    }
}

/// No data is lost under loss. Let both ends be in step, let the chunks be
/// cut to the sender's chunk size, and let the network foil, for each chunk,
/// no more attempts than the sender has retries. Then the sender never gives
/// up, both ends are in step again afterwards, and the receiving caller has
/// been handed exactly the bytes of the chunks, in order and without any
/// repeated: as many bytes are received as were sent.
pub proof fn lemma_no_data_loss(link: Link, chunks: Seq<Seq<u8>>, losses: Seq<Seq<Loss>>)
    requires
        link.in_step(),
        losses.len() == chunks.len(),
        forall|i: int| 0 <= i < chunks.len() ==> (#[trigger] chunks[i]).len() <= link.sender.chunk_size,
        forall|i: int| 0 <= i < losses.len() ==> (#[trigger] losses[i]).len() <= link.sender.retry_budget,
    ensures
        link.transfer(chunks, losses) is Some,
        link.transfer(chunks, losses)->0.in_step(),
        link.transfer(chunks, losses)->0.delivered == link.delivered + chunks.flatten(),
        link.transfer(chunks, losses)->0.delivered.len() == link.delivered.len()
            + chunks.flatten().len(),
        link.transfer(chunks, losses)->0.end_reports == link.end_reports,
        link.transfer(chunks, losses)->0.sender.chunk_size == link.sender.chunk_size,
        link.transfer(chunks, losses)->0.sender.retry_budget == link.sender.retry_budget,
        link.transfer(chunks, losses)->0.receiver.chunk_size == link.receiver.chunk_size,
    decreases chunks.len(),
{
    if chunks.len() == 0 {
        assert(chunks.flatten() =~= Seq::<u8>::empty());
        assert(link.delivered + chunks.flatten() =~= link.delivered);
    } else {
        let chunk = chunks.first();
        let sent = Link { sender: link.sender.after_send(chunk, true), ..link };
        assert(chunks[0].len() <= link.sender.chunk_size);
        assert(losses[0].len() <= link.sender.retry_budget);
        if chunk.len() > 0 {
            lemma_carry(sent, losses.first(), link.delivered);
        } else {
            assert(link.delivered + chunk =~= link.delivered);
        }
        let next = sent.carry(losses.first())->0;
        assert(next.in_step());
        assert(next.delivered == link.delivered + chunk);
        let rest = chunks.drop_first();
        let rest_losses = losses.drop_first();
        assert forall|i: int| 0 <= i < rest.len() implies (#[trigger] rest[i]).len()
            <= next.sender.chunk_size by {
            assert(rest[i] == chunks[i + 1]);
        }
        assert forall|i: int| 0 <= i < rest_losses.len() implies (#[trigger] rest_losses[i]).len()
            <= next.sender.retry_budget by {
            assert(rest_losses[i] == losses[i + 1]);
        }
        lemma_no_data_loss(next, rest, rest_losses);
        assert(chunks.flatten() == chunk + rest.flatten());
        assert((link.delivered + chunk) + rest.flatten() =~= link.delivered + (chunk
            + rest.flatten()));
    }
}

/// Loss beyond the retry budget is fatal. If the network foils more
/// attempts to send a frame than the sender has retries left for it, the
/// sender gives up, however the attempts came to nothing.
pub proof fn lemma_gives_up_beyond_budget(link: Link, losses: Seq<Loss>)
    requires
        link.sender.pending is Some,
        losses.len() > link.sender.pending->0.retries_left,
    ensures
        link.carry(losses) is None,
    decreases losses.len(),
{
    let p = link.sender.pending->0;
    let there = match losses[0] {
        Loss::Data => link,
        Loss::Ack => link.arrive(p.datagram()),
    };
    if p.retries_left > 0 {
        let again = Link { sender: there.sender.after_timeout(), ..there };
        lemma_gives_up_beyond_budget(again, losses.drop_first());
    }
}

/// Repetitions are suppressed. Once the receiver has taken a data frame, a
/// replay of the same datagram, at once or after any number of further
/// datagrams short of half the number range, is acknowledged afresh with the
/// same acknowledgment, hands nothing to the caller and leaves the receiver
/// as it was.
pub proof fn lemma_replay_is_suppressed(r: ReceiverView, datagram: Seq<u8>, later: Seq<Seq<u8>>)
    requires
        r.reception(datagram).delivery !is Nothing,
        later.len() < 0x8000_0000,
    ensures
        after_all(r.after_datagram(datagram), later).reception(datagram).ack == r.reception(
            datagram,
        ).ack,
        after_all(r.after_datagram(datagram), later).reception(datagram).ack is Some,
        after_all(r.after_datagram(datagram), later).reception(datagram).delivery is Nothing,
        after_all(r.after_datagram(datagram), later).after_datagram(datagram) == after_all(
            r.after_datagram(datagram),
            later,
        ),
{
    let frame = spec_decode(datagram)->0;
    let seq = frame->Data_seq;
    let taken = r.after_datagram(datagram);
    lemma_previous_is_seen(seq);
    lemma_steps_behind(taken, seq, later);
}

/// Each datagram moves the receiver on by one number at most, and never changes
/// the size it accepts.
proof fn lemma_steps_behind(r: ReceiverView, seq: u32, later: Seq<Seq<u8>>)
    requires
        1 <= spec_distance_behind(r.expected, seq),
        spec_distance_behind(r.expected, seq) + later.len() <= 0x8000_0000,
    ensures
        1 <= spec_distance_behind(after_all(r, later).expected, seq) <= spec_distance_behind(
            r.expected,
            seq,
        ) + later.len(),
        after_all(r, later).chunk_size == r.chunk_size,
    decreases later.len(),
{
    if later.len() > 0 {
        lemma_steps_behind(r.after_datagram(later.first()), seq, later.drop_first());
    }
}

/// Only the end of the stream reads as zero bytes. Whatever the receiver's
/// state and whatever arrives, a chunk that is delivered is not empty, so a
/// read that reports zero bytes always means that the stream has ended.
pub proof fn lemma_zero_means_end(r: ReceiverView, datagram: Seq<u8>)
    ensures
        r.reception(datagram).delivery.read_len() == Some(0nat) <==> r.reception(
            datagram,
        ).delivery is EndOfStream,
        r.reception(datagram).delivery is EndOfStream ==> r.after_datagram(datagram).finished,
        r.finished ==> r.reception(datagram).delivery is Nothing,
{
}

/// Stale acknowledgments do no harm. A datagram that is not the
/// acknowledgment of the pending frame (the acknowledgment of an earlier
/// frame that comes late, a data frame, noise) leaves the sender as it was:
/// the pending frame stays pending.
pub proof fn lemma_stale_ack_is_ignored(s: SenderView, seq: u32)
    requires
        s.pending is Some,
        s.pending->0.seq != seq,
    ensures
        !s.acknowledges(spec_encode(FrameView::Ack { seq })),
        s.after_datagram(spec_encode(FrameView::Ack { seq })) == s,
{
    lemma_decode_encode(FrameView::Ack { seq });
}

/// The end of the stream is signalled once. When both ends are in step and
/// the sender ends the stream, the marker makes the receiver report the end
/// to its caller, exactly this once and without any payload, and finishes
/// it. From then on, whatever arrives, the receiver hands nothing more to
/// the caller and does not change; a repeated marker is acknowledged again.
/// Ending the stream a second time produces the same marker.
pub proof fn lemma_end_is_signalled_once(link: Link, anything: Seq<u8>)
    requires
        link.in_step(),
    ensures
        link.receiver.reception(link.sender.end_datagram()).delivery is EndOfStream,
        link.finish().receiver.finished,
        link.finish().delivered == link.delivered,
        link.finish().end_reports == link.end_reports + 1,
        link.finish().receiver.reception(anything).delivery is Nothing,
        link.finish().receiver.after_datagram(anything) == link.finish().receiver,
        link.finish().arrive(anything).end_reports == link.finish().end_reports,
        link.finish().arrive(anything).delivered == link.finish().delivered,
        link.finish().receiver.reception(link.sender.end_datagram()) == ReceptionView::repeated(
            link.sender.next_seq,
        ),
        link.finish().sender.end_datagram() == link.sender.end_datagram(),
        link.finish().sender.after_end() == link.finish().sender,
{
    let seq = link.sender.next_seq;
    let marker = FrameView::Data { seq, payload: Seq::<u8>::empty() };
    lemma_decode_encode(marker);
    lemma_decode_encode(FrameView::Ack { seq });
    lemma_previous_is_seen(seq);
    assert(link.delivered + Seq::<u8>::empty() =~= link.delivered);
    let done = link.finish();
    assert(done.delivered + Seq::<u8>::empty() =~= done.delivered);
}

/// A whole stream arrives whole. Over a fresh link, sending the chunks with
/// acknowledgment and then ending the stream hands the receiving caller
/// exactly the bytes of the chunks and then, once, the end of the stream,
/// provided the network foils no more attempts per chunk than the sender has
/// retries and lets the end marker through.
pub proof fn lemma_stream_arrives_whole(
    chunk_size: u32,
    retry_budget: u32,
    chunks: Seq<Seq<u8>>,
    losses: Seq<Seq<Loss>>,
)
    requires
        losses.len() == chunks.len(),
        forall|i: int| 0 <= i < chunks.len() ==> (#[trigger] chunks[i]).len() <= chunk_size,
        forall|i: int| 0 <= i < losses.len() ==> (#[trigger] losses[i]).len() <= retry_budget,
    ensures
        Link::fresh(chunk_size, retry_budget).transfer(chunks, losses) is Some,
        Link::fresh(chunk_size, retry_budget).transfer(chunks, losses)->0.finish().delivered
            == chunks.flatten(),
        Link::fresh(chunk_size, retry_budget).transfer(chunks, losses)->0.finish().end_reports
            == 1,
        Link::fresh(chunk_size, retry_budget).transfer(
            chunks,
            losses,
        )->0.finish().receiver.finished,
{
    let link = Link::fresh(chunk_size, retry_budget);
    lemma_no_data_loss(link, chunks, losses);
    let done = link.transfer(chunks, losses)->0;
    lemma_end_is_signalled_once(done, Seq::empty());
    assert(Seq::<u8>::empty() + chunks.flatten() =~= chunks.flatten());
}

} // verus!
