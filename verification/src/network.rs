//! The transport against a hostile network.
//!
//! Here the network may do with the datagrams as it likes, short of forging
//! them: lose any of them, hand any of them over any number of times, and in
//! any order. The theorem of this module says that the receiving caller
//! nevertheless sees the stream that was sent, chunk by chunk and in order,
//! never a byte twice and never one out of place, and that the end of the
//! stream reaches it only after everything else.

use vstd::prelude::*;
use crate::frame::{lemma_decode_encode, spec_decode, FrameView};
use crate::link::Link;
use crate::transport::{spec_already_seen, spec_distance_behind, TimeoutView};

verus! {

/// One thing that happens on the way of a stream.
pub ghost enum Event {
    /// The sender, if it is free to, takes the next chunk and puts its frame
    /// on the wire.
    Send,
    /// The sender, if it is free to and has taken all chunks, ends the
    /// stream and puts the marker on the wire.
    End,
    /// The network hands the receiver one of the datagrams that the sender
    /// ever put on the wire, chosen by its position. The receiver puts its
    /// answer, if it has one, on the wire.
    DataArrives(int),
    /// The network hands the sender one of the datagrams that the receiver
    /// ever put on the wire, chosen by its position.
    AckArrives(int),
    /// The sender's wait runs out. It puts the pending frame on the wire
    /// once more, or gives up.
    Timeout,
}

/// Both ends of a stream together with all that ever went onto the wire.
pub ghost struct Network {
    pub link: Link,
    /// How many chunks the sender has taken.
    pub taken: nat,
    /// Every datagram that the sender has put on the wire.
    pub to_receiver: Seq<Seq<u8>>,
    /// Every datagram that the receiver has put on the wire.
    pub to_sender: Seq<Seq<u8>>,
    /// Whether the sender has given up.
    pub failed: bool,
}

impl Network {
    /// Both ends freshly set up, and nothing on the wire.
    pub open spec fn fresh(chunk_size: u32, retry_budget: u32) -> Network {
        Network {
            link: Link::fresh(chunk_size, retry_budget),
            taken: 0,
            to_receiver: Seq::empty(),
            to_sender: Seq::empty(),
            failed: false,
        }
    }

    /// Whether the sender may take a chunk or end the stream: nothing is
    /// pending, the stream is open and the sender has not given up.
    pub open spec fn sender_is_free(self) -> bool {
        self.link.sender.pending is None && self.link.sender.end_seq is None && !self.failed
    }

    /// How many chunks the receiver has handed to its caller.
    pub open spec fn received(self) -> int {
        if self.link.receiver.finished {
            self.link.receiver.expected - 1
        } else {
            self.link.receiver.expected as int
        }
    }

    /// The network after `event`, where `chunks` is the stream to send.
    pub open spec fn step(self, chunks: Seq<Seq<u8>>, event: Event) -> Network {
        let sender = self.link.sender;
        match event {
            Event::Send => if self.sender_is_free() && self.taken < chunks.len() {
                let chunk = chunks[self.taken as int];
                Network {
                    link: Link { sender: sender.after_send(chunk, true), ..self.link },
                    taken: self.taken + 1,
                    to_receiver: match sender.send_datagram(chunk) {
                        Some(datagram) => self.to_receiver.push(datagram),
                        None => self.to_receiver,
                    },
                    ..self
                }
            } else {
                self
            },
            Event::End => if sender.pending is None && !self.failed && self.taken
                == chunks.len() {
                Network {
                    link: Link { sender: sender.after_end(), ..self.link },
                    to_receiver: self.to_receiver.push(sender.end_datagram()),
                    ..self
                }
            } else {
                self
            },
            Event::DataArrives(i) => if 0 <= i < self.to_receiver.len() {
                let datagram = self.to_receiver[i];
                Network {
                    link: self.link.arrive(datagram),
                    to_sender: match self.link.receiver.reception(datagram).ack {
                        Some(ack) => self.to_sender.push(ack),
                        None => self.to_sender,
                    },
                    ..self
                }
            } else {
                self
            },
            Event::AckArrives(j) => if 0 <= j < self.to_sender.len() {
                Network {
                    link: Link { sender: sender.after_datagram(self.to_sender[j]), ..self.link },
                    ..self
                }
            } else {
                self
            },
            Event::Timeout => match sender.timeout_action() {
                TimeoutView::Idle => self,
                TimeoutView::Retransmit(datagram) => Network {
                    link: Link { sender: sender.after_timeout(), ..self.link },
                    to_receiver: self.to_receiver.push(datagram),
                    ..self
                },
                TimeoutView::GiveUp => Network { failed: true, ..self },
            },
        }
    }

    /// The network after `events`, one after the other.
    pub open spec fn run(self, chunks: Seq<Seq<u8>>, events: Seq<Event>) -> Network
        decreases events.len(),
    {
        if events.len() == 0 {
            self
        } else {
            self.step(chunks, events.first()).run(chunks, events.drop_first())
        }
    }
}

/// A stream that the theorem speaks of: no chunk is empty or larger than
/// a frame may be, and the stream with its end marker stays within half the
/// number range.
pub open spec fn sendable(chunks: Seq<Seq<u8>>, chunk_size: u32) -> bool {
    &&& chunks.len() + 1 < 0x8000_0000
    &&& forall|i: int| 0 <= i < chunks.len() ==> 1 <= (#[trigger] chunks[i]).len() <= chunk_size
}

/// What may be on the wire towards the receiver: frames of chunks that the
/// sender has taken, each under the number of its chunk, and the end marker
/// once the stream was ended.
spec fn data_is_genuine(datagram: Seq<u8>, chunks: Seq<Seq<u8>>, taken: nat, ended: bool) -> bool {
    &&& spec_decode(datagram) matches Some(FrameView::Data { seq, payload })
    &&& (seq < taken && payload == chunks[seq as int]) || (ended && seq == chunks.len()
        && payload.len() == 0)
}

/// What may be on the wire towards the sender: acknowledgments of frames
/// that the receiver has taken.
spec fn ack_is_genuine(datagram: Seq<u8>, expected: u32) -> bool {
    &&& spec_decode(datagram) matches Some(FrameView::Ack { seq })
    &&& seq < expected
}

/// What holds of the network at every moment.
spec fn consistent(net: Network, chunks: Seq<Seq<u8>>, chunk_size: u32) -> bool {
    let sender = net.link.sender;
    let receiver = net.link.receiver;
    let ended = sender.end_seq is Some;
    &&& sendable(chunks, chunk_size)
    &&& net.taken <= chunks.len()
    &&& sender.chunk_size == chunk_size
    &&& receiver.chunk_size == chunk_size
    &&& sender.next_seq == net.taken + if ended {
        1int
    } else {
        0int
    }
    &&& ended ==> net.taken == chunks.len() && sender.end_seq == Some(chunks.len() as u32)
        && sender.pending is None
    &&& sender.pending matches Some(p) ==> net.taken >= 1 && p.seq == net.taken - 1 && p.payload
        == chunks[net.taken - 1]
    &&& receiver.finished ==> ended && receiver.expected == chunks.len() + 1
    &&& !receiver.finished ==> receiver.expected <= net.taken
    &&& !receiver.finished && sender.pending is Some ==> receiver.expected >= net.taken - 1
    &&& !receiver.finished && sender.pending is None ==> receiver.expected == net.taken
    &&& net.link.delivered == chunks.take(net.received()).flatten()
    &&& net.link.end_reports == if receiver.finished {
        1nat
    } else {
        0nat
    }
    &&& forall|i: int|
        0 <= i < net.to_receiver.len() ==> data_is_genuine(
            #[trigger] net.to_receiver[i],
            chunks,
            net.taken,
            ended,
        )
    &&& forall|j: int|
        0 <= j < net.to_sender.len() ==> ack_is_genuine(
            #[trigger] net.to_sender[j],
            receiver.expected,
        )
}

proof fn lemma_take_one_more(chunks: Seq<Seq<u8>>, m: int)
    requires
        0 <= m < chunks.len(),
    ensures
        chunks.take(m + 1).flatten() == chunks.take(m).flatten() + chunks[m],
{
    assert(chunks.take(m + 1) =~= chunks.take(m).push(chunks[m]));
    chunks.take(m).lemma_flatten_push(chunks[m]);
}

proof fn lemma_step_keeps_consistent(
    net: Network,
    chunks: Seq<Seq<u8>>,
    chunk_size: u32,
    event: Event,
)
    requires
        consistent(net, chunks, chunk_size),
    ensures
        consistent(net.step(chunks, event), chunks, chunk_size),
{
    let after = net.step(chunks, event);
    let sender = net.link.sender;
    let receiver = net.link.receiver;
    let ended = sender.end_seq is Some;
    match event {
        Event::Send => {
            if net.sender_is_free() && net.taken < chunks.len() {
                let chunk = chunks[net.taken as int];
                let frame = FrameView::Data { seq: sender.next_seq, payload: chunk };
                lemma_decode_encode(frame);
                assert forall|i: int| 0 <= i < after.to_receiver.len() implies data_is_genuine(
                    #[trigger] after.to_receiver[i],
                    chunks,
                    after.taken,
                    false,
                ) by {
                    if i < net.to_receiver.len() {
                        assert(data_is_genuine(net.to_receiver[i], chunks, net.taken, ended));
                    }
                }
            }
        },
        Event::End => {
            if sender.pending is None && !net.failed && net.taken == chunks.len() {
                let marker = FrameView::Data {
                    seq: sender.end_marker_seq(),
                    payload: Seq::<u8>::empty(),
                };
                lemma_decode_encode(marker);
                assert forall|i: int| 0 <= i < after.to_receiver.len() implies data_is_genuine(
                    #[trigger] after.to_receiver[i],
                    chunks,
                    after.taken,
                    true,
                ) by {
                    if i < net.to_receiver.len() {
                        assert(data_is_genuine(net.to_receiver[i], chunks, net.taken, ended));
                    }
                }
            }
        },
        Event::DataArrives(i) => {
            if 0 <= i < net.to_receiver.len() {
                let datagram = net.to_receiver[i];
                assert(data_is_genuine(datagram, chunks, net.taken, ended));
                let frame = spec_decode(datagram)->0;
                let seq = frame->Data_seq;
                let payload = frame->Data_payload;
                lemma_decode_encode(FrameView::Ack { seq });
                if receiver.accepts(frame) {
                    if payload.len() == 0 {
                        assert(net.link.delivered + Seq::<u8>::empty() =~= net.link.delivered);
                        assert(chunks.take(chunks.len() as int) =~= chunks);
                    } else {
                        lemma_take_one_more(chunks, seq as int);
                    }
                } else {
                    assert(net.link.delivered + Seq::<u8>::empty() =~= net.link.delivered);
                    if receiver.repeats(frame) {
                        assert(spec_already_seen(receiver.expected, seq));
                        assert(spec_distance_behind(receiver.expected, seq) >= 1);
                    }
                }
                assert forall|j: int| 0 <= j < after.to_sender.len() implies ack_is_genuine(
                    #[trigger] after.to_sender[j],
                    after.link.receiver.expected,
                ) by {
                    if j < net.to_sender.len() {
                        assert(ack_is_genuine(net.to_sender[j], receiver.expected));
                    }
                }
            }
        },
        Event::AckArrives(j) => {
            if 0 <= j < net.to_sender.len() {
                assert(ack_is_genuine(net.to_sender[j], receiver.expected));
            }
        },
        Event::Timeout => {
            match sender.timeout_action() {
                TimeoutView::Retransmit(datagram) => {
                    let p = sender.pending->0;
                    lemma_decode_encode(FrameView::Data { seq: p.seq, payload: p.payload });
                    assert forall|i: int| 0 <= i < after.to_receiver.len() implies data_is_genuine(
                        #[trigger] after.to_receiver[i],
                        chunks,
                        after.taken,
                        ended,
                    ) by {
                        if i < net.to_receiver.len() {
                            assert(data_is_genuine(net.to_receiver[i], chunks, net.taken, ended));
                        }
                    }
                },
                _ => {},
            }
        },
    }
}

proof fn lemma_run_keeps_consistent(
    net: Network,
    chunks: Seq<Seq<u8>>,
    chunk_size: u32,
    events: Seq<Event>,
)
    requires
        consistent(net, chunks, chunk_size),
    ensures
        consistent(net.run(chunks, events), chunks, chunk_size),
    decreases events.len(),
{
    if events.len() > 0 {
        lemma_step_keeps_consistent(net, chunks, chunk_size, events.first());
        lemma_run_keeps_consistent(
            net.step(chunks, events.first()),
            chunks,
            chunk_size,
            events.drop_first(),
        );
    }
}

/// Delivery is ordered, free of loss and free of repetition, whatever the
/// network does. Start both ends afresh and let anything happen, in any
/// order and any number of times: chunks are taken, waits run out, and the
/// network hands over datagrams that were sent at some time, or never does.
/// Then at every moment
///
/// - what the receiving caller has been handed is exactly the first so many
///   chunks of the stream, in order;
/// - that is all but possibly the last of the chunks that the sender has
///   taken, and all of them as soon as nothing is pending at the sender;
/// - the end of the stream has been reported at most once, and if so, then
///   after the whole stream was handed over.
pub proof fn lemma_delivery_is_in_order(
    chunk_size: u32,
    retry_budget: u32,
    chunks: Seq<Seq<u8>>,
    events: Seq<Event>,
)
    requires
        sendable(chunks, chunk_size),
    ensures
        ({
            let net = Network::fresh(chunk_size, retry_budget).run(chunks, events);
            &&& 0 <= net.received() <= net.taken <= chunks.len()
            &&& net.link.delivered == chunks.take(net.received()).flatten()
            &&& net.received() >= net.taken - 1
            &&& net.link.sender.pending is None ==> net.received() == net.taken
            &&& net.link.sender.pending is None && net.taken == chunks.len()
                ==> net.link.delivered == chunks.flatten()
            &&& net.link.end_reports <= 1
            &&& net.link.end_reports == 1 <==> net.link.receiver.finished
            &&& net.link.receiver.finished ==> net.link.delivered == chunks.flatten()
        }),
{
    let start = Network::fresh(chunk_size, retry_budget);
    assert(chunks.take(0) =~= Seq::<Seq<u8>>::empty());
    assert(chunks.take(0).flatten() =~= Seq::<u8>::empty());
    assert(consistent(start, chunks, chunk_size));
    lemma_run_keeps_consistent(start, chunks, chunk_size, events);
    assert(chunks.take(chunks.len() as int) =~= chunks);
}

} // verus!
