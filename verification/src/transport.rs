//! Reliable delivery over datagrams that may be lost, repeated or reordered.
//!
//! The protocol is stop-and-wait. The sending side numbers each chunk, puts it
//! on the wire and, when asked to, keeps it until the matching acknowledgment
//! arrives, sending it again with the same number whenever a wait times out.
//! The receiving side hands a chunk to its caller only when it bears the next
//! expected number; a chunk it has already taken is acknowledged again and
//! dropped. A frame without payload ends the stream.
//!
//! Neither side touches a socket or a clock. Each is a state machine: the
//! caller feeds it what happened (a datagram arrived, a wait timed out) and
//! carries out what it answers (put these bytes on the wire, give up).

use vstd::prelude::*;
use crate::error::NudgeError;
use crate::frame::{encode_ack, encode_data, spec_decode, spec_encode, Frame, FrameView};

verus! {

/// The number that both peers give the first data frame of a stream.
pub const INITIAL_SEQUENCE: u32 = 0;

/// The number after `seq`. Numbers wrap only at the end of their range.
pub open spec fn spec_next_seq(seq: u32) -> u32 {
    if seq == u32::MAX {
        0
    } else {
        (seq + 1) as u32
    }
}

/// How far `seq` lies behind `expected`, counting around the wrap.
pub open spec fn spec_distance_behind(expected: u32, seq: u32) -> int {
    if expected >= seq {
        expected - seq
    } else {
        expected - seq + 0x1_0000_0000
    }
}

/// Whether a frame numbered `seq` was taken before, given that `expected` is
/// due next: it is if it lies at most half the number range behind.
pub open spec fn spec_already_seen(expected: u32, seq: u32) -> bool {
    1 <= spec_distance_behind(expected, seq) <= 0x8000_0000
}

/// The number after `seq`.
pub fn next_seq(seq: u32) -> (n: u32)
    ensures
        n == spec_next_seq(seq),
{
    if seq == u32::MAX {
        0
    } else {
        seq + 1
    }
}

/// Whether a frame numbered `seq` was taken before `expected` came due.
pub fn already_seen(expected: u32, seq: u32) -> (seen: bool)
    ensures
        seen == spec_already_seen(expected, seq),
{
    if expected >= seq {
        let behind: u32 = expected - seq;
        1 <= behind && behind <= 0x8000_0000
    } else {
        // expected - seq + 2^32, computed without leaving the range
        let ahead: u32 = seq - expected;
        ahead >= 0x8000_0000
    }
}

fn copy_bytes(data: &[u8]) -> (out: Vec<u8>)
    ensures
        out@ == data@,
{
    let mut out: Vec<u8> = Vec::new();
    let mut i: usize = 0;
    while i < data.len()
        invariant
            i <= data.len(),
            out@ == data@.subrange(0, i as int),
        decreases data.len() - i,
    {
        out.push(data[i]);
        i += 1;
        assert(out@ =~= data@.subrange(0, i as int));
    }
    assert(data@.subrange(0, i as int) =~= data@);
    out
}

/// A frame that was handed over and is not settled yet.
struct Pending {
    seq: u32,
    payload: Vec<u8>,
}

/// The mathematical content of a frame that is not settled yet.
pub ghost struct PendingView {
    pub seq: u32,
    pub payload: Seq<u8>,
    /// How many more times the frame may be transmitted again.
    pub retries_left: u32,
    /// Whether only its acknowledgment settles the frame.
    pub await_ack: bool,
}

impl PendingView {
    /// The datagram that carries the pending frame, first time and every time after.
    pub open spec fn datagram(self) -> Seq<u8> {
        spec_encode(FrameView::Data { seq: self.seq, payload: self.payload })
    }
}

/// The sending side of a stream.
pub struct Sender {
    chunk_size: u32,
    retry_budget: u32,
    next_seq: u32,
    pending: Option<Pending>,
    retries_left: u32,
    await_ack: bool,
    end_seq: Option<u32>,
}

/// The mathematical content of a [`Sender`].
pub ghost struct SenderView {
    /// Largest payload that one frame may carry.
    pub chunk_size: u32,
    /// How many times one frame is sent again before the sender gives up.
    pub retry_budget: u32,
    /// The number that the next new frame will bear.
    pub next_seq: u32,
    /// The frame that is not settled yet, if there is one.
    pub pending: Option<PendingView>,
    /// The number of the end-of-stream marker, once it has been sent.
    pub end_seq: Option<u32>,
}

/// What the sender does when an attempt to get a frame across has failed.
pub ghost enum TimeoutView {
    /// Nothing was pending; there is nothing to do.
    Idle,
    /// Send this datagram again and wait once more.
    Retransmit(Seq<u8>),
    /// The retry budget is spent: the transfer has failed.
    GiveUp,
}

impl SenderView {
    /// A sender that has sent nothing yet and will number its first frame `initial`.
    pub open spec fn starting_at(chunk_size: u32, retry_budget: u32, initial: u32) -> SenderView {
        SenderView { chunk_size, retry_budget, next_seq: initial, pending: None, end_seq: None }
    }

    /// A sender that has sent nothing yet.
    pub open spec fn fresh(chunk_size: u32, retry_budget: u32) -> SenderView {
        SenderView::starting_at(chunk_size, retry_budget, INITIAL_SEQUENCE)
    }

    /// The state after `data` was handed over for sending: it makes the
    /// frame with the next number, which is pending from now on. Empty
    /// data makes no frame and changes nothing.
    pub open spec fn after_send(self, data: Seq<u8>, require_ack: bool) -> SenderView {
        if data.len() == 0 {
            self
        } else {
            SenderView {
                next_seq: spec_next_seq(self.next_seq),
                pending: Some(
                    PendingView {
                        seq: self.next_seq,
                        payload: data,
                        retries_left: self.retry_budget,
                        await_ack: require_ack,
                    },
                ),
                ..self
            }
        }
    }

    /// Whether a frame is out whose acknowledgment must be awaited.
    pub open spec fn awaits_ack(self) -> bool {
        self.pending matches Some(p) && p.await_ack
    }

    /// The state after the socket took the datagram: a frame that needs no
    /// acknowledgment is settled by that, any other stays pending.
    pub open spec fn after_sent(self) -> SenderView {
        if self.pending is Some && !self.awaits_ack() {
            SenderView { pending: None, ..self }
        } else {
            self
        }
    }

    /// The datagram to transmit once `data` was handed over, if there is one.
    pub open spec fn send_datagram(self, data: Seq<u8>) -> Option<Seq<u8>> {
        if data.len() == 0 {
            None
        } else {
            Some(spec_encode(FrameView::Data { seq: self.next_seq, payload: data }))
        }
    }

    /// Whether `datagram` is the acknowledgment of the pending frame.
    pub open spec fn acknowledges(self, datagram: Seq<u8>) -> bool {
        self.pending matches Some(p) && spec_decode(datagram) == Some(
            FrameView::Ack { seq: p.seq },
        )
    }

    /// The state after `datagram` arrived. Only the acknowledgment of the
    /// pending frame changes anything: it settles the frame.
    pub open spec fn after_datagram(self, datagram: Seq<u8>) -> SenderView {
        if self.acknowledges(datagram) {
            SenderView { pending: None, ..self }
        } else {
            self
        }
    }

    /// The state after an attempt to get the pending frame across failed.
    pub open spec fn after_timeout(self) -> SenderView {
        match self.pending {
            Some(p) if p.retries_left > 0 => SenderView {
                pending: Some(PendingView { retries_left: (p.retries_left - 1) as u32, ..p }),
                ..self
            },
            _ => self,
        }
    }

    /// What the sender does when an attempt to get the pending frame across failed.
    pub open spec fn timeout_action(self) -> TimeoutView {
        match self.pending {
            None => TimeoutView::Idle,
            Some(p) => if p.retries_left > 0 {
                TimeoutView::Retransmit(p.datagram())
            } else {
                TimeoutView::GiveUp
            },
        }
    }

    /// The number that the end-of-stream marker bears: the one it was first
    /// sent with, or else the next free one.
    pub open spec fn end_marker_seq(self) -> u32 {
        match self.end_seq {
            Some(seq) => seq,
            None => self.next_seq,
        }
    }

    /// The datagram that ends the stream.
    pub open spec fn end_datagram(self) -> Seq<u8> {
        spec_encode(FrameView::Data { seq: self.end_marker_seq(), payload: Seq::empty() })
    }

    /// The state after the stream was ended.
    pub open spec fn after_end(self) -> SenderView {
        match self.end_seq {
            Some(seq) => self,
            None => SenderView {
                next_seq: spec_next_seq(self.next_seq),
                end_seq: Some(self.next_seq),
                ..self
            },
        }
    }
}

impl View for Sender {
    type V = SenderView;

    closed spec fn view(&self) -> SenderView {
        SenderView {
            chunk_size: self.chunk_size,
            retry_budget: self.retry_budget,
            next_seq: self.next_seq,
            pending: match self.pending {
                Some(p) => Some(
                    PendingView {
                        seq: p.seq,
                        payload: p.payload@,
                        retries_left: self.retries_left,
                        await_ack: self.await_ack,
                    },
                ),
                None => None,
            },
            end_seq: self.end_seq,
        }
    }
}

/// The view of what a timeout step returned.
pub open spec fn timeout_view(r: Result<Option<Vec<u8>>, NudgeError>) -> TimeoutView {
    match r {
        Ok(None) => TimeoutView::Idle,
        Ok(Some(datagram)) => TimeoutView::Retransmit(datagram@),
        Err(_) => TimeoutView::GiveUp,
    }
}

/// The view of an optional datagram.
pub open spec fn datagram_view(d: Option<Vec<u8>>) -> Option<Seq<u8>> {
    match d {
        Some(bytes) => Some(bytes@),
        None => None,
    }
}

impl Sender {
    #[verifier::type_invariant]
    spec fn pending_fits_the_wire(self) -> bool {
        self.pending matches Some(p) ==> p.payload@.len() <= u32::MAX
    }

    /// A sender at the start of a stream. `chunk_size` bounds the payload of
    /// one frame; `retry_budget` is the number of times a frame is sent again
    /// before the sender gives up.
    pub fn new(chunk_size: u32, retry_budget: u32) -> (s: Sender)
        ensures
            s@ == SenderView::fresh(chunk_size, retry_budget),
    {
        Sender::starting_at(chunk_size, retry_budget, INITIAL_SEQUENCE)
    }

    /// A sender at the start of a stream whose first frame is numbered
    /// `initial`, for peers that have agreed on another number than
    /// [`INITIAL_SEQUENCE`].
    pub fn starting_at(chunk_size: u32, retry_budget: u32, initial: u32) -> (s: Sender)
        ensures
            s@ == SenderView::starting_at(chunk_size, retry_budget, initial),
    {
        Sender {
            chunk_size,
            retry_budget,
            next_seq: initial,
            pending: None,
            retries_left: retry_budget,
            await_ack: false,
            end_seq: None,
        }
    }

    /// Whether no frame is pending, so that the next chunk can be taken.
    pub fn is_idle(&self) -> (idle: bool)
        ensures
            idle == (self@.pending is None),
    {
        self.pending.is_none()
    }

    /// Largest payload that one frame may carry.
    pub fn chunk_size(&self) -> (n: u32)
        ensures
            n == self@.chunk_size,
    {
        self.chunk_size
    }

    /// Takes one chunk for sending and returns the datagram to transmit.
    ///
    /// The chunk gets the next sequence number and is pending from now on.
    /// With `require_ack` it stays so until [`Sender::on_datagram`] sees its
    /// acknowledgment; without, until [`Sender::on_sent`] hears that the
    /// socket took it. Empty data makes no frame: nothing is returned and
    /// nothing changes.
    ///
    /// One frame is out at a time, so the previous one must be settled, and
    /// the caller cuts the data into chunks beforehand.
    pub fn send(&mut self, data: &[u8], require_ack: bool) -> (out: Option<Vec<u8>>)
        requires
            old(self)@.pending is None,
            data@.len() <= old(self)@.chunk_size,
        ensures
            final(self)@ == old(self)@.after_send(data@, require_ack),
            datagram_view(out) == old(self)@.send_datagram(data@),
    {
        if data.len() == 0 {
            return None;
        }
        let seq = self.next_seq;
        let datagram = encode_data(seq, data);
        let payload = copy_bytes(data);
        self.pending = Some(Pending { seq, payload });
        self.retries_left = self.retry_budget;
        self.await_ack = require_ack;
        self.next_seq = next_seq(seq);
        Some(datagram)
    }

    /// Tells the sender that the socket took the datagram. Returns whether
    /// an acknowledgment must be awaited now. A frame that was sent without
    /// asking for one is settled by this.
    pub fn on_sent(&mut self) -> (awaiting: bool)
        ensures
            awaiting == old(self)@.awaits_ack(),
            final(self)@ == old(self)@.after_sent(),
    {
        proof {
            use_type_invariant(&*self);
        }
        if self.pending.is_none() {
            false
        } else if self.await_ack {
            true
        } else {
            self.pending = None;
            false
        }
    }

    /// Takes a datagram that arrived from the peer. Returns whether it was
    /// the acknowledgment of the pending frame, which is then settled.
    /// Anything else (an acknowledgment of another frame, a data frame,
    /// noise) is ignored.
    pub fn on_datagram(&mut self, datagram: &[u8]) -> (acked: bool)
        ensures
            acked == old(self)@.acknowledges(datagram@),
            final(self)@ == old(self)@.after_datagram(datagram@),
    {
        let awaited: u32 = match &self.pending {
            Some(p) => p.seq,
            None => {
                return false;
            },
        };
        match Frame::decode(datagram) {
            Some(Frame::Ack { seq }) => {
                if seq == awaited {
                    self.pending = None;
                    true
                } else {
                    false
                }
            },
            _ => false,
        }
    }

    /// Tells the sender that an attempt to get the pending frame across has
    /// failed: the acknowledgment did not come in time, or the socket did
    /// not take the datagram.
    ///
    /// While the retry budget lasts, one retry is spent and the same frame,
    /// with its number unchanged, is returned to be transmitted again. Once
    /// the budget is spent the answer is `TransportTimeout`, and stays so:
    /// the transfer has failed. With nothing pending there is nothing to do.
    pub fn on_timeout(&mut self) -> (r: Result<Option<Vec<u8>>, NudgeError>)
        ensures
            timeout_view(r) == old(self)@.timeout_action(),
            r is Err ==> r == Err::<Option<Vec<u8>>, NudgeError>(NudgeError::TransportTimeout),
            final(self)@ == old(self)@.after_timeout(),
    {
        proof {
            use_type_invariant(&*self);
        }
        let datagram = match &self.pending {
            None => {
                return Ok(None);
            },
            Some(p) => {
                if self.retries_left == 0 {
                    return Err(NudgeError::TransportTimeout);
                }
                encode_data(p.seq, p.payload.as_slice())
            },
        };
        self.retries_left = self.retries_left - 1;
        Ok(Some(datagram))
    }

    /// Ends the stream: returns the end-of-stream marker to transmit.
    ///
    /// The first call gives the marker the next sequence number. Every later
    /// call returns the very same datagram, which the peer takes for a
    /// repetition.
    pub fn end(&mut self) -> (datagram: Vec<u8>)
        ensures
            datagram@ == old(self)@.end_datagram(),
            final(self)@ == old(self)@.after_end(),
    {
        proof {
            use_type_invariant(&*self);
        }
        let seq: u32 = match self.end_seq {
            Some(seq) => seq,
            None => {
                let seq = self.next_seq;
                self.end_seq = Some(seq);
                self.next_seq = next_seq(seq);
                seq
            },
        };
        let empty: Vec<u8> = Vec::new();
        let datagram = encode_data(seq, empty.as_slice());
        assert(empty@ =~= Seq::<u8>::empty());
        datagram
    }
}

/// What a received datagram yields for the caller of the receiving side.
#[derive(Debug)]
pub enum Delivery {
    /// Nothing for the caller: keep waiting.
    Nothing,
    /// The next chunk of the stream.
    Data(Vec<u8>),
    /// The stream has ended: the read reports zero bytes.
    EndOfStream,
}

/// The mathematical content of a [`Delivery`].
pub ghost enum DeliveryView {
    Nothing,
    Data(Seq<u8>),
    EndOfStream,
}

impl View for Delivery {
    type V = DeliveryView;

    open spec fn view(&self) -> DeliveryView {
        match self {
            Delivery::Nothing => DeliveryView::Nothing,
            Delivery::Data(bytes) => DeliveryView::Data(bytes@),
            Delivery::EndOfStream => DeliveryView::EndOfStream,
        }
    }
}

impl DeliveryView {
    /// The bytes that this delivery adds to what the caller has received.
    pub open spec fn bytes(self) -> Seq<u8> {
        match self {
            DeliveryView::Data(bytes) => bytes,
            _ => Seq::empty(),
        }
    }

    /// What a read reports: the number of bytes of a chunk, zero at the
    /// end of the stream, and nothing as long as the read has to go on
    /// waiting.
    pub open spec fn read_len(self) -> Option<nat> {
        match self {
            DeliveryView::Nothing => None,
            DeliveryView::Data(bytes) => Some(bytes.len()),
            DeliveryView::EndOfStream => Some(0),
        }
    }
}

impl Delivery {
    /// What a read reports for this delivery: the number of bytes of a
    /// chunk, zero at the end of the stream, and `None` as long as the read
    /// has to go on waiting.
    pub fn read_len(&self) -> (n: Option<usize>)
        ensures
            match n {
                Some(len) => self@.read_len() == Some(len as nat),
                None => self@.read_len() is None,
            },
    {
        match self {
            Delivery::Nothing => None,
            Delivery::Data(bytes) => Some(bytes.len()),
            Delivery::EndOfStream => Some(0),
        }
    }
}

/// The receiver's answer to one datagram.
#[derive(Debug)]
pub struct Reception {
    /// The acknowledgment to send back, if the datagram earns one.
    pub ack: Option<Vec<u8>>,
    /// What the caller receives.
    pub delivery: Delivery,
}

/// The mathematical content of a [`Reception`].
pub ghost struct ReceptionView {
    pub ack: Option<Seq<u8>>,
    pub delivery: DeliveryView,
}

impl View for Reception {
    type V = ReceptionView;

    open spec fn view(&self) -> ReceptionView {
        ReceptionView { ack: datagram_view(self.ack), delivery: self.delivery@ }
    }
}

impl ReceptionView {
    /// The answer to a datagram that is not acknowledged and delivers nothing.
    pub open spec fn ignored() -> ReceptionView {
        ReceptionView { ack: None, delivery: DeliveryView::Nothing }
    }

    /// The answer to a frame that was taken before: acknowledged again, not delivered.
    pub open spec fn repeated(seq: u32) -> ReceptionView {
        ReceptionView {
            ack: Some(spec_encode(FrameView::Ack { seq })),
            delivery: DeliveryView::Nothing,
        }
    }
}

/// The receiving side of a stream.
pub struct Receiver {
    chunk_size: u32,
    expected: u32,
    finished: bool,
}

/// The mathematical content of a [`Receiver`].
pub ghost struct ReceiverView {
    /// Largest payload that the receiver accepts in one frame.
    pub chunk_size: u32,
    /// The number of the frame that is due next.
    pub expected: u32,
    /// Whether the end-of-stream marker has been taken.
    pub finished: bool,
}

impl ReceiverView {
    /// A receiver that has taken nothing yet and awaits the frame numbered `initial`.
    pub open spec fn starting_at(chunk_size: u32, initial: u32) -> ReceiverView {
        ReceiverView { chunk_size, expected: initial, finished: false }
    }

    /// A receiver that has taken nothing yet.
    pub open spec fn fresh(chunk_size: u32) -> ReceiverView {
        ReceiverView::starting_at(chunk_size, INITIAL_SEQUENCE)
    }

    /// Whether `frame` is the one that the receiver takes next.
    pub open spec fn accepts(self, frame: FrameView) -> bool {
        &&& frame matches FrameView::Data { seq, payload }
        &&& payload.len() <= self.chunk_size
        &&& !self.finished
        &&& seq == self.expected
    }

    /// Whether `frame` repeats one that the receiver took before.
    pub open spec fn repeats(self, frame: FrameView) -> bool {
        &&& frame matches FrameView::Data { seq, payload }
        &&& payload.len() <= self.chunk_size
        &&& !self.accepts(frame)
        &&& spec_already_seen(self.expected, seq)
    }

    /// The state after `datagram` arrived. Only the frame that is due
    /// changes anything.
    pub open spec fn after_datagram(self, datagram: Seq<u8>) -> ReceiverView {
        match spec_decode(datagram) {
            Some(frame) if self.accepts(frame) => ReceiverView {
                expected: spec_next_seq(frame->Data_seq),
                finished: frame.is_end_of_stream(),
                ..self
            },
            _ => self,
        }
    }

    /// The answer to `datagram`: the due frame is acknowledged and
    /// delivered, a repeated one acknowledged only, all else ignored.
    pub open spec fn reception(self, datagram: Seq<u8>) -> ReceptionView {
        match spec_decode(datagram) {
            Some(frame) => if self.accepts(frame) {
                ReceptionView {
                    ack: Some(spec_encode(FrameView::Ack { seq: frame->Data_seq })),
                    delivery: if frame.is_end_of_stream() {
                        DeliveryView::EndOfStream
                    } else {
                        DeliveryView::Data(frame->Data_payload)
                    },
                }
            } else if self.repeats(frame) {
                ReceptionView::repeated(frame->Data_seq)
            } else {
                ReceptionView::ignored()
            },
            None => ReceptionView::ignored(),
        }
    }
}

impl View for Receiver {
    type V = ReceiverView;

    closed spec fn view(&self) -> ReceiverView {
        ReceiverView {
            chunk_size: self.chunk_size,
            expected: self.expected,
            finished: self.finished,
        }
    }
}

impl Receiver {
    /// A receiver at the start of a stream, which accepts payloads of up to
    /// `chunk_size` bytes.
    pub fn new(chunk_size: u32) -> (r: Receiver)
        ensures
            r@ == ReceiverView::fresh(chunk_size),
    {
        Receiver::starting_at(chunk_size, INITIAL_SEQUENCE)
    }

    /// A receiver at the start of a stream whose first frame is numbered
    /// `initial`, for peers that have agreed on another number than
    /// [`INITIAL_SEQUENCE`].
    pub fn starting_at(chunk_size: u32, initial: u32) -> (r: Receiver)
        ensures
            r@ == ReceiverView::starting_at(chunk_size, initial),
    {
        Receiver { chunk_size, expected: initial, finished: false }
    }

    /// Whether the stream has ended. Once it has, a read reports zero bytes
    /// at once instead of waiting for a datagram.
    pub fn is_finished(&self) -> (finished: bool)
        ensures
            finished == self@.finished,
    {
        self.finished
    }

    /// Takes a datagram that arrived from the peer and says what to send
    /// back and what to hand to the caller.
    ///
    /// The frame that is due is acknowledged and delivered; if it is the
    /// end-of-stream marker the stream is finished. A frame that was taken
    /// before is acknowledged again, since its first acknowledgment may have
    /// been lost, and is not delivered a second time. Everything else (a
    /// frame from further ahead, one that is too large, an acknowledgment,
    /// noise, any new frame after the end) is ignored.
    pub fn on_datagram(&mut self, datagram: &[u8]) -> (r: Reception)
        ensures
            final(self)@ == old(self)@.after_datagram(datagram@),
            r@ == old(self)@.reception(datagram@),
    {
        match Frame::decode(datagram) {
            Some(Frame::Data { seq, payload }) => {
                if payload.len() > self.chunk_size as usize {
                    Reception { ack: None, delivery: Delivery::Nothing }
                } else if !self.finished && seq == self.expected {
                    self.expected = next_seq(seq);
                    let ack = Some(encode_ack(seq));
                    if payload.len() == 0 {
                        self.finished = true;
                        Reception { ack, delivery: Delivery::EndOfStream }
                    } else {
                        Reception { ack, delivery: Delivery::Data(payload) }
                    }
                } else if already_seen(self.expected, seq) {
                    Reception { ack: Some(encode_ack(seq)), delivery: Delivery::Nothing }
                } else {
                    Reception { ack: None, delivery: Delivery::Nothing }
                }
            },
            _ => Reception { ack: None, delivery: Delivery::Nothing },
        }
    }
}

} // verus!
