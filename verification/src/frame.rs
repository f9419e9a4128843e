//! The transport's wire format.
//!
//! Two kinds of datagram travel between the peers. A data frame is one kind
//! byte, the sequence number, the payload length and then the payload itself; a
//! payload length of zero marks the end of the stream. An acknowledgment is one
//! kind byte and the sequence number it acknowledges. Integers are four bytes,
//! most significant first. Both peers use this one layout.

use vstd::prelude::*;

verus! {

/// First byte of a data frame.
pub const KIND_DATA: u8 = 0x44;

/// First byte of an acknowledgment.
pub const KIND_ACK: u8 = 0x41;

/// Bytes that precede the payload of a data frame.
pub const DATA_HEADER_LEN: usize = 9;

/// Length of an acknowledgment.
pub const ACK_LEN: usize = 5;

/// One unit of the transport protocol.
#[derive(Debug)]
pub enum Frame {
    /// Carries payload bytes; an empty payload is the end-of-stream marker.
    Data { seq: u32, payload: Vec<u8> },
    /// Confirms receipt of the data frame numbered `seq`.
    Ack { seq: u32 },
}

/// The mathematical content of a [`Frame`].
pub ghost enum FrameView {
    Data { seq: u32, payload: Seq<u8> },
    Ack { seq: u32 },
}

impl View for Frame {
    type V = FrameView;

    open spec fn view(&self) -> FrameView {
        match self {
            Frame::Data { seq, payload } => FrameView::Data { seq: *seq, payload: payload@ },
            Frame::Ack { seq } => FrameView::Ack { seq: *seq },
        }
    }
}

impl FrameView {
    /// A frame can be put on the wire when its payload length fits the length field.
    pub open spec fn encodable(self) -> bool {
        match self {
            FrameView::Data { seq, payload } => payload.len() <= u32::MAX,
            FrameView::Ack { seq } => true,
        }
    }

    /// The end-of-stream marker is the data frame without payload.
    pub open spec fn is_end_of_stream(self) -> bool {
        self matches FrameView::Data { seq, payload } && payload.len() == 0
    }
}

/// The four bytes of `x`, most significant first.
pub open spec fn spec_u32_bytes(x: u32) -> Seq<u8> {
    seq![
        (x / 0x100_0000) as u8,
        ((x / 0x1_0000) % 0x100) as u8,
        ((x / 0x100) % 0x100) as u8,
        (x % 0x100) as u8,
    ]
}

/// The number whose four bytes, most significant first, start at `at` in `b`.
pub open spec fn spec_u32_at(b: Seq<u8>, at: int) -> int {
    b[at] * 0x100_0000 + b[at + 1] * 0x1_0000 + b[at + 2] * 0x100 + b[at + 3]
}

/// The datagram that carries `f`.
pub open spec fn spec_encode(f: FrameView) -> Seq<u8> {
    match f {
        FrameView::Data { seq, payload } => seq![KIND_DATA] + spec_u32_bytes(seq) + spec_u32_bytes(
            payload.len() as u32,
        ) + payload,
        FrameView::Ack { seq } => seq![KIND_ACK] + spec_u32_bytes(seq),
    }
}

/// The frame that a datagram carries, if it carries one. A datagram is a frame
/// only if its length is exactly what its kind and length field announce.
pub open spec fn spec_decode(b: Seq<u8>) -> Option<FrameView> {
    if b.len() == ACK_LEN && b[0] == KIND_ACK {
        Some(FrameView::Ack { seq: spec_u32_at(b, 1) as u32 })
    } else if b.len() >= DATA_HEADER_LEN && b[0] == KIND_DATA && spec_u32_at(b, 5) == b.len()
        - DATA_HEADER_LEN {
        Some(
            FrameView::Data {
                seq: spec_u32_at(b, 1) as u32,
                payload: b.subrange(DATA_HEADER_LEN as int, b.len() as int),
            },
        )
    } else {
        None
    }
}

/// Reading back the four bytes of a number gives the number.
pub proof fn lemma_u32_bytes_round_trip(x: u32)
    ensures
        spec_u32_bytes(x).len() == 4,
        spec_u32_at(spec_u32_bytes(x), 0) == x,
{
}

/// Four bytes are the bytes of the number they spell.
pub proof fn lemma_u32_at_bounds(b: Seq<u8>, at: int)
    requires
        0 <= at,
        at + 4 <= b.len(),
    ensures
        0 <= spec_u32_at(b, at) <= u32::MAX,
        spec_u32_bytes(spec_u32_at(b, at) as u32) == b.subrange(at, at + 4),
{
    let x = spec_u32_at(b, at);
    assert(spec_u32_bytes(x as u32) =~= b.subrange(at, at + 4));
}

/// Decoding undoes encoding: every frame that fits the wire comes back as it was sent.
pub proof fn lemma_decode_encode(f: FrameView)
    requires
        f.encodable(),
    ensures
        spec_decode(spec_encode(f)) == Some(f),
{
    let b = spec_encode(f);
    match f {
        FrameView::Data { seq, payload } => {
            let n = payload.len() as u32;
            lemma_u32_bytes_round_trip(seq);
            lemma_u32_bytes_round_trip(n);
            assert(b.len() == DATA_HEADER_LEN + payload.len());
            assert(b[0] == KIND_DATA);
            assert(spec_u32_at(b, 1) == spec_u32_at(spec_u32_bytes(seq), 0));
            assert(spec_u32_at(b, 5) == spec_u32_at(spec_u32_bytes(n), 0));
            assert(b.subrange(DATA_HEADER_LEN as int, b.len() as int) =~= payload);
        },
        FrameView::Ack { seq } => {
            lemma_u32_bytes_round_trip(seq);
            assert(b.len() == ACK_LEN);
            assert(b[0] == KIND_ACK);
            assert(spec_u32_at(b, 1) == spec_u32_at(spec_u32_bytes(seq), 0));
        },
    }
}

/// Encoding undoes decoding: a datagram that decodes is exactly the encoding
/// of the frame it decodes to, so no two datagrams carry the same frame.
pub proof fn lemma_encode_decode(b: Seq<u8>)
    requires
        spec_decode(b) is Some,
    ensures
        spec_decode(b)->0.encodable(),
        spec_encode(spec_decode(b)->0) == b,
{
    let f = spec_decode(b)->0;
    lemma_u32_at_bounds(b, 1);
    match f {
        FrameView::Data { seq, payload } => {
            lemma_u32_at_bounds(b, 5);
            assert(payload.len() == spec_u32_at(b, 5));
            assert(spec_encode(f) =~= b);
        },
        FrameView::Ack { seq } => {
            assert(spec_encode(f) =~= b);
        },
    }
}

/// Appends the four bytes of `x`, most significant first.
fn push_u32(out: &mut Vec<u8>, x: u32)
    ensures
        final(out)@ == old(out)@ + spec_u32_bytes(x),
{
    out.push((x / 0x100_0000) as u8);
    out.push(((x / 0x1_0000) % 0x100) as u8);
    out.push(((x / 0x100) % 0x100) as u8);
    out.push((x % 0x100) as u8);
    assert(out@ =~= old(out)@ + spec_u32_bytes(x));
}

/// Reads the four bytes that start at `at` as a number, most significant first.
fn read_u32(bytes: &[u8], at: usize) -> (x: u32)
    requires
        at + 4 <= bytes.len(),
    ensures
        x == spec_u32_at(bytes@, at as int),
{
    let b0: u32 = bytes[at] as u32;
    let b1: u32 = bytes[at + 1] as u32;
    let b2: u32 = bytes[at + 2] as u32;
    let b3: u32 = bytes[at + 3] as u32;
    b0 * 0x100_0000 + b1 * 0x1_0000 + b2 * 0x100 + b3
}

/// Builds the datagram of the data frame numbered `seq` that carries `payload`.
/// With an empty payload this is the end-of-stream marker.
pub fn encode_data(seq: u32, payload: &[u8]) -> (out: Vec<u8>)
    requires
        payload.len() <= u32::MAX,
    ensures
        out@ == spec_encode(FrameView::Data { seq, payload: payload@ }),
{
    let mut out: Vec<u8> = Vec::new();
    out.push(KIND_DATA);
    push_u32(&mut out, seq);
    push_u32(&mut out, payload.len() as u32);
    let ghost head = out@;
    let mut i: usize = 0;
    while i < payload.len()
        invariant
            i <= payload.len(),
            out@ == head + payload@.subrange(0, i as int),
        decreases payload.len() - i,
    {
        out.push(payload[i]);
        i += 1;
        assert(out@ =~= head + payload@.subrange(0, i as int));
    }
    assert(payload@.subrange(0, i as int) =~= payload@);
    out
}

/// Builds the datagram that acknowledges the data frame numbered `seq`.
pub fn encode_ack(seq: u32) -> (out: Vec<u8>)
    ensures
        out@ == spec_encode(FrameView::Ack { seq }),
{
    let mut out: Vec<u8> = Vec::new();
    out.push(KIND_ACK);
    push_u32(&mut out, seq);
    out
}

impl Frame {
    /// Builds the datagram that carries this frame.
    pub fn encode(&self) -> (out: Vec<u8>)
        requires
            self@.encodable(),
        ensures
            out@ == spec_encode(self@),
    {
        match self {
            Frame::Data { seq, payload } => encode_data(*seq, payload.as_slice()),
            Frame::Ack { seq } => encode_ack(*seq),
        }
    }

    /// Reads a datagram. A datagram that is no frame (too short, of unknown
    /// kind, or of a length other than the one it announces) gives `None`.
    pub fn decode(bytes: &[u8]) -> (r: Option<Frame>)
        ensures
            match r {
                Some(f) => spec_decode(bytes@) == Some(f@),
                None => spec_decode(bytes@) is None,
            },
    {
        let n = bytes.len();
        if n == ACK_LEN && bytes[0] == KIND_ACK {
            let seq = read_u32(bytes, 1);
            Some(Frame::Ack { seq })
        } else if n >= DATA_HEADER_LEN && bytes[0] == KIND_DATA {
            let seq = read_u32(bytes, 1);
            let len = read_u32(bytes, 5);
            if len as usize == n - DATA_HEADER_LEN {
                let mut payload: Vec<u8> = Vec::new();
                let mut i: usize = DATA_HEADER_LEN;
                while i < n
                    invariant
                        DATA_HEADER_LEN <= i <= n,
                        n == bytes.len(),
                        payload@ == bytes@.subrange(DATA_HEADER_LEN as int, i as int),
                    decreases n - i,
                {
                    payload.push(bytes[i]);
                    i += 1;
                    assert(payload@ =~= bytes@.subrange(DATA_HEADER_LEN as int, i as int));
                }
                Some(Frame::Data { seq, payload })
            } else {
                None
            }
        } else {
            None
        }
    }
}

} // verus!
