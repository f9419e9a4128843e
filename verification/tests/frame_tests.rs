use nudge::frame::{encode_ack, encode_data, Frame, ACK_LEN, DATA_HEADER_LEN, KIND_ACK, KIND_DATA};

#[test]
fn data_frame_has_the_documented_layout() {
    let bytes = encode_data(1, &[0xaa, 0xbb]);
    assert_eq!(bytes, vec![0x44, 0, 0, 0, 1, 0, 0, 0, 2, 0xaa, 0xbb]);
    assert_eq!(bytes[0], KIND_DATA);
    assert_eq!(bytes.len(), DATA_HEADER_LEN + 2);
}

#[test]
fn ack_frame_has_the_documented_layout() {
    let bytes = encode_ack(0x0102_0304);
    assert_eq!(bytes, vec![0x41, 1, 2, 3, 4]);
    assert_eq!(bytes[0], KIND_ACK);
    assert_eq!(bytes.len(), ACK_LEN);
}

#[test]
fn sequence_number_is_written_most_significant_byte_first() {
    assert_eq!(encode_ack(u32::MAX), vec![0x41, 0xff, 0xff, 0xff, 0xff]);
    assert_eq!(encode_ack(0x100), vec![0x41, 0, 0, 1, 0]);
    assert_eq!(encode_data(0xdead_beef, &[])[1..5], [0xde, 0xad, 0xbe, 0xef]);
}

#[test]
fn end_of_stream_marker_is_a_data_frame_without_payload() {
    let bytes = encode_data(7, &[]);
    assert_eq!(bytes, vec![0x44, 0, 0, 0, 7, 0, 0, 0, 0]);
    match Frame::decode(&bytes) {
        Some(Frame::Data { seq, payload }) => {
            assert_eq!(seq, 7);
            assert!(payload.is_empty());
        }
        other => panic!("not an end-of-stream marker: {:?}", other),
    }
}

#[test]
fn decode_reads_back_a_data_frame() {
    let payload: Vec<u8> = (0..=255).collect();
    let bytes = encode_data(0x0a0b_0c0d, &payload);
    match Frame::decode(&bytes) {
        Some(Frame::Data { seq, payload: got }) => {
            assert_eq!(seq, 0x0a0b_0c0d);
            assert_eq!(got, payload);
        }
        other => panic!("not a data frame: {:?}", other),
    }
}

#[test]
fn decode_reads_back_an_ack() {
    match Frame::decode(&encode_ack(99)) {
        Some(Frame::Ack { seq }) => assert_eq!(seq, 99),
        other => panic!("not an ack: {:?}", other),
    }
}

#[test]
fn frame_encode_agrees_with_the_free_functions() {
    let data = Frame::Data { seq: 5, payload: vec![1, 2, 3] };
    assert_eq!(data.encode(), encode_data(5, &[1, 2, 3]));
    let ack = Frame::Ack { seq: 5 };
    assert_eq!(ack.encode(), encode_ack(5));
}

#[test]
fn decode_rejects_what_is_no_frame() {
    // nothing at all
    assert!(Frame::decode(&[]).is_none());
    // unknown kind
    assert!(Frame::decode(&[0x00, 0, 0, 0, 1]).is_none());
    // an ack that is too short, and one that is too long
    assert!(Frame::decode(&[0x41, 0, 0, 0]).is_none());
    assert!(Frame::decode(&[0x41, 0, 0, 0, 1, 0]).is_none());
    // a data frame whose header is cut off
    assert!(Frame::decode(&[0x44, 0, 0, 0, 1, 0, 0, 0]).is_none());
    // a data frame that announces more payload than it has
    assert!(Frame::decode(&[0x44, 0, 0, 0, 1, 0, 0, 0, 2, 0xaa]).is_none());
    // a data frame that has more payload than it announces
    assert!(Frame::decode(&[0x44, 0, 0, 0, 1, 0, 0, 0, 1, 0xaa, 0xbb]).is_none());
}

#[test]
fn ack_sized_data_kind_is_no_frame() {
    assert!(Frame::decode(&[0x44, 0, 0, 0, 1]).is_none());
}
