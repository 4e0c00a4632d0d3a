use chat_relay::frame::{decode, encode, payload_length, FrameError, HEADER_LEN, MAX_PAYLOAD};

#[test]
fn encode_puts_big_endian_length_in_front() {
    assert_eq!(encode(b"hi"), Ok(vec![0, 2, b'h', b'i']));
}

#[test]
fn encode_of_empty_payload_is_bare_header() {
    assert_eq!(encode(b""), Ok(vec![0, 0]));
}

#[test]
fn encode_of_256_bytes_carries_into_high_byte() {
    let payload = vec![7u8; 256];
    let frame = encode(&payload).unwrap();
    assert_eq!(frame.len(), 258);
    assert_eq!(&frame[..2], &[1, 0]);
    assert_eq!(&frame[2..], &payload[..]);
}

#[test]
fn encode_of_258_bytes_uses_both_header_bytes() {
    let payload = vec![1u8; 258];
    let frame = encode(&payload).unwrap();
    assert_eq!(&frame[..2], &[1, 2]);
}

#[test]
fn encode_takes_largest_payload() {
    let payload = vec![0xabu8; MAX_PAYLOAD];
    let frame = encode(&payload).unwrap();
    assert_eq!(frame.len(), MAX_PAYLOAD + HEADER_LEN);
    assert_eq!(&frame[..2], &[255, 255]);
    assert_eq!(&frame[2..], &payload[..]);
}

#[test]
fn encode_refuses_oversize_payload() {
    let payload = vec![0u8; MAX_PAYLOAD + 1];
    assert_eq!(encode(&payload), Err(FrameError::PayloadTooLarge));
    let larger = vec![0u8; 100_000];
    assert_eq!(encode(&larger), Err(FrameError::PayloadTooLarge));
}

#[test]
fn payload_length_reads_big_endian() {
    assert_eq!(payload_length(&[0, 0]), 0);
    assert_eq!(payload_length(&[0, 2]), 2);
    assert_eq!(payload_length(&[1, 2]), 258);
    assert_eq!(payload_length(&[255, 255]), 65535);
}

#[test]
fn decode_hands_out_payload() {
    assert_eq!(decode(&[0, 2, b'h', b'i']), Ok(vec![b'h', b'i']));
    assert_eq!(decode(&[0, 0]), Ok(vec![]));
}

#[test]
fn decode_leaves_following_bytes_alone() {
    assert_eq!(decode(&[0, 1, 9, 8, 7]), Ok(vec![9]));
}

#[test]
fn decode_of_short_header_is_end_of_stream() {
    assert_eq!(decode(&[]), Err(FrameError::EndOfStream));
    assert_eq!(decode(&[0]), Err(FrameError::EndOfStream));
}

#[test]
fn decode_of_short_payload_is_protocol_error() {
    assert_eq!(decode(&[0, 3, 1, 2]), Err(FrameError::ProtocolError));
    assert_eq!(decode(&[255, 255]), Err(FrameError::ProtocolError));
}

#[test]
fn framing_round_trip_on_sample_payloads() {
    let lengths = [0usize, 1, 2, 255, 256, 257, 1000, 65534, 65535];
    for length in lengths {
        let mut payload = Vec::with_capacity(length);
        for i in 0..length {
            payload.push((i % 251) as u8);
        }
        let frame = encode(&payload).unwrap();
        assert_eq!(decode(&frame), Ok(payload.clone()));
        let mut stream = frame.clone();
        stream.extend_from_slice(&[1, 2, 3]);
        assert_eq!(decode(&stream), Ok(payload));
    }
}
