use split_ssh::framing::{FrameParser, FrameStep, MAX_PAYLOAD, encode_frame};
use split_ssh::msg_header::{FLAG_NONE, FLAG_RECONN, HEADER_LEN};

#[test]
fn frame_round_trip() {
    let payload: Vec<u8> = (0u8..=255).collect();
    let frame = encode_frame(&payload, FLAG_NONE);
    assert_eq!(frame.len(), HEADER_LEN + payload.len());

    let mut parser = FrameParser::new();
    parser.feed(&frame);
    match parser.next_frame() {
        FrameStep::Frame { flags, payload: got } => {
            assert_eq!(flags, FLAG_NONE);
            assert_eq!(got, payload);
        }
        _ => panic!("a whole frame must be delivered"),
    }
    assert_eq!(parser.buffered(), 0);
}

#[test]
fn partial_payload_is_held_back() {
    let payload = vec![7u8; 100];
    let frame = encode_frame(&payload, FLAG_NONE);
    let mut parser = FrameParser::new();
    parser.feed(&frame[..HEADER_LEN + 99]);
    assert!(matches!(parser.next_frame(), FrameStep::NeedMore));
    assert_eq!(parser.buffered(), HEADER_LEN + 99);
    parser.feed(&frame[HEADER_LEN + 99..]);
    match parser.next_frame() {
        FrameStep::Frame { payload: got, .. } => assert_eq!(got, payload),
        _ => panic!("the last byte completed the frame"),
    }
}

#[test]
fn partial_header_is_held_back() {
    let frame = encode_frame(&vec![1u8, 2, 3], FLAG_NONE);
    let mut parser = FrameParser::new();
    parser.feed(&frame[..4]);
    assert!(matches!(parser.next_frame(), FrameStep::NeedMore));
    parser.feed(&frame[4..HEADER_LEN]);
    assert!(matches!(parser.next_frame(), FrameStep::NeedMore));
    parser.feed(&frame[HEADER_LEN..]);
    match parser.next_frame() {
        FrameStep::Frame { payload, .. } => assert_eq!(payload, vec![1, 2, 3]),
        _ => panic!("the payload completed the frame"),
    }
}

#[test]
fn bytes_past_the_frame_are_carried_over() {
    let first = vec![1u8; 10];
    let second = vec![2u8; 20];
    let mut stream = encode_frame(&first, FLAG_NONE);
    stream.extend_from_slice(&encode_frame(&second, FLAG_NONE));
    // And a half-finished third frame.
    let third = encode_frame(&vec![3u8; 30], FLAG_NONE);
    stream.extend_from_slice(&third[..HEADER_LEN + 5]);

    let mut parser = FrameParser::new();
    parser.feed(&stream);
    match parser.next_frame() {
        FrameStep::Frame { payload, .. } => assert_eq!(payload, first),
        _ => panic!("first frame is whole"),
    }
    match parser.next_frame() {
        FrameStep::Frame { payload, .. } => assert_eq!(payload, second),
        _ => panic!("second frame is whole"),
    }
    assert!(matches!(parser.next_frame(), FrameStep::NeedMore));
    assert_eq!(parser.buffered(), HEADER_LEN + 5);
}

#[test]
fn oversize_announcement_is_rejected() {
    let mut bogus = ((MAX_PAYLOAD as u64) + 1).to_le_bytes().to_vec();
    bogus.push(FLAG_NONE);
    let mut parser = FrameParser::new();
    parser.feed(&bogus);
    assert!(matches!(parser.next_frame(), FrameStep::Oversize));
    // Nothing was consumed.
    assert_eq!(parser.buffered(), HEADER_LEN);
}

#[test]
fn empty_frame_round_trips() {
    let frame = encode_frame(&Vec::new(), FLAG_RECONN);
    assert_eq!(frame.len(), HEADER_LEN);
    let mut parser = FrameParser::new();
    parser.feed(&frame);
    match parser.next_frame() {
        FrameStep::Frame { flags, payload } => {
            assert_eq!(flags, FLAG_RECONN);
            assert!(payload.is_empty());
        }
        _ => panic!("an empty frame is still a whole frame"),
    }
}

#[test]
fn largest_frame_round_trips() {
    let payload = vec![0xabu8; MAX_PAYLOAD];
    let frame = encode_frame(&payload, FLAG_NONE);
    let mut parser = FrameParser::new();
    parser.feed(&frame);
    match parser.next_frame() {
        FrameStep::Frame { payload: got, .. } => assert_eq!(got, payload),
        _ => panic!("the largest allowed frame must be delivered"),
    }
}

#[test]
fn reset_discards_buffered_bytes() {
    let mut parser = FrameParser::new();
    parser.feed(&[1, 2, 3, 4]);
    parser.reset();
    assert_eq!(parser.buffered(), 0);
}
