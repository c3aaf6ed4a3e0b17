use ferry::buffer::InputBuf;
use ferry::decode::Decode;
use ferry::frame::{FrameDecoder, FrameError, LengthPrefixed, MAX_PAYLOAD};
use ferry::outcome::Outcome;

fn buffer_of(bytes: &[u8]) -> InputBuf {
    let mut buf = InputBuf::new();
    buf.extend(bytes.to_vec());
    buf
}

fn contents(buf: &InputBuf) -> Vec<u8> {
    (0..buf.len()).map(|at| buf.byte(at)).collect()
}

#[test]
fn new_buffer_is_empty() {
    let buf = InputBuf::new();
    assert_eq!(buf.len(), 0);
    assert!(buf.is_empty());
}

#[test]
fn extend_appends_behind() {
    let mut buf = buffer_of(b"ab");
    buf.extend(b"cde".to_vec());
    assert_eq!(buf.len(), 5);
    assert!(!buf.is_empty());
    assert_eq!(contents(&buf), b"abcde".to_vec());
    assert_eq!(buf.byte(0), b'a');
    assert_eq!(buf.byte(4), b'e');
}

#[test]
fn take_returns_the_front_and_keeps_the_rest() {
    let mut buf = buffer_of(b"abcde");
    assert_eq!(buf.take(2), b"ab".to_vec());
    assert_eq!(contents(&buf), b"cde".to_vec());
    assert_eq!(buf.take(0), Vec::<u8>::new());
    assert_eq!(contents(&buf), b"cde".to_vec());
    assert_eq!(buf.take(3), b"cde".to_vec());
    assert!(buf.is_empty());
}

#[test]
fn skip_drops_the_front() {
    let mut buf = buffer_of(b"abcde");
    buf.skip(3);
    assert_eq!(contents(&buf), b"de".to_vec());
    buf.skip(0);
    assert_eq!(contents(&buf), b"de".to_vec());
    buf.skip(2);
    assert!(buf.is_empty());
}

#[test]
fn clear_drops_everything() {
    let mut buf = buffer_of(b"abcde");
    buf.clear();
    assert!(buf.is_empty());
    assert_eq!(buf.len(), 0);
}

#[test]
fn fresh_decoder_has_seen_no_length() {
    assert_eq!(LengthPrefixed::fresh(), FrameDecoder { declared: None });
    assert_eq!(MAX_PAYLOAD, 127);
}

#[test]
fn decode_takes_one_frame_and_its_bytes() {
    let mut decoder = LengthPrefixed::fresh();
    let mut buf = buffer_of(b"\x03abc\x02de");
    assert_eq!(
        LengthPrefixed::decode(&mut decoder, &mut buf),
        Outcome::Produced(LengthPrefixed { payload: b"abc".to_vec() })
    );
    assert_eq!(contents(&buf), b"\x02de".to_vec());
    assert_eq!(decoder, FrameDecoder { declared: None });
    assert_eq!(
        LengthPrefixed::decode(&mut decoder, &mut buf),
        Outcome::Produced(LengthPrefixed { payload: b"de".to_vec() })
    );
    assert!(buf.is_empty());
    assert_eq!(LengthPrefixed::decode(&mut decoder, &mut buf), Outcome::Insufficient);
    assert!(buf.is_empty());
}

#[test]
fn decode_waits_without_touching_the_buffer() {
    let mut decoder = LengthPrefixed::fresh();
    let mut buf = buffer_of(b"\x05ab");
    assert_eq!(LengthPrefixed::decode(&mut decoder, &mut buf), Outcome::Insufficient);
    assert_eq!(contents(&buf), b"\x05ab".to_vec());
    assert_eq!(decoder, FrameDecoder { declared: Some(5) });
    assert_eq!(LengthPrefixed::decode(&mut decoder, &mut buf), Outcome::Insufficient);
    assert_eq!(contents(&buf), b"\x05ab".to_vec());
    buf.extend(b"cde!".to_vec());
    assert_eq!(
        LengthPrefixed::decode(&mut decoder, &mut buf),
        Outcome::Produced(LengthPrefixed { payload: b"abcde".to_vec() })
    );
    assert_eq!(contents(&buf), b"!".to_vec());
}

#[test]
fn decode_accepts_an_empty_payload() {
    let mut decoder = LengthPrefixed::fresh();
    let mut buf = buffer_of(b"\x00\x01");
    assert_eq!(
        LengthPrefixed::decode(&mut decoder, &mut buf),
        Outcome::Produced(LengthPrefixed { payload: Vec::new() })
    );
    assert_eq!(contents(&buf), b"\x01".to_vec());
}

#[test]
fn decode_rejects_a_length_over_the_limit() {
    let mut decoder = LengthPrefixed::fresh();
    let mut buf = buffer_of(b"\x80abc");
    assert_eq!(
        LengthPrefixed::decode(&mut decoder, &mut buf),
        Outcome::Failed(FrameError::TooLong(0x80))
    );
    let mut decoder = LengthPrefixed::fresh();
    let mut buf = buffer_of(b"\x7f");
    assert_eq!(LengthPrefixed::decode(&mut decoder, &mut buf), Outcome::Insufficient);
}

#[test]
fn extend_after_consuming_keeps_the_rest_in_front() {
    let mut buf = buffer_of(b"abcde");
    buf.skip(2);
    buf.extend(b"fg".to_vec());
    assert_eq!(buf.len(), 5);
    assert_eq!(contents(&buf), b"cdefg".to_vec());
    assert_eq!(buf.take(4), b"cdef".to_vec());
    buf.extend(Vec::new());
    assert_eq!(contents(&buf), b"g".to_vec());
    buf.skip(1);
    assert!(buf.is_empty());
    buf.extend(b"h".to_vec());
    assert_eq!(contents(&buf), b"h".to_vec());
    buf.clear();
    buf.extend(b"ij".to_vec());
    assert_eq!(buf.byte(1), b'j');
    assert_eq!(buf.len(), 2);
}
