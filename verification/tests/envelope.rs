use rustmq::envelope::{decode, encode, Envelope, MessageType};
use rustmq::error::Error;

fn envelope(id: u64, msg_type: MessageType, text: &[u8]) -> Envelope {
    Envelope { id, msg_type, text: text.to_vec() }
}

#[test]
fn message_create() {
    let msgs = ["a", "b", "c", "d"];
    for msg in &msgs {
        let m = envelope(0, MessageType::Hello, msg.as_bytes());
        let buf = encode(&m);
        let got = decode(&buf).unwrap();
        assert_eq!(msg.as_bytes(), got.text.as_slice());
        assert_eq!(0, got.id);
        assert_eq!(MessageType::Hello, got.msg_type);
        println!("mesg = {:?}", got.text);
    }
}

#[test]
fn message_builder() {
    let m = envelope(1000, MessageType::Goodbye, b"a");
    let buf = encode(&m);
    let got = decode(&buf).unwrap();
    assert_eq!(b"a", got.text.as_slice());
    assert_eq!(1000, got.id);
    assert_eq!(MessageType::Goodbye, got.msg_type);
    println!("msg = {:?}", got.text);
}

#[test]
fn round_trip_every_field() {
    let cases: Vec<Envelope> = vec![
        envelope(0, MessageType::Hello, b""),
        envelope(1, MessageType::Hello, b"hello world"),
        envelope(u64::MAX, MessageType::Goodbye, b"\x00\xff\x7f"),
        envelope(0x0123_4567_89ab_cdef, MessageType::Goodbye, b"x"),
    ];
    for m in &cases {
        let got = decode(&encode(m)).unwrap();
        assert_eq!(m.id, got.id);
        assert_eq!(m.msg_type, got.msg_type);
        assert_eq!(m.text, got.text);
    }
}

#[test]
fn encode_exact_bytes() {
    let buf = encode(&envelope(1, MessageType::Hello, b"a"));
    assert_eq!(buf, vec![1, 0, 0, 0, 0, 0, 0, 0, 0, b'a']);
    let buf = encode(&envelope(258, MessageType::Goodbye, b""));
    assert_eq!(buf, vec![2, 1, 0, 0, 0, 0, 0, 0, 1]);
}

#[test]
fn decode_rejects_short_buffer() {
    assert!(matches!(decode(&[]), Err(Error::DecodeError)));
    assert!(matches!(decode(&[0; 8]), Err(Error::DecodeError)));
    assert!(decode(&[0; 9]).is_ok());
}

#[test]
fn decode_rejects_unknown_tag() {
    let mut buf = encode(&envelope(7, MessageType::Hello, b"ok"));
    buf[8] = 2;
    assert!(matches!(decode(&buf), Err(Error::DecodeError)));
    buf[8] = 255;
    assert!(matches!(decode(&buf), Err(Error::DecodeError)));
}
