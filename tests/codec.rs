use saltyrtc_client::{
    ByteBox, ClientAuth, ClientHello, DecodeError, FormatError, Message, Nonce, OpenBox,
    PublicKey, Receiver, Sender, ServerHello,
};

fn test_nonce() -> Nonce {
    Nonce::new(
        [1, 2, 3, 4, 5, 6, 7, 8, 9, 10, 11, 12, 13, 14, 15, 16],
        Sender::new(17),
        Receiver::new(18),
        258,
        50_595_078,
    )
}

#[test]
fn nonce_layout() {
    let b = test_nonce().to_bytes();
    assert_eq!(
        b,
        vec![1, 2, 3, 4, 5, 6, 7, 8, 9, 10, 11, 12, 13, 14, 15, 16, 17, 18, 1, 2, 3, 4, 5, 6]
    );
}

#[test]
fn nonce_round_trip() {
    let n = test_nonce();
    assert_eq!(Nonce::from_bytes(&n.to_bytes()), Ok(n));
    let m = Nonce::new([255; 16], Sender::new(1), Receiver::new(255), 65535, u32::MAX);
    assert_eq!(Nonce::from_bytes(&m.to_bytes()), Ok(m));
}

#[test]
fn nonce_wrong_length() {
    assert_eq!(Nonce::from_bytes(&[0; 23]), Err(FormatError { length: 23 }));
    assert_eq!(Nonce::from_bytes(&[0; 25]), Err(FormatError { length: 25 }));
    assert_eq!(Nonce::from_bytes(&[]), Err(FormatError { length: 0 }));
}

fn round_trip(m: Message) {
    let o = OpenBox::new(m, test_nonce());
    let b = o.encode();
    assert_eq!(b.nonce, test_nonce());
    assert_eq!(b.decode(), Ok(o));
}

#[test]
fn envelope_round_trips() {
    round_trip(ServerHello::new(PublicKey::from_bytes([3; 32])).into_message());
    round_trip(ClientHello::new(PublicKey::from_bytes([4; 32])).into_message());
    round_trip(
        ClientAuth {
            your_cookie: [9; 16],
            subprotocols: vec!["v1.saltyrtc.org".to_string(), "grüße".to_string(), String::new()],
            ping_interval: 30,
            your_key: Some(PublicKey::from_bytes([5; 32])),
        }
        .into_message(),
    );
    round_trip(
        ClientAuth {
            your_cookie: [0; 16],
            subprotocols: vec![],
            ping_interval: 0,
            your_key: None,
        }
        .into_message(),
    );
}

#[test]
fn server_hello_wire_form() {
    let m = ServerHello::new(PublicKey::from_bytes([3; 32])).into_message();
    let mut expected = vec![1u8];
    expected.extend_from_slice(&[3; 32]);
    assert_eq!(m.to_bytes(), expected);
    assert_eq!(m.get_type(), "server-hello");
}

#[test]
fn client_auth_wire_form() {
    let m = ClientAuth {
        your_cookie: [7; 16],
        subprotocols: vec!["ab".to_string()],
        ping_interval: 0x01020304,
        your_key: None,
    }
    .into_message();
    let mut expected = vec![3u8];
    expected.extend_from_slice(&[7; 16]);
    expected.extend_from_slice(&[1, 2, 3, 4, 0]);
    expected.extend_from_slice(&[0, 0, 0, 0, 0, 0, 0, 1]);
    expected.extend_from_slice(&[0, 0, 0, 0, 0, 0, 0, 2, b'a', b'b']);
    assert_eq!(m.to_bytes(), expected);
    assert_eq!(m.get_type(), "client-auth");
}

#[test]
fn decodes_utf8_subprotocol() {
    let mut b = vec![3u8];
    b.extend_from_slice(&[0; 16]);
    b.extend_from_slice(&[0, 0, 0, 5, 0]);
    b.extend_from_slice(&[0, 0, 0, 0, 0, 0, 0, 1]);
    b.extend_from_slice(&[0, 0, 0, 0, 0, 0, 0, 3, b'x', 0xc3, 0xa9]);
    match Message::from_bytes(&b) {
        Ok(Message::ClientAuth(a)) => {
            assert_eq!(a.subprotocols, vec!["xé".to_string()]);
            assert_eq!(a.ping_interval, 5);
        }
        other => panic!("unexpected {:?}", other),
    }
}

#[test]
fn decode_errors() {
    assert_eq!(Message::from_bytes(&[]), Err(DecodeError::Empty));
    assert_eq!(Message::from_bytes(&[0]), Err(DecodeError::UnknownType));
    assert_eq!(Message::from_bytes(&[1, 2, 3]), Err(DecodeError::Malformed));
    // A subprotocol that is not UTF-8.
    let mut b = vec![3u8];
    b.extend_from_slice(&[0; 16]);
    b.extend_from_slice(&[0, 0, 0, 0, 0]);
    b.extend_from_slice(&[0, 0, 0, 0, 0, 0, 0, 1]);
    b.extend_from_slice(&[0, 0, 0, 0, 0, 0, 0, 1, 0xff]);
    assert_eq!(Message::from_bytes(&b), Err(DecodeError::Malformed));
    // Trailing bytes after the last subprotocol.
    let mut c = ClientAuth {
        your_cookie: [0; 16],
        subprotocols: vec![],
        ping_interval: 0,
        your_key: None,
    }
    .into_message()
    .to_bytes();
    c.push(0);
    assert_eq!(Message::from_bytes(&c), Err(DecodeError::Malformed));
    // A count larger than what follows.
    let mut d = vec![3u8];
    d.extend_from_slice(&[0; 21]);
    d.extend_from_slice(&[255; 8]);
    assert_eq!(Message::from_bytes(&d), Err(DecodeError::Malformed));
}

#[test]
fn decode_error_texts() {
    assert_eq!(DecodeError::Empty.message(), "Empty message");
    assert_eq!(DecodeError::UnknownType.message(), "Unknown message type");
    assert_eq!(DecodeError::Malformed.message(), "Malformed message body");
}

#[test]
fn byte_box_wire_round_trip() {
    let bb = ByteBox::new(vec![1, 2, 3], test_nonce());
    let w = bb.to_bytes();
    assert_eq!(w.len(), 27);
    assert_eq!(&w[24..], &[1, 2, 3]);
    assert_eq!(ByteBox::from_slice(&w), Ok(bb));
    assert_eq!(ByteBox::from_slice(&w[..24]).map(|b| b.bytes), Ok(vec![]));
    assert_eq!(ByteBox::from_slice(&w[..10]), Err(FormatError { length: 10 }));
}
