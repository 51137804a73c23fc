use saltyrtc_client::protocol::transition;
use saltyrtc_client::{
    ByteBox, ClientAuth, ClientHello, HandleAction, KeyStore, Message, Nonce, OpenBox,
    PeerContext, PublicKey, Receiver, Role, Sender, ServerContext, ServerHandshakeState,
    ServerHello, Signaling, StateTransition,
};

fn create_test_nonce() -> Nonce {
    Nonce::new(
        [1, 2, 3, 4, 5, 6, 7, 8, 9, 10, 11, 12, 13, 14, 15, 16],
        Sender::new(17),
        Receiver::new(18),
        258,
        50_595_078,
    )
}

fn create_test_bbox() -> ByteBox {
    ByteBox::new(vec![1, 2, 3], create_test_nonce())
}

fn key(b: u8) -> PublicKey {
    PublicKey::from_bytes([b; 32])
}

fn zero_nonce(sequence: u32) -> Nonce {
    Nonce::new([0; 16], Sender::new(0), Receiver::new(0), 0, sequence)
}

fn server_hello_box(k: PublicKey) -> ByteBox {
    OpenBox::new(ServerHello::new(k).into_message(), create_test_nonce()).encode()
}

fn client_hello_box(k: PublicKey) -> ByteBox {
    OpenBox::new(ClientHello::new(k).into_message(), create_test_nonce()).encode()
}

#[test]
fn server_handshake_state_from() {
    let t1: StateTransition<_> = StateTransition::new(
        ServerHandshakeState::New,
        vec![HandleAction::Reply(create_test_bbox())],
    );
    let t2: StateTransition<_> = StateTransition::new(
        ServerHandshakeState::New,
        vec![HandleAction::Reply(create_test_bbox())],
    )
    .into();
    let t3: StateTransition<_> =
        (ServerHandshakeState::New, HandleAction::Reply(create_test_bbox())).into();
    let t4: StateTransition<_> =
        (ServerHandshakeState::New, vec![HandleAction::Reply(create_test_bbox())]).into();
    assert_eq!(t1, t2);
    assert_eq!(t1, t3);
    assert_eq!(t1, t4);

    let t4: StateTransition<_> = ServerHandshakeState::New.into();
    let t5: StateTransition<_> = StateTransition::new(ServerHandshakeState::New, vec![]);
    assert_eq!(t4, t5);
}

#[test]
fn server_context_new() {
    let ctx = ServerContext::new();
    assert_eq!(ctx.address(), Receiver::new(0));
    assert_eq!(ctx.permanent_key(), None);
    assert_eq!(ctx.session_key(), None);
}

#[test]
fn server_context_starts_new() {
    let ctx = ServerContext::new();
    assert_eq!(ctx.handshake_state(), &ServerHandshakeState::New);
    assert_eq!(ctx.address(), Receiver::server());
}

#[test]
fn happy_path_from_new() {
    let own = key(7);
    let server_key = key(9);
    let t = transition(&ServerHandshakeState::New, &server_hello_box(server_key), &own);
    assert_eq!(t.state, ServerHandshakeState::ClientInfoSent);
    assert_eq!(t.actions.len(), 3);
    assert_eq!(t.actions[0], HandleAction::SetServerKey(server_key));
    match &t.actions[1] {
        HandleAction::Reply(b1) => {
            let o = b1.decode().unwrap();
            assert_eq!(o.message, Message::ClientHello(ClientHello::new(own)));
            assert_eq!(o.nonce, zero_nonce(123));
        }
        a => panic!("unexpected action {:?}", a),
    }
    match &t.actions[2] {
        HandleAction::Reply(b2) => {
            let o = b2.decode().unwrap();
            let expected = ClientAuth {
                your_cookie: [0; 16],
                subprotocols: vec!["vX.saltyrtc.org".to_string()],
                ping_interval: 0,
                your_key: None,
            };
            assert_eq!(o.message, Message::ClientAuth(expected));
            assert_eq!(o.nonce, zero_nonce(124));
        }
        a => panic!("unexpected action {:?}", a),
    }
}

#[test]
fn invalid_transition_names_state_and_type() {
    let t = transition(&ServerHandshakeState::New, &client_hello_box(key(1)), &key(2));
    assert_eq!(
        t.state,
        ServerHandshakeState::Failure("Invalid event transition: New <- client-hello".to_string())
    );
    assert!(t.actions.is_empty());
}

#[test]
fn decode_failure_at_new() {
    let empty = ByteBox::new(vec![], create_test_nonce());
    let t = transition(&ServerHandshakeState::New, &empty, &key(2));
    assert_eq!(t.state, ServerHandshakeState::Failure("Empty message".to_string()));
    assert!(t.actions.is_empty());

    let t = transition(&ServerHandshakeState::New, &create_test_bbox(), &key(2));
    assert_eq!(t.state, ServerHandshakeState::Failure("Malformed message body".to_string()));
    assert!(t.actions.is_empty());

    let unknown = ByteBox::new(vec![42, 0], create_test_nonce());
    let t = transition(&ServerHandshakeState::New, &unknown, &key(2));
    assert_eq!(t.state, ServerHandshakeState::Failure("Unknown message type".to_string()));
}

#[test]
fn failure_absorbs_every_input() {
    let failed = ServerHandshakeState::Failure("earlier".to_string());
    for b in [server_hello_box(key(1)), client_hello_box(key(1)), create_test_bbox()] {
        let t = transition(&failed, &b, &key(2));
        assert_eq!(t.state, failed);
        assert!(t.actions.is_empty());
    }
}

#[test]
fn later_states_not_implemented() {
    let t = transition(&ServerHandshakeState::ClientInfoSent, &server_hello_box(key(1)), &key(2));
    assert_eq!(t.state, ServerHandshakeState::Failure("Not yet implemented".to_string()));
    assert!(t.actions.is_empty());
}

#[test]
fn transition_is_deterministic() {
    let b = server_hello_box(key(3));
    let t1 = transition(&ServerHandshakeState::New, &b, &key(4));
    let t2 = transition(&ServerHandshakeState::New, &b, &key(4));
    assert_eq!(t1, t2);
}

#[test]
fn signaling_stores_state_and_returns_actions() {
    let mut s = Signaling::new(Role::Initiator, KeyStore::from_public_key(key(5)));
    let actions = s.handle_message(server_hello_box(key(6)));
    assert_eq!(actions.len(), 3);
    assert_eq!(actions[0], HandleAction::SetServerKey(key(6)));
    assert_eq!(s.server.handshake_state(), &ServerHandshakeState::ClientInfoSent);
    assert_eq!(s.role, Role::Initiator);

    let actions = s.handle_message(server_hello_box(key(6)));
    assert!(actions.is_empty());
    let failed = ServerHandshakeState::Failure("Not yet implemented".to_string());
    assert_eq!(s.server.handshake_state(), &failed);

    let actions = s.handle_message(server_hello_box(key(6)));
    assert!(actions.is_empty());
    assert_eq!(s.server.handshake_state(), &failed);
}

#[test]
fn signaling_fails_on_client_hello() {
    let mut s = Signaling::new(Role::Responder, KeyStore::from_public_key(key(5)));
    let actions = s.handle_message(client_hello_box(key(6)));
    assert!(actions.is_empty());
    assert_eq!(
        s.server.handshake_state(),
        &ServerHandshakeState::Failure("Invalid event transition: New <- client-hello".to_string())
    );
    assert_eq!(s.permanent_key.public_key(), &key(5));
}
