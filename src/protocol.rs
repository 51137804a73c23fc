//! Protocol state machines.
//!
//! The state machine decides every state transition independently of the
//! connection. Instead of executing side effects (like sending a response
//! to the peer), it returns `HandleAction` values for the caller to carry
//! out, in order.

use vstd::prelude::*;
use crate::boxes::{ByteBox, OpenBox, encode_view, decode_view, lemma_envelope_round_trip};
use crate::keystore::{KeyStore, PublicKey};
use crate::messages::{Message, MessageView, ClientHello, ClientAuth, DecodeError, strings_view,
    parse_message};
use vstd::utf8::{is_ascii_chars, is_ascii_chars_encode_utf8, encode_utf8};
use crate::nonce::{Nonce, NonceView, Sender, Receiver};

verus! {

/// Which side of the eventual peer-to-peer session the local party plays.
#[derive(Clone, Copy, Debug, PartialEq, Eq, Structural)]
pub enum Role {
    Initiator,
    Responder,
}

/// A side effect that the caller has to carry out.
#[derive(Clone, Debug, PartialEq, Eq)]
pub enum HandleAction {
    /// Send this envelope to the peer.
    Reply(ByteBox),
    /// Record the server's public key.
    SetServerKey(PublicKey),
    /// Nothing to do.
    Nothing,
}

/// The handshake with the server.
#[derive(Clone, Debug, PartialEq, Eq)]
pub enum ServerHandshakeState {
    New,
    ClientInfoSent,
    /// Terminal: the handshake failed for the given reason.
    Failure(String),
}

/// A state together with the actions that lead into it.
#[derive(Clone, Debug, PartialEq, Eq)]
pub struct StateTransition<S> {
    pub state: S,
    pub actions: Vec<HandleAction>,
}

pub enum ActionView {
    Reply((Seq<u8>, NonceView)),
    SetServerKey(Seq<u8>),
    Nothing,
}

pub enum StateView {
    New,
    ClientInfoSent,
    Failure(Seq<char>),
}

impl View for HandleAction {
    type V = ActionView;

    open spec fn view(&self) -> ActionView {
        match self {
            HandleAction::Reply(b) => ActionView::Reply(b@),
            HandleAction::SetServerKey(k) => ActionView::SetServerKey(k@),
            HandleAction::Nothing => ActionView::Nothing,
        }
    }
}

impl View for ServerHandshakeState {
    type V = StateView;

    open spec fn view(&self) -> StateView {
        match self {
            ServerHandshakeState::New => StateView::New,
            ServerHandshakeState::ClientInfoSent => StateView::ClientInfoSent,
            ServerHandshakeState::Failure(r) => StateView::Failure(r@),
        }
    }
}

pub open spec fn actions_view(a: Seq<HandleAction>) -> Seq<ActionView> {
    a.map_values(|x: HandleAction| x@)
}

impl View for StateTransition<ServerHandshakeState> {
    type V = (StateView, Seq<ActionView>);

    open spec fn view(&self) -> (StateView, Seq<ActionView>) {
        (self.state@, actions_view(self.actions@))
    }
}

/// The name of a state, as failure reasons spell it.
pub open spec fn state_name(s: StateView) -> Seq<char> {
    match s {
        StateView::New => "New"@,
        StateView::ClientInfoSent => "ClientInfoSent"@,
        StateView::Failure(_) => "Failure"@,
    }
}

/// The failure reason for a message that the state has no rule for.
pub open spec fn invalid_transition_reason(s: StateView, m: MessageView) -> Seq<char> {
    "Invalid event transition: "@ + state_name(s) + " <- "@ + m.type_tag()
}

/// The failure reason for a state whose rules are not defined yet.
pub open spec fn not_implemented_reason() -> Seq<char> {
    "Not yet implemented"@
}

pub open spec fn zero_cookie() -> Seq<u8> {
    Seq::new(16, |i: int| 0u8)
}

/// The nonce of the outgoing client-hello.
pub open spec fn client_hello_nonce() -> NonceView {
    NonceView { cookie: zero_cookie(), source: 0, destination: 0, overflow: 0, sequence: 123 }
}

/// The nonce of the outgoing client-auth.
pub open spec fn client_auth_nonce() -> NonceView {
    NonceView { cookie: zero_cookie(), source: 0, destination: 0, overflow: 0, sequence: 124 }
}

/// The client-auth sent in reply to the server-hello. Cookie, subprotocols,
/// ping interval and confirmed key are fixed until cookie exchange and
/// subprotocol negotiation are in place.
pub open spec fn client_auth_reply() -> MessageView {
    MessageView::ClientAuth {
        your_cookie: zero_cookie(),
        subprotocols: seq!["vX.saltyrtc.org"@],
        ping_interval: 0,
        your_key: None,
    }
}

/// The next state and actions for a decoded message in state `s`, where
/// `own_key` is the local permanent public key.
pub open spec fn on_message(s: StateView, m: MessageView, own_key: Seq<u8>) -> (
    StateView,
    Seq<ActionView>,
) {
    match (s, m) {
        (StateView::New, MessageView::ServerHello { key }) => (
            StateView::ClientInfoSent,
            seq![
                ActionView::SetServerKey(key),
                ActionView::Reply(
                    encode_view((MessageView::ClientHello { key: own_key }, client_hello_nonce())),
                ),
                ActionView::Reply(encode_view((client_auth_reply(), client_auth_nonce()))),
            ],
        ),
        (StateView::Failure(r), _) => (StateView::Failure(r), Seq::empty()),
        (s, m) => (StateView::Failure(invalid_transition_reason(s, m)), Seq::empty()),
    }
}

/// The next state and actions for an incoming byte envelope in state `s`.
/// Only in state `New` is the envelope decoded; a failed handshake stays
/// failed without looking at it.
pub open spec fn next_state(s: StateView, b: (Seq<u8>, NonceView), own_key: Seq<u8>) -> (
    StateView,
    Seq<ActionView>,
) {
    match s {
        StateView::Failure(r) => (StateView::Failure(r), Seq::empty()),
        StateView::New => match decode_view(b) {
            Ok(o) => on_message(s, o.0, own_key),
            Err(e) => (StateView::Failure(e.text()), Seq::empty()),
        },
        _ => (StateView::Failure(not_implemented_reason()), Seq::empty()),
    }
}

impl ServerHandshakeState {
    /// The name of the state.
    pub fn name(&self) -> (r: &'static str)
        ensures
            r@ == state_name(self@),
    {
        match self {
            ServerHandshakeState::New => "New",
            ServerHandshakeState::ClientInfoSent => "ClientInfoSent",
            ServerHandshakeState::Failure(_) => "Failure",
        }
    }
}

impl StateTransition<ServerHandshakeState> {
    pub fn new(state: ServerHandshakeState, actions: Vec<HandleAction>) -> (r: Self)
        ensures
            r.state == state,
            r.actions == actions,
    {
        StateTransition { state, actions }
    }

    /// The transition into `state` with no actions.
    pub fn to_state(state: ServerHandshakeState) -> (r: Self)
        ensures
            r.state == state,
            r.actions@.len() == 0,
    {
        StateTransition { state, actions: Vec::new() }
    }
}

impl From<ServerHandshakeState> for StateTransition<ServerHandshakeState> {
    fn from(state: ServerHandshakeState) -> Self {
        StateTransition::to_state(state)
    }
}

impl vstd::std_specs::convert::FromSpecImpl<ServerHandshakeState> for StateTransition<ServerHandshakeState> {
    open spec fn obeys_from_spec() -> bool {
        false
    }

    open spec fn from_spec(v: ServerHandshakeState) -> Self {
        arbitrary()
    }
}

impl From<(ServerHandshakeState, HandleAction)> for StateTransition<ServerHandshakeState> {
    fn from(t: (ServerHandshakeState, HandleAction)) -> Self {
        let mut actions: Vec<HandleAction> = Vec::new();
        actions.push(t.1);
        StateTransition { state: t.0, actions }
    }
}

impl vstd::std_specs::convert::FromSpecImpl<(ServerHandshakeState, HandleAction)> for StateTransition<ServerHandshakeState> {
    open spec fn obeys_from_spec() -> bool {
        false
    }

    open spec fn from_spec(v: (ServerHandshakeState, HandleAction)) -> Self {
        arbitrary()
    }
}

impl From<(ServerHandshakeState, Vec<HandleAction>)> for StateTransition<ServerHandshakeState> {
    fn from(t: (ServerHandshakeState, Vec<HandleAction>)) -> Self {
        StateTransition { state: t.0, actions: t.1 }
    }
}

impl vstd::std_specs::convert::FromSpecImpl<(ServerHandshakeState, Vec<HandleAction>)> for StateTransition<ServerHandshakeState> {
    open spec fn obeys_from_spec() -> bool {
        false
    }

    open spec fn from_spec(v: (ServerHandshakeState, Vec<HandleAction>)) -> Self {
        arbitrary()
    }
}

fn failure(reason: String) -> (r: StateTransition<ServerHandshakeState>)
    ensures
        r@ == (StateView::Failure(reason@), Seq::<ActionView>::empty()),
{
    let r = StateTransition::to_state(ServerHandshakeState::Failure(reason));
    assert(actions_view(r.actions@) =~= Seq::<ActionView>::empty());
    r
}

fn zero_cookie_array() -> (r: [u8; 16])
    ensures
        r@ == zero_cookie(),
{
    let r = [0u8; 16];
    assert(r@ =~= zero_cookie());
    r
}

/// Decides the next state and actions for a decoded message in `state`.
pub fn transition_on_message(
    state: &ServerHandshakeState,
    message: Message,
    own_key: &PublicKey,
) -> (r: StateTransition<ServerHandshakeState>)
    ensures
        r@ == on_message(state@, message@, own_key@),
{
    match (state, message) {
        (ServerHandshakeState::New, Message::ServerHello(msg)) => {
            let mut actions: Vec<HandleAction> = Vec::with_capacity(3);
            actions.push(HandleAction::SetServerKey(msg.key));

            // Reply with a client-hello carrying the local permanent key.
            let client_hello = ClientHello::new(*own_key).into_message();
            let hello_nonce = Nonce::new(
                zero_cookie_array(),
                Sender::new(0),
                Receiver::new(0),
                0,
                123,
            );
            let reply = OpenBox::new(client_hello, hello_nonce);
            actions.push(HandleAction::Reply(reply.encode()));

            // Follow with the client-auth.
            let mut subprotocols: Vec<String> = Vec::new();
            subprotocols.push(String::from_str("vX.saltyrtc.org"));
            assert(strings_view(subprotocols@) =~= seq!["vX.saltyrtc.org"@]);
            let client_auth = ClientAuth {
                your_cookie: zero_cookie_array(),
                subprotocols,
                ping_interval: 0,
                your_key: None,
            }.into_message();
            let auth_nonce = Nonce::new(
                zero_cookie_array(),
                Sender::new(0),
                Receiver::new(0),
                0,
                124,
            );
            let reply = OpenBox::new(client_auth, auth_nonce);
            actions.push(HandleAction::Reply(reply.encode()));

            assert(client_auth@ == client_auth_reply());
            assert(auth_nonce@ == client_auth_nonce());
            assert(hello_nonce@ == client_hello_nonce());
            let r = StateTransition { state: ServerHandshakeState::ClientInfoSent, actions };
            assert(r@.1 =~= on_message(state@, message@, own_key@).1);
            r
        },
        (ServerHandshakeState::Failure(reason), _) => failure(reason.clone()),
        (s, message) => {
            let mut reason = String::from_str("Invalid event transition: ");
            reason.append(s.name());
            reason.append(" <- ");
            reason.append(message.get_type());
            failure(reason)
        },
    }
}

/// Decides the next state and actions for an incoming envelope in `state`.
pub fn transition(state: &ServerHandshakeState, bbox: &ByteBox, own_key: &PublicKey) -> (r:
    StateTransition<ServerHandshakeState>)
    ensures
        r@ == next_state(state@, bbox@, own_key@),
{
    match state {
        // The first message from the server is not sealed.
        ServerHandshakeState::New => match bbox.decode() {
            Ok(obox) => transition_on_message(state, obox.message, own_key),
            Err(e) => failure(e.message()),
        },
        // A failed handshake stays failed.
        ServerHandshakeState::Failure(reason) => failure(reason.clone()),
        _ => failure(String::from_str("Not yet implemented")),
    }
}

/// What the local party knows of one counterparty.
pub trait PeerContext {
    spec fn spec_address(&self) -> Receiver;

    spec fn spec_permanent_key(&self) -> Option<PublicKey>;

    spec fn spec_session_key(&self) -> Option<PublicKey>;

    fn address(&self) -> (r: Receiver)
        ensures
            r == self.spec_address(),
    ;

    fn permanent_key(&self) -> (r: Option<&PublicKey>)
        ensures
            r is Some <==> self.spec_permanent_key() is Some,
            r matches Some(k) ==> *k == self.spec_permanent_key()->0,
    ;

    fn session_key(&self) -> (r: Option<&PublicKey>)
        ensures
            r is Some <==> self.spec_session_key() is Some,
            r matches Some(k) ==> *k == self.spec_session_key()->0,
    ;
}

/// The relay server as a counterparty, with the state of the handshake with
/// it.
#[derive(Debug)]
pub struct ServerContext {
    handshake_state: ServerHandshakeState,
    permanent_key: Option<PublicKey>,
    session_key: Option<PublicKey>,
}

impl ServerContext {
    pub closed spec fn spec_handshake_state(&self) -> ServerHandshakeState {
        self.handshake_state
    }

    pub fn new() -> (r: ServerContext)
        ensures
            r.spec_handshake_state() == ServerHandshakeState::New,
            r.spec_address().id == 0,
            r.spec_permanent_key() is None,
            r.spec_session_key() is None,
    {
        ServerContext {
            handshake_state: ServerHandshakeState::New,
            permanent_key: None,
            session_key: None,
        }
    }

    pub fn handshake_state(&self) -> (r: &ServerHandshakeState)
        ensures
            *r == self.spec_handshake_state(),
    {
        &self.handshake_state
    }
}

impl PeerContext for ServerContext {
    open spec fn spec_address(&self) -> Receiver {
        Receiver { id: 0 }
    }

    closed spec fn spec_permanent_key(&self) -> Option<PublicKey> {
        self.permanent_key
    }

    closed spec fn spec_session_key(&self) -> Option<PublicKey> {
        self.session_key
    }

    fn address(&self) -> (r: Receiver) {
        Receiver::server()
    }

    fn permanent_key(&self) -> (r: Option<&PublicKey>) {
        self.permanent_key.as_ref()
    }

    fn session_key(&self) -> (r: Option<&PublicKey>) {
        self.session_key.as_ref()
    }
}

/// All signaling state of one connection.
#[derive(Debug)]
pub struct Signaling {
    pub role: Role,
    pub server: ServerContext,
    pub permanent_key: KeyStore,
}

impl Signaling {
    pub fn new(role: Role, permanent_key: KeyStore) -> (r: Signaling)
        ensures
            r.role == role,
            r.permanent_key == permanent_key,
            r.server.spec_handshake_state() == ServerHandshakeState::New,
            r.server.spec_permanent_key() is None,
            r.server.spec_session_key() is None,
    {
        Signaling { role, server: ServerContext::new(), permanent_key }
    }

    /// Handles an incoming envelope: stores the next handshake state and
    /// returns the actions that the caller has to carry out, in order.
    pub fn handle_message(&mut self, bbox: ByteBox) -> (r: Vec<HandleAction>)
        ensures
            final(self).server.spec_handshake_state()@ == next_state(
                old(self).server.spec_handshake_state()@,
                bbox@,
                old(self).permanent_key.spec_public_key()@,
            ).0,
            actions_view(r@) == next_state(
                old(self).server.spec_handshake_state()@,
                bbox@,
                old(self).permanent_key.spec_public_key()@,
            ).1,
            final(self).role == old(self).role,
            final(self).permanent_key == old(self).permanent_key,
            final(self).server.spec_permanent_key() == old(self).server.spec_permanent_key(),
            final(self).server.spec_session_key() == old(self).server.spec_session_key(),
    {
        let t = self.next_state(&bbox);
        self.server.handshake_state = t.state;
        t.actions
    }

    /// The transition for `bbox` from the current (unchanged) state.
    fn next_state(&self, bbox: &ByteBox) -> (r: StateTransition<ServerHandshakeState>)
        ensures
            r@ == next_state(
                self.server.spec_handshake_state()@,
                bbox@,
                self.permanent_key.spec_public_key()@,
            ),
    {
        transition(&self.server.handshake_state, bbox, self.permanent_key.public_key())
    }
}

/// A failed handshake absorbs every input: the state keeps its reason and no
/// action is emitted, whatever arrives.
pub proof fn lemma_failure_absorbs(reason: Seq<char>, b: (Seq<u8>, NonceView), m: MessageView, own_key: Seq<u8>)
    ensures
        next_state(StateView::Failure(reason), b, own_key) == (
            StateView::Failure(reason),
            Seq::<ActionView>::empty(),
        ),
        on_message(StateView::Failure(reason), m, own_key) == (
            StateView::Failure(reason),
            Seq::<ActionView>::empty(),
        ),
{
}

/// The client-auth reply is a well-formed message.
pub proof fn lemma_client_auth_reply_wf()
    ensures
        client_auth_reply().wf(),
{
    reveal_strlit("vX.saltyrtc.org");
    let p = "vX.saltyrtc.org"@;
    assert(is_ascii_chars(p));
    is_ascii_chars_encode_utf8(p);
    let ps = seq![p];
    assert forall|i: int| 0 <= i < ps.len() implies encode_utf8(#[trigger] ps[i]).len()
        <= u64::MAX by {
        assert(ps[i] == p);
    }
}

/// A server-hello in state `New` leads to `ClientInfoSent` with three
/// actions in order: record the server's key, send a client-hello that
/// decodes to the local key, and send a client-auth.
pub proof fn lemma_happy_path(key: Seq<u8>, n: NonceView, own_key: Seq<u8>)
    requires
        key.len() == 32,
        own_key.len() == 32,
    ensures
        ({
            let t = next_state(
                StateView::New,
                encode_view((MessageView::ServerHello { key }, n)),
                own_key,
            );
            &&& t.0 == StateView::ClientInfoSent
            &&& t.1.len() == 3
            &&& t.1[0] == ActionView::SetServerKey(key)
            &&& t.1[1] matches ActionView::Reply(b1) && decode_view(b1) == Ok::<
                (MessageView, NonceView),
                DecodeError,
            >((MessageView::ClientHello { key: own_key }, client_hello_nonce()))
            &&& t.1[2] matches ActionView::Reply(b2) && decode_view(b2) == Ok::<
                (MessageView, NonceView),
                DecodeError,
            >((client_auth_reply(), client_auth_nonce()))
        }),
{
    lemma_envelope_round_trip((MessageView::ServerHello { key }, n));
    lemma_envelope_round_trip((MessageView::ClientHello { key: own_key }, client_hello_nonce()));
    lemma_client_auth_reply_wf();
    lemma_envelope_round_trip((client_auth_reply(), client_auth_nonce()));
}

/// A client-hello in state `New` fails the handshake with a reason that
/// names the state and the message's wire-type tag, and emits nothing.
pub proof fn lemma_invalid_transition_named(key: Seq<u8>, n: NonceView, own_key: Seq<u8>)
    requires
        key.len() == 32,
    ensures
        next_state(StateView::New, encode_view((MessageView::ClientHello { key }, n)), own_key)
            == (
            StateView::Failure("Invalid event transition: "@ + "New"@ + " <- "@ + "client-hello"@),
            Seq::<ActionView>::empty(),
        ),
{
    lemma_envelope_round_trip((MessageView::ClientHello { key }, n));
}

/// An envelope that does not decode fails a new handshake with the decode
/// error's text, and emits nothing.
pub proof fn lemma_decode_failure_at_new(b: (Seq<u8>, NonceView), own_key: Seq<u8>)
    requires
        parse_message(b.0) is Err,
    ensures
        next_state(StateView::New, b, own_key) == (
            StateView::Failure(parse_message(b.0)->Err_0.text()),
            Seq::<ActionView>::empty(),
        ),
{
}

/// Two transitions from the same state on the same envelope and key agree:
/// the outcome depends on these inputs alone.
pub proof fn lemma_transition_deterministic(
    s: StateView,
    b: (Seq<u8>, NonceView),
    own_key: Seq<u8>,
    r1: (StateView, Seq<ActionView>),
    r2: (StateView, Seq<ActionView>),
)
    requires
        r1 == next_state(s, b, own_key),
        r2 == next_state(s, b, own_key),
    ensures
        r1 == r2,
{
}

} // verus!
