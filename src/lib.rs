//! Handshake engine of a signaling protocol: nonces, message envelopes and
//! the state machine that decides, for each incoming envelope, the next
//! handshake state and the side effects the caller has to carry out.

pub mod bytes;
pub mod nonce;
pub mod keystore;
pub mod messages;
pub mod boxes;
pub mod protocol;

pub use boxes::{ByteBox, OpenBox};
pub use keystore::{KeyStore, PublicKey};
pub use messages::{ClientAuth, ClientHello, DecodeError, Message, ServerHello};
pub use nonce::{FormatError, Nonce, Receiver, Sender};
pub use protocol::{
    HandleAction, PeerContext, Role, ServerContext, ServerHandshakeState, Signaling,
    StateTransition,
};
