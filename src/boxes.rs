//! Message envelopes: a message with its nonce, and its wire form.

use vstd::prelude::*;
use crate::bytes::push_all;
use crate::messages::{Message, MessageView, DecodeError, parse_message, lemma_message_round_trip};
use crate::nonce::{Nonce, NonceView, FormatError, NONCE_LENGTH, lemma_nonce_round_trip};
use vstd::slice::slice_subrange;

verus! {

/// The wire-level unit: the bytes of a message and the nonce it came with.
#[derive(Clone, Debug, PartialEq, Eq)]
pub struct ByteBox {
    pub bytes: Vec<u8>,
    pub nonce: Nonce,
}

/// The decoded unit: a typed message and its nonce.
#[derive(Clone, Debug, PartialEq, Eq)]
pub struct OpenBox {
    pub message: Message,
    pub nonce: Nonce,
}

impl View for ByteBox {
    type V = (Seq<u8>, NonceView);

    open spec fn view(&self) -> (Seq<u8>, NonceView) {
        (self.bytes@, self.nonce@)
    }
}

impl View for OpenBox {
    type V = (MessageView, NonceView);

    open spec fn view(&self) -> (MessageView, NonceView) {
        (self.message@, self.nonce@)
    }
}

/// The byte envelope that carries a decoded one.
pub open spec fn encode_view(o: (MessageView, NonceView)) -> (Seq<u8>, NonceView) {
    (o.0.to_bytes(), o.1)
}

/// The decoded envelope that a byte envelope carries, or why there is none.
pub open spec fn decode_view(b: (Seq<u8>, NonceView)) -> Result<(MessageView, NonceView), DecodeError> {
    match parse_message(b.0) {
        Ok(m) => Ok((m, b.1)),
        Err(e) => Err(e),
    }
}

/// The transport form of a byte envelope: the nonce, then the message bytes.
pub open spec fn wire_bytes(b: (Seq<u8>, NonceView)) -> Seq<u8> {
    b.1.to_bytes() + b.0
}

impl ByteBox {
    pub fn new(bytes: Vec<u8>, nonce: Nonce) -> (r: ByteBox)
        ensures
            r.bytes == bytes,
            r.nonce == nonce,
    {
        ByteBox { bytes, nonce }
    }

    /// Reads the message in this envelope. Messages exchanged at the start
    /// of the handshake travel unsealed, so the bytes are parsed directly.
    pub fn decode(&self) -> (r: Result<OpenBox, DecodeError>)
        ensures
            match decode_view(self@) {
                Ok(v) => r matches Ok(o) && o@ == v,
                Err(e) => r == Err::<OpenBox, DecodeError>(e),
            },
    {
        match Message::from_bytes(self.bytes.as_slice()) {
            Ok(message) => Ok(OpenBox { message, nonce: self.nonce }),
            Err(e) => Err(e),
        }
    }

    /// Splits a buffer from the transport into its nonce and message bytes.
    pub fn from_slice(b: &[u8]) -> (r: Result<ByteBox, FormatError>)
        ensures
            b@.len() >= NONCE_LENGTH ==> (r matches Ok(bb) && bb.nonce@ == NonceView::from_bytes(
                b@.subrange(0, NONCE_LENGTH as int),
            ) && bb.bytes@ == b@.subrange(NONCE_LENGTH as int, b@.len() as int)),
            b@.len() < NONCE_LENGTH ==> r == Err::<ByteBox, FormatError>(
                FormatError { length: b@.len() as usize },
            ),
    {
        if b.len() < NONCE_LENGTH {
            return Err(FormatError { length: b.len() });
        }
        let head = slice_subrange(b, 0, NONCE_LENGTH);
        let nonce = match Nonce::from_bytes(head) {
            Ok(n) => n,
            Err(e) => {
                return Err(e);
            },
        };
        let mut bytes: Vec<u8> = Vec::new();
        push_all(&mut bytes, slice_subrange(b, NONCE_LENGTH, b.len()));
        Ok(ByteBox { bytes, nonce })
    }

    /// The transport form of this envelope.
    pub fn to_bytes(&self) -> (r: Vec<u8>)
        ensures
            r@ == wire_bytes(self@),
    {
        let mut out = self.nonce.to_bytes();
        push_all(&mut out, self.bytes.as_slice());
        out
    }
}

impl OpenBox {
    pub fn new(message: Message, nonce: Nonce) -> (r: OpenBox)
        ensures
            r.message == message,
            r.nonce == nonce,
    {
        OpenBox { message, nonce }
    }

    /// The byte envelope that carries this message under its nonce.
    pub fn encode(&self) -> (r: ByteBox)
        ensures
            r@ == encode_view(self@),
    {
        ByteBox { bytes: self.message.to_bytes(), nonce: self.nonce }
    }
}

/// Decoding the encoding of an envelope gives that envelope back.
pub proof fn lemma_envelope_round_trip(o: (MessageView, NonceView))
    requires
        o.0.wf(),
    ensures
        decode_view(encode_view(o)) == Ok::<(MessageView, NonceView), DecodeError>(o),
{
    lemma_message_round_trip(o.0);
}

/// Splitting the transport form of an envelope gives its nonce and bytes
/// back.
pub proof fn lemma_wire_round_trip(b: (Seq<u8>, NonceView))
    requires
        b.1.wf(),
    ensures
        wire_bytes(b).len() >= NONCE_LENGTH,
        NonceView::from_bytes(wire_bytes(b).subrange(0, NONCE_LENGTH as int)) == b.1,
        wire_bytes(b).subrange(NONCE_LENGTH as int, wire_bytes(b).len() as int) == b.0,
{
    lemma_nonce_round_trip(b.1);
    let w = wire_bytes(b);
    assert(w.subrange(0, NONCE_LENGTH as int) =~= b.1.to_bytes());
    assert(w.subrange(NONCE_LENGTH as int, w.len() as int) =~= b.0);
}

} // verus!
