//! The 24-byte nonce that orders messages and protects against replay.

use vstd::prelude::*;
use crate::bytes::{be16, be32, read_be16, read_be32, push_all, push_be16, push_be32, get_be16,
    get_be32, get_array, lemma_be16_round_trip, lemma_be32_round_trip};

verus! {

/// Length of an encoded nonce in bytes.
pub const NONCE_LENGTH: usize = 24;

/// Address of the party that sent a message.
#[derive(Clone, Copy, Debug, PartialEq, Eq)]
pub struct Sender {
    pub id: u8,
}

impl Sender {
    pub fn new(id: u8) -> (r: Sender)
        ensures
            r.id == id,
    {
        Sender { id }
    }
}

/// Address of the party a message is meant for.
#[derive(Clone, Copy, Debug, PartialEq, Eq)]
pub struct Receiver {
    pub id: u8,
}

impl Receiver {
    pub fn new(id: u8) -> (r: Receiver)
        ensures
            r.id == id,
    {
        Receiver { id }
    }

    /// The reserved address of the relay server.
    pub fn server() -> (r: Receiver)
        ensures
            r.id == 0,
    {
        Receiver { id: 0 }
    }
}

/// Cookie, source, destination, overflow number and sequence number.
#[derive(Clone, Copy, Debug, PartialEq, Eq)]
pub struct Nonce {
    pub cookie: [u8; 16],
    pub source: Sender,
    pub destination: Receiver,
    pub overflow: u16,
    pub sequence: u32,
}

/// The fields of a nonce as plain values.
pub struct NonceView {
    pub cookie: Seq<u8>,
    pub source: u8,
    pub destination: u8,
    pub overflow: u16,
    pub sequence: u32,
}

impl View for Nonce {
    type V = NonceView;

    open spec fn view(&self) -> NonceView {
        NonceView {
            cookie: self.cookie@,
            source: self.source.id,
            destination: self.destination.id,
            overflow: self.overflow,
            sequence: self.sequence,
        }
    }
}

impl NonceView {
    /// A view that some nonce has: its cookie holds 16 bytes.
    pub open spec fn wf(self) -> bool {
        self.cookie.len() == 16
    }

    /// The wire layout: cookie | source | destination | overflow | sequence.
    pub open spec fn to_bytes(self) -> Seq<u8> {
        self.cookie + seq![self.source, self.destination] + be16(self.overflow) + be32(
            self.sequence,
        )
    }

    /// The nonce whose wire layout is the 24 bytes `b`.
    pub open spec fn from_bytes(b: Seq<u8>) -> NonceView {
        NonceView {
            cookie: b.subrange(0, 16),
            source: b[16],
            destination: b[17],
            overflow: read_be16(b, 18),
            sequence: read_be32(b, 20),
        }
    }
}

/// A byte buffer that does not have the length of a nonce.
#[derive(Clone, Copy, Debug, PartialEq, Eq)]
pub struct FormatError {
    /// Length of the rejected buffer.
    pub length: usize,
}

impl Nonce {
    pub fn new(cookie: [u8; 16], source: Sender, destination: Receiver, overflow: u16, sequence: u32) -> (r: Nonce)
        ensures
            r.cookie == cookie,
            r.source == source,
            r.destination == destination,
            r.overflow == overflow,
            r.sequence == sequence,
    {
        Nonce { cookie, source, destination, overflow, sequence }
    }

    /// The 24-byte wire form of this nonce.
    pub fn to_bytes(&self) -> (r: Vec<u8>)
        ensures
            r@ == self@.to_bytes(),
            r@.len() == NONCE_LENGTH,
    {
        let mut out: Vec<u8> = Vec::with_capacity(NONCE_LENGTH);
        push_all(&mut out, self.cookie.as_slice());
        out.push(self.source.id);
        out.push(self.destination.id);
        push_be16(&mut out, self.overflow);
        push_be32(&mut out, self.sequence);
        assert(out@ =~= self@.to_bytes());
        out
    }

    /// Reads a nonce from its wire form; any length but 24 is refused.
    pub fn from_bytes(b: &[u8]) -> (r: Result<Nonce, FormatError>)
        ensures
            b@.len() == NONCE_LENGTH ==> (r matches Ok(n) && n@ == NonceView::from_bytes(b@)),
            b@.len() != NONCE_LENGTH ==> r == Err::<Nonce, FormatError>(
                FormatError { length: b@.len() as usize },
            ),
    {
        if b.len() != NONCE_LENGTH {
            return Err(FormatError { length: b.len() });
        }
        let cookie: [u8; 16] = get_array(b, 0);
        let n = Nonce {
            cookie,
            source: Sender { id: b[16] },
            destination: Receiver { id: b[17] },
            overflow: get_be16(b, 18),
            sequence: get_be32(b, 20),
        };
        Ok(n)
    }
}

/// Reading the wire form of a nonce gives that nonce back.
pub proof fn lemma_nonce_round_trip(n: NonceView)
    requires
        n.wf(),
    ensures
        n.to_bytes().len() == NONCE_LENGTH,
        NonceView::from_bytes(n.to_bytes()) == n,
{
    let b = n.to_bytes();
    let pre = n.cookie + seq![n.source, n.destination];
    lemma_be16_round_trip(n.overflow, pre, be32(n.sequence));
    assert(b == pre + be16(n.overflow) + be32(n.sequence));
    lemma_be32_round_trip(n.sequence, pre + be16(n.overflow), Seq::empty());
    assert(b == pre + be16(n.overflow) + be32(n.sequence) + Seq::<u8>::empty());
    assert(b.subrange(0, 16) =~= n.cookie);
}

/// Encoding the nonce read from a 24-byte buffer gives that buffer back.
pub proof fn lemma_nonce_bytes_round_trip(b: Seq<u8>)
    requires
        b.len() == NONCE_LENGTH,
    ensures
        NonceView::from_bytes(b).to_bytes() == b,
        NonceView::from_bytes(b).wf(),
{
    let (b18, b19, b20, b21, b22, b23) = (b[18], b[19], b[20], b[21], b[22], b[23]);
    let o = ((b18 as u16) << 8u16) | (b19 as u16);
    assert(((o >> 8u16) as u8) == b18 && (o as u8) == b19) by (bit_vector)
        requires
            o == ((b18 as u16) << 8u16) | (b19 as u16),
    ;
    let q = ((b20 as u32) << 24u32) | ((b21 as u32) << 16u32) | ((b22 as u32) << 8u32) | (
    b23 as u32);
    assert(((q >> 24u32) as u8) == b20 && ((q >> 16u32) as u8) == b21 && ((q >> 8u32) as u8)
        == b22 && (q as u8) == b23) by (bit_vector)
        requires
            q == ((b20 as u32) << 24u32) | ((b21 as u32) << 16u32) | ((b22 as u32) << 8u32) | (
            b23 as u32),
    ;
    assert(NonceView::from_bytes(b).to_bytes() =~= b);
}

} // verus!
