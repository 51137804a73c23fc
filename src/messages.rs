//! The handshake messages and their wire format.
//!
//! A message is one tag byte followed by its fields:
//! - server-hello (tag 1): the server's 32-byte public key;
//! - client-hello (tag 2): the client's 32-byte public key;
//! - client-auth (tag 3): the 16-byte echoed cookie, the ping interval as a
//!   big-endian `u32`, the confirmed key as a presence byte (0 or 1) and then
//!   32 bytes if present, the number of subprotocols as a big-endian `u64`,
//!   and each subprotocol as a big-endian `u64` byte length and its UTF-8
//!   bytes.

use vstd::prelude::*;
use vstd::utf8::{valid_utf8, decode_utf8, encode_utf8, encode_utf8_valid_utf8,
    encode_utf8_decode_utf8};
use vstd::slice::{slice_subrange, slice_to_vec};
use crate::bytes::{be32, be64, read_be32, read_be64, push_all, push_be32, push_be64, get_be32,
    get_be64, get_array, lemma_be32_round_trip, lemma_be64_round_trip};
use crate::keystore::PublicKey;

verus! {

pub const TAG_SERVER_HELLO: u8 = 1;

pub const TAG_CLIENT_HELLO: u8 = 2;

pub const TAG_CLIENT_AUTH: u8 = 3;

/// First message of the handshake, sent by the server.
#[derive(Clone, Debug, PartialEq, Eq)]
pub struct ServerHello {
    pub key: PublicKey,
}

/// The client's introduction of its permanent public key.
#[derive(Clone, Debug, PartialEq, Eq)]
pub struct ClientHello {
    pub key: PublicKey,
}

/// The client's authentication towards the server.
#[derive(Clone, Debug, PartialEq, Eq)]
pub struct ClientAuth {
    pub your_cookie: [u8; 16],
    pub subprotocols: Vec<String>,
    pub ping_interval: u32,
    pub your_key: Option<PublicKey>,
}

#[derive(Clone, Debug, PartialEq, Eq)]
pub enum Message {
    ServerHello(ServerHello),
    ClientHello(ClientHello),
    ClientAuth(ClientAuth),
}

/// A message as plain values.
pub enum MessageView {
    ServerHello { key: Seq<u8> },
    ClientHello { key: Seq<u8> },
    ClientAuth {
        your_cookie: Seq<u8>,
        subprotocols: Seq<Seq<char>>,
        ping_interval: u32,
        your_key: Option<Seq<u8>>,
    },
}

/// The character sequences of a list of strings.
pub open spec fn strings_view(ps: Seq<String>) -> Seq<Seq<char>> {
    ps.map_values(|s: String| s@)
}

pub open spec fn key_view(k: Option<PublicKey>) -> Option<Seq<u8>> {
    match k {
        Some(k) => Some(k@),
        None => None,
    }
}

impl View for Message {
    type V = MessageView;

    open spec fn view(&self) -> MessageView {
        match self {
            Message::ServerHello(h) => MessageView::ServerHello { key: h.key@ },
            Message::ClientHello(h) => MessageView::ClientHello { key: h.key@ },
            Message::ClientAuth(a) => MessageView::ClientAuth {
                your_cookie: a.your_cookie@,
                subprotocols: strings_view(a.subprotocols@),
                ping_interval: a.ping_interval,
                your_key: key_view(a.your_key),
            },
        }
    }
}

/// Why a byte buffer is not a message.
#[derive(Clone, Copy, Debug, PartialEq, Eq, Structural)]
pub enum DecodeError {
    /// The buffer is empty.
    Empty,
    /// The tag byte names no known message type.
    UnknownType,
    /// The body does not have the layout of its message type.
    Malformed,
}

impl DecodeError {
    /// The human-readable description of the error.
    pub open spec fn text(self) -> Seq<char> {
        match self {
            DecodeError::Empty => "Empty message"@,
            DecodeError::UnknownType => "Unknown message type"@,
            DecodeError::Malformed => "Malformed message body"@,
        }
    }

    pub fn message(&self) -> (r: String)
        ensures
            r@ == self.text(),
    {
        match self {
            DecodeError::Empty => String::from_str("Empty message"),
            DecodeError::UnknownType => String::from_str("Unknown message type"),
            DecodeError::Malformed => String::from_str("Malformed message body"),
        }
    }
}

impl MessageView {
    /// The wire-type tag that names the message's kind.
    pub open spec fn type_tag(self) -> Seq<char> {
        match self {
            MessageView::ServerHello { .. } => "server-hello"@,
            MessageView::ClientHello { .. } => "client-hello"@,
            MessageView::ClientAuth { .. } => "client-auth"@,
        }
    }

    /// Keys and cookies have their fixed lengths, and every length that the
    /// wire format counts fits its 64-bit field.
    pub open spec fn wf(self) -> bool {
        match self {
            MessageView::ServerHello { key } => key.len() == 32,
            MessageView::ClientHello { key } => key.len() == 32,
            MessageView::ClientAuth { your_cookie, subprotocols, your_key, .. } => {
                &&& your_cookie.len() == 16
                &&& subprotocols.len() <= u64::MAX
                &&& forall|i: int|
                    0 <= i < subprotocols.len() ==> encode_utf8(#[trigger] subprotocols[i]).len()
                        <= u64::MAX
                &&& your_key matches Some(k) ==> k.len() == 32
            },
        }
    }

    /// The wire form of the message.
    pub open spec fn to_bytes(self) -> Seq<u8> {
        match self {
            MessageView::ServerHello { key } => seq![TAG_SERVER_HELLO] + key,
            MessageView::ClientHello { key } => seq![TAG_CLIENT_HELLO] + key,
            MessageView::ClientAuth { your_cookie, subprotocols, ping_interval, your_key } => {
                seq![TAG_CLIENT_AUTH] + your_cookie + be32(ping_interval) + key_bytes(your_key)
                    + be64(subprotocols.len() as u64) + strings_bytes(subprotocols)
            },
        }
    }
}

/// The wire form of an optional key: a presence byte, then the key.
pub open spec fn key_bytes(k: Option<Seq<u8>>) -> Seq<u8> {
    match k {
        Some(k) => seq![1u8] + k,
        None => seq![0u8],
    }
}

/// The wire form of one string: its UTF-8 length, then its UTF-8 bytes.
pub open spec fn string_bytes(s: Seq<char>) -> Seq<u8> {
    be64(encode_utf8(s).len() as u64) + encode_utf8(s)
}

/// The wire forms of the strings, one after the other.
pub open spec fn strings_bytes(ps: Seq<Seq<char>>) -> Seq<u8>
    decreases ps.len(),
{
    if ps.len() == 0 {
        Seq::empty()
    } else {
        string_bytes(ps[0]) + strings_bytes(ps.drop_first())
    }
}

/// Reads exactly `n` strings that fill the whole of `b`.
pub open spec fn parse_strings(b: Seq<u8>, n: nat) -> Option<Seq<Seq<char>>>
    decreases n,
{
    if n == 0 {
        if b.len() == 0 {
            Some(Seq::empty())
        } else {
            None
        }
    } else if b.len() < 8 {
        None
    } else {
        let l = read_be64(b, 0) as int;
        if b.len() - 8 < l {
            None
        } else {
            let s = b.subrange(8, 8 + l);
            if !valid_utf8(s) {
                None
            } else {
                prepend(seq![decode_utf8(s)], parse_strings(b.subrange(8 + l, b.len() as int), (n - 1) as nat))
            }
        }
    }
}

pub open spec fn prepend(a: Seq<Seq<char>>, o: Option<Seq<Seq<char>>>) -> Option<Seq<Seq<char>>> {
    match o {
        Some(r) => Some(a + r),
        None => None,
    }
}

/// Reads the fields of a client-auth message that follow its tag byte.
pub open spec fn parse_client_auth(b: Seq<u8>) -> Result<MessageView, DecodeError> {
    if b.len() < 22 {
        Err(DecodeError::Malformed)
    } else if b[21] != 0 && b[21] != 1 {
        Err(DecodeError::Malformed)
    } else if b[21] == 1 && b.len() < 54 {
        Err(DecodeError::Malformed)
    } else {
        let off: int = if b[21] == 0 { 22 } else { 54 };
        let your_key = if b[21] == 0 { None } else { Some(b.subrange(22, 54)) };
        if b.len() < off + 8 {
            Err(DecodeError::Malformed)
        } else {
            match parse_strings(b.subrange(off + 8, b.len() as int), read_be64(b, off) as nat) {
                Some(ps) => Ok(MessageView::ClientAuth {
                    your_cookie: b.subrange(1, 17),
                    subprotocols: ps,
                    ping_interval: read_be32(b, 17),
                    your_key,
                }),
                None => Err(DecodeError::Malformed),
            }
        }
    }
}

/// The message whose wire form is `b`, or why there is none.
pub open spec fn parse_message(b: Seq<u8>) -> Result<MessageView, DecodeError> {
    if b.len() == 0 {
        Err(DecodeError::Empty)
    } else if b[0] == TAG_SERVER_HELLO || b[0] == TAG_CLIENT_HELLO {
        if b.len() != 33 {
            Err(DecodeError::Malformed)
        } else if b[0] == TAG_SERVER_HELLO {
            Ok(MessageView::ServerHello { key: b.subrange(1, 33) })
        } else {
            Ok(MessageView::ClientHello { key: b.subrange(1, 33) })
        }
    } else if b[0] == TAG_CLIENT_AUTH {
        parse_client_auth(b)
    } else {
        Err(DecodeError::UnknownType)
    }
}

impl ClientHello {
    pub fn new(key: PublicKey) -> (r: ClientHello)
        ensures
            r.key == key,
    {
        ClientHello { key }
    }

    pub fn into_message(self) -> (r: Message)
        ensures
            r == Message::ClientHello(self),
    {
        Message::ClientHello(self)
    }
}

impl ServerHello {
    pub fn new(key: PublicKey) -> (r: ServerHello)
        ensures
            r.key == key,
    {
        ServerHello { key }
    }

    pub fn into_message(self) -> (r: Message)
        ensures
            r == Message::ServerHello(self),
    {
        Message::ServerHello(self)
    }
}

impl ClientAuth {
    pub fn into_message(self) -> (r: Message)
        ensures
            r == Message::ClientAuth(self),
    {
        Message::ClientAuth(self)
    }
}

impl Message {
    /// The wire-type tag of this message.
    pub fn get_type(&self) -> (r: &'static str)
        ensures
            r@ == self@.type_tag(),
    {
        match self {
            Message::ServerHello(_) => "server-hello",
            Message::ClientHello(_) => "client-hello",
            Message::ClientAuth(_) => "client-auth",
        }
    }

    /// The wire form of this message.
    pub fn to_bytes(&self) -> (r: Vec<u8>)
        ensures
            r@ == self@.to_bytes(),
    {
        let mut out: Vec<u8> = Vec::new();
        match self {
            Message::ServerHello(h) => {
                out.push(TAG_SERVER_HELLO);
                push_all(&mut out, h.key.bytes.as_slice());
            },
            Message::ClientHello(h) => {
                out.push(TAG_CLIENT_HELLO);
                push_all(&mut out, h.key.bytes.as_slice());
            },
            Message::ClientAuth(a) => {
                out.push(TAG_CLIENT_AUTH);
                push_all(&mut out, a.your_cookie.as_slice());
                push_be32(&mut out, a.ping_interval);
                match &a.your_key {
                    Some(k) => {
                        out.push(1u8);
                        push_all(&mut out, k.bytes.as_slice());
                    },
                    None => {
                        out.push(0u8);
                    },
                }
                let ghost pre = out@;
                push_be64(&mut out, a.subprotocols.len() as u64);
                push_strings(&mut out, &a.subprotocols);
                assert(pre =~= seq![TAG_CLIENT_AUTH] + a.your_cookie@ + be32(a.ping_interval)
                    + key_bytes(key_view(a.your_key)));
            },
        }
        out
    }

    /// Reads a message from its wire form.
    pub fn from_bytes(b: &[u8]) -> (r: Result<Message, DecodeError>)
        ensures
            match parse_message(b@) {
                Ok(v) => r matches Ok(m) && m@ == v,
                Err(e) => r == Err::<Message, DecodeError>(e),
            },
    {
        if b.len() == 0 {
            return Err(DecodeError::Empty);
        }
        let tag = b[0];
        if tag == TAG_SERVER_HELLO || tag == TAG_CLIENT_HELLO {
            if b.len() != 33 {
                return Err(DecodeError::Malformed);
            }
            let key = PublicKey { bytes: get_array(b, 1) };
            if tag == TAG_SERVER_HELLO {
                Ok(Message::ServerHello(ServerHello { key }))
            } else {
                Ok(Message::ClientHello(ClientHello { key }))
            }
        } else if tag == TAG_CLIENT_AUTH {
            decode_client_auth(b)
        } else {
            Err(DecodeError::UnknownType)
        }
    }
}

/// Appends the wire forms of the strings of `ps`.
fn push_strings(out: &mut Vec<u8>, ps: &Vec<String>)
    ensures
        final(out)@ == old(out)@ + strings_bytes(strings_view(ps@)),
{
    let ghost v = strings_view(ps@);
    let mut i: usize = 0;
    while i < ps.len()
        invariant
            i <= ps@.len(),
            v == strings_view(ps@),
            out@ == old(out)@ + strings_bytes(v.take(i as int)),
        decreases ps@.len() - i,
    {
        let bs = ps[i].as_str().as_bytes();
        push_be64(out, bs.len() as u64);
        push_all(out, bs);
        proof {
            lemma_strings_bytes_push(v.take(i as int), v[i as int]);
            assert(v.take(i + 1) =~= v.take(i as int).push(v[i as int]));
        }
        i = i + 1;
    }
    assert(v.take(ps@.len() as int) =~= v);
}

/// Reads the client-auth fields after the tag byte.
fn decode_client_auth(b: &[u8]) -> (r: Result<Message, DecodeError>)
    requires
        b@.len() > 0,
        b@[0] == TAG_CLIENT_AUTH,
    ensures
        match parse_client_auth(b@) {
            Ok(v) => r matches Ok(m) && m@ == v,
            Err(e) => r == Err::<Message, DecodeError>(e),
        },
{
    if b.len() < 22 {
        return Err(DecodeError::Malformed);
    }
    let flag = b[21];
    let your_key: Option<PublicKey>;
    let off: usize;
    if flag == 0 {
        your_key = None;
        off = 22;
    } else if flag == 1 {
        if b.len() < 54 {
            return Err(DecodeError::Malformed);
        }
        your_key = Some(PublicKey { bytes: get_array(b, 22) });
        off = 54;
    } else {
        return Err(DecodeError::Malformed);
    }
    if b.len() - off < 8 {
        return Err(DecodeError::Malformed);
    }
    let n = get_be64(b, off);
    let tail = slice_subrange(b, off + 8, b.len());
    match decode_strings(tail, n) {
        Some(subprotocols) => {
            let your_cookie: [u8; 16] = get_array(b, 1);
            let ping_interval = get_be32(b, 17);
            Ok(Message::ClientAuth(ClientAuth { your_cookie, subprotocols, ping_interval, your_key }))
        },
        None => Err(DecodeError::Malformed),
    }
}

/// Reads exactly `n` strings that fill the whole of `b`.
fn decode_strings(b: &[u8], n: u64) -> (r: Option<Vec<String>>)
    ensures
        match parse_strings(b@, n as nat) {
            Some(v) => r matches Some(ps) && strings_view(ps@) == v,
            None => r is None,
        },
{
    let mut acc: Vec<String> = Vec::new();
    let mut pos: usize = 0;
    let mut i: u64 = 0;
    let len = b.len();
    proof {
        assert(b@.subrange(0, len as int) =~= b@);
        match parse_strings(b@, n as nat) {
            Some(t) => {
                assert(strings_view(acc@) + t =~= t);
            },
            None => {},
        }
    }
    while i < n
        invariant
            len == b@.len(),
            pos <= len,
            i <= n,
            parse_strings(b@, n as nat) == prepend(
                strings_view(acc@),
                parse_strings(b@.subrange(pos as int, len as int), (n - i) as nat),
            ),
        decreases n - i,
    {
        let ghost sub = b@.subrange(pos as int, len as int);
        let rest = len - pos;
        if rest < 8 {
            return None;
        }
        let l = get_be64(b, pos);
        assert(read_be64(sub, 0) == l);
        if l > (rest - 8) as u64 {
            return None;
        }
        let start = pos + 8;
        let end = start + l as usize;
        let v = slice_to_vec(slice_subrange(b, start, end));
        assert(sub.subrange(8, 8 + l as int) =~= v@);
        assert(sub.subrange(8 + l as int, sub.len() as int) =~= b@.subrange(end as int, len as int));
        match string_from_utf8(v) {
            None => {
                return None;
            },
            Some(s) => {
                proof {
                    let old_acc = strings_view(acc@);
                    let tail = parse_strings(b@.subrange(end as int, len as int), (n - i - 1) as nat);
                    assert(strings_view(acc@.push(s)) =~= old_acc + seq![s@]);
                    match tail {
                        Some(t) => {
                            assert(old_acc + (seq![s@] + t) =~= (old_acc + seq![s@]) + t);
                        },
                        None => {},
                    }
                }
                acc.push(s);
            },
        }
        pos = end;
        i = i + 1;
    }
    if pos != len {
        return None;
    }
    assert(strings_view(acc@) + Seq::<Seq<char>>::empty() =~= strings_view(acc@));
    Some(acc)
}

/// Appending a string to a list appends its wire form to the list's.
pub proof fn lemma_strings_bytes_push(ps: Seq<Seq<char>>, s: Seq<char>)
    ensures
        strings_bytes(ps.push(s)) == strings_bytes(ps) + string_bytes(s),
    decreases ps.len(),
{
    if ps.len() == 0 {
        assert(ps.push(s).drop_first() =~= Seq::<Seq<char>>::empty());
        assert(strings_bytes(ps.push(s).drop_first()) == Seq::<u8>::empty());
        assert(ps.push(s)[0] == s);
        assert(strings_bytes(ps.push(s)) =~= string_bytes(s));
        assert(strings_bytes(ps) == Seq::<u8>::empty());
    } else {
        assert(ps.push(s).drop_first() =~= ps.drop_first().push(s));
        lemma_strings_bytes_push(ps.drop_first(), s);
        assert(strings_bytes(ps.push(s)) =~= strings_bytes(ps) + string_bytes(s));
    }
}

/// Reading the wire forms of a list of strings gives the list back.
pub proof fn lemma_strings_round_trip(ps: Seq<Seq<char>>)
    requires
        forall|i: int| 0 <= i < ps.len() ==> encode_utf8(#[trigger] ps[i]).len() <= u64::MAX,
    ensures
        parse_strings(strings_bytes(ps), ps.len()) == Some(ps),
    decreases ps.len(),
{
    if ps.len() > 0 {
        let e = encode_utf8(ps[0]);
        let rest = strings_bytes(ps.drop_first());
        let b = strings_bytes(ps);
        assert(b == be64(e.len() as u64) + e + rest);
        lemma_be64_round_trip(e.len() as u64, Seq::empty(), e + rest);
        assert(Seq::<u8>::empty() + be64(e.len() as u64) + (e + rest) =~= b);
        assert(read_be64(b, 0) as int == e.len());
        assert(b.subrange(8, 8 + e.len() as int) =~= e);
        assert(b.subrange(8 + e.len() as int, b.len() as int) =~= rest);
        encode_utf8_valid_utf8(ps[0]);
        encode_utf8_decode_utf8(ps[0]);
        assert forall|i: int| 0 <= i < ps.drop_first().len() implies encode_utf8(
            #[trigger] ps.drop_first()[i],
        ).len() <= u64::MAX by {
            assert(ps.drop_first()[i] == ps[i + 1]);
        }
        lemma_strings_round_trip(ps.drop_first());
        assert(seq![ps[0]] + ps.drop_first() =~= ps);
    }
}

/// Reading the wire form of a well-formed message gives that message back.
pub proof fn lemma_message_round_trip(m: MessageView)
    requires
        m.wf(),
    ensures
        parse_message(m.to_bytes()) == Ok::<MessageView, DecodeError>(m),
{
    let b = m.to_bytes();
    match m {
        MessageView::ServerHello { key } => {
            assert(b.subrange(1, 33) =~= key);
        },
        MessageView::ClientHello { key } => {
            assert(b.subrange(1, 33) =~= key);
        },
        MessageView::ClientAuth { your_cookie, subprotocols, ping_interval, your_key } => {
            let head = seq![TAG_CLIENT_AUTH] + your_cookie;
            let kb = key_bytes(your_key);
            let n = subprotocols.len() as u64;
            let sb = strings_bytes(subprotocols);
            assert(b =~= head + be32(ping_interval) + (kb + be64(n) + sb));
            lemma_be32_round_trip(ping_interval, head, kb + be64(n) + sb);
            assert(b.subrange(1, 17) =~= your_cookie);
            let off: int = head.len() + 4 + kb.len() as int;
            assert(b[21] == kb[0]);
            assert(b =~= (head + be32(ping_interval) + kb) + be64(n) + sb);
            lemma_be64_round_trip(n, head + be32(ping_interval) + kb, sb);
            assert(read_be64(b, off) == n);
            assert(b.subrange(off + 8, b.len() as int) =~= sb);
            lemma_strings_round_trip(subprotocols);
            match your_key {
                Some(k) => {
                    assert(b.subrange(22, 54) =~= k);
                },
                None => {},
            }
        },
    }
}

/// Relies on `String::from_utf8`: it succeeds exactly on well-formed UTF-8,
/// and the string then holds the characters that the bytes encode.
#[verifier::external_body]
fn string_from_utf8(v: Vec<u8>) -> (r: Option<String>)
    ensures
        r is Some <==> valid_utf8(v@),
        r matches Some(s) ==> s@ == decode_utf8(v@),
{
    String::from_utf8(v).ok()
}

} // verus!
