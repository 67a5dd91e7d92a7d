//! Protocol detection for the connection multiplexer: the first bytes of a
//! connection decide which handler serves it.
use std::collections::HashMap;

use vstd::prelude::*;
use vstd::string::StringSliceAdditionalSpecFns;

verus! {

/// The protocols that the multiplexer tells apart.
#[derive(Debug, Clone, Copy, PartialEq, Eq, Hash, Structural)]
pub enum ProtocolKind {
    /// Plain HTTP: REST, SSE, streamable HTTP.
    Http,
    /// The streamable-HTTP transport of rmcp.
    RmcpStreamableHttp,
    /// The SSE transport of rmcp.
    RmcpSse,
    /// Any other binary protocol.
    CustomBinary,
}

/// `p` is a prefix of `s`.
pub open spec fn bytes_prefix(s: Seq<u8>, p: Seq<u8>) -> bool {
    p.len() <= s.len() && s.subrange(0, p.len() as int) == p
}

/// The protocol that the first bytes of a connection announce.
pub open spec fn protocol_of(buf: Seq<u8>) -> ProtocolKind {
    if bytes_prefix(buf, "GET "@.map_values(|c: char| c as u8)) || bytes_prefix(
        buf,
        "POST "@.map_values(|c: char| c as u8),
    ) || bytes_prefix(buf, "HTTP/"@.map_values(|c: char| c as u8)) {
        ProtocolKind::Http
    } else if bytes_prefix(buf, "RMCP-STREAM"@.map_values(|c: char| c as u8)) {
        ProtocolKind::RmcpStreamableHttp
    } else if bytes_prefix(buf, "RMCP-SSE"@.map_values(|c: char| c as u8)) {
        ProtocolKind::RmcpSse
    } else {
        ProtocolKind::CustomBinary
    }
}

/// Whether `p` is a prefix of `s`.
fn starts_with_bytes(s: &[u8], p: &[u8]) -> (b: bool)
    ensures
        b == bytes_prefix(s@, p@),
{
    if p.len() > s.len() {
        return false;
    }
    let mut i: usize = 0;
    while i < p.len()
        invariant
            i <= p@.len() <= s@.len(),
            forall|k: int| 0 <= k < i ==> s@[k] == p@[k],
        decreases p.len() - i,
    {
        if s[i] != p[i] {
            assert(s@.subrange(0, p@.len() as int)[i as int] != p@[i as int]);
            return false;
        }
        i = i + 1;
    }
    assert(s@.subrange(0, p@.len() as int) =~= p@);
    true
}

/// The ASCII bytes of a text.
fn ascii_bytes(s: &str) -> (r: Vec<u8>)
    requires
        s.is_ascii(),
    ensures
        r@ == s@.map_values(|c: char| c as u8),
{
    broadcast use vstd::string::is_ascii_spec_bytes;
    let b = s.as_bytes();
    let mut r: Vec<u8> = Vec::new();
    let mut i: usize = 0;
    while i < b.len()
        invariant
            i <= b@.len(),
            b@ == s.spec_bytes(),
            s.spec_bytes() =~= Seq::new(s@.len(), |j| s@.index(j) as u8),
            r@ == b@.take(i as int),
        decreases b.len() - i,
    {
        r.push(b[i]);
        proof {
            assert(b@.take(i + 1) =~= b@.take(i as int).push(b@[i as int]));
        }
        i = i + 1;
    }
    proof {
        assert(b@.take(b@.len() as int) =~= b@);
        assert(r@ =~= s@.map_values(|c: char| c as u8));
    }
    r
}

/// The protocol that the first bytes of a connection announce: HTTP for
/// `GET `, `POST ` or `HTTP/`, rmcp streamable HTTP for `RMCP-STREAM`, rmcp SSE
/// for `RMCP-SSE`, and a custom binary protocol otherwise.
pub fn detect_protocol(buf: &[u8]) -> (r: ProtocolKind)
    ensures
        r == protocol_of(buf@),
{
    proof {
        reveal_strlit("GET ");
        reveal_strlit("POST ");
        reveal_strlit("HTTP/");
        reveal_strlit("RMCP-STREAM");
        reveal_strlit("RMCP-SSE");
    }
    if starts_with_bytes(buf, ascii_bytes("GET ").as_slice()) || starts_with_bytes(
        buf,
        ascii_bytes("POST ").as_slice(),
    ) || starts_with_bytes(buf, ascii_bytes("HTTP/").as_slice()) {
        ProtocolKind::Http
    } else if starts_with_bytes(buf, ascii_bytes("RMCP-STREAM").as_slice()) {
        ProtocolKind::RmcpStreamableHttp
    } else if starts_with_bytes(buf, ascii_bytes("RMCP-SSE").as_slice()) {
        ProtocolKind::RmcpSse
    } else {
        ProtocolKind::CustomBinary
    }
}

/// The number a protocol's handler is kept under.
pub open spec fn kind_code(kind: ProtocolKind) -> u8 {
    match kind {
        ProtocolKind::Http => 0,
        ProtocolKind::RmcpStreamableHttp => 1,
        ProtocolKind::RmcpSse => 2,
        ProtocolKind::CustomBinary => 3,
    }
}

fn code_of(kind: ProtocolKind) -> (r: u8)
    ensures
        r == kind_code(kind),
{
    match kind {
        ProtocolKind::Http => 0,
        ProtocolKind::RmcpStreamableHttp => 1,
        ProtocolKind::RmcpSse => 2,
        ProtocolKind::CustomBinary => 3,
    }
}

/// The handlers of a multiplexer, one per protocol, kept by the protocol's
/// number; `H` is what serves a connection.
pub struct Multiplexer<H> {
    handlers: HashMap<u8, H>,
}

/// The handlers kept by number, as a map from protocol to handler.
pub open spec fn handler_map<H>(h: Map<u8, H>) -> Map<ProtocolKind, H> {
    Map::new(|k: ProtocolKind| h.contains_key(kind_code(k)), |k: ProtocolKind| h[kind_code(k)])
}

impl<H> View for Multiplexer<H> {
    type V = Map<ProtocolKind, H>;

    closed spec fn view(&self) -> Map<ProtocolKind, H> {
        handler_map(self.handlers@)
    }
}

impl<H> Multiplexer<H> {
    /// A multiplexer without handlers.
    pub fn new() -> (r: Self)
        ensures
            r@ == Map::<ProtocolKind, H>::empty(),
    {
        let r = Multiplexer { handlers: HashMap::new() };
        proof {
            assert(r@ =~= Map::<ProtocolKind, H>::empty());
        }
        r
    }

    /// Makes `handler` serve the protocol, in place of any handler it had.
    pub fn register_handler(&mut self, kind: ProtocolKind, handler: H)
        ensures
            final(self)@ == old(self)@.insert(kind, handler),
    {
        let ghost old_h = self.handlers@;
        self.handlers.insert(code_of(kind), handler);
        proof {
            assert(self.handlers@ == old_h.insert(kind_code(kind), handler));
            assert(handler_map(self.handlers@) =~= handler_map(old_h).insert(kind, handler));
        }
    }

    /// The handler that serves the protocol, if there is one.
    pub fn handler_for(&self, kind: ProtocolKind) -> (r: Option<&H>)
        ensures
            match r {
                Some(h) => self@.dom().contains(kind) && *h == self@[kind],
                None => !self@.dom().contains(kind),
            },
    {
        let code = code_of(kind);
        self.handlers.get(&code)
    }

    /// The handler that serves a connection whose first bytes are `buf`: that
    /// of the protocol they announce, if it has one.
    pub fn dispatch(&self, buf: &[u8]) -> (r: Option<&H>)
        ensures
            match r {
                Some(h) => self@.dom().contains(protocol_of(buf@)) && *h == self@[protocol_of(buf@)],
                None => !self@.dom().contains(protocol_of(buf@)),
            },
    {
        let kind = detect_protocol(buf);
        self.handler_for(kind)
    }
}

/// A handler registered for a protocol is the one a connection announcing
/// that protocol is handed to, and registering one protocol's handler leaves
/// the others' alone.
pub proof fn lemma_registered_handler_serves<H>(m: Map<ProtocolKind, H>, kind: ProtocolKind, other: ProtocolKind, handler: H)
    requires
        other != kind,
    ensures
        m.insert(kind, handler).dom().contains(kind),
        m.insert(kind, handler)[kind] == handler,
        m.insert(kind, handler).dom().contains(other) == m.dom().contains(other),
        m.dom().contains(other) ==> m.insert(kind, handler)[other] == m[other],
{
}

/// A connection whose first bytes are `GET `, `POST ` or `HTTP/` (a request
/// or a response line) is HTTP, and one that begins `RMCP-STREAM` or
/// `RMCP-SSE` goes to that rmcp transport, whatever follows.
pub proof fn lemma_announced_protocols(buf: Seq<u8>)
    ensures
        bytes_prefix(buf, seq![71u8, 69, 84, 32]) ==> protocol_of(buf) == ProtocolKind::Http,
        bytes_prefix(buf, seq![80u8, 79, 83, 84, 32]) ==> protocol_of(buf) == ProtocolKind::Http,
        bytes_prefix(buf, seq![72u8, 84, 84, 80, 47]) ==> protocol_of(buf) == ProtocolKind::Http,
        bytes_prefix(buf, seq![82u8, 77, 67, 80, 45, 83, 84, 82, 69, 65, 77]) ==> protocol_of(buf)
            == ProtocolKind::RmcpStreamableHttp,
        bytes_prefix(buf, seq![82u8, 77, 67, 80, 45, 83, 83, 69]) ==> protocol_of(buf)
            == ProtocolKind::RmcpSse,
{
    reveal_strlit("GET ");
    reveal_strlit("POST ");
    reveal_strlit("HTTP/");
    reveal_strlit("RMCP-STREAM");
    reveal_strlit("RMCP-SSE");
    assert(seq![71u8, 69, 84, 32] =~= "GET "@.map_values(|c: char| c as u8));
    assert(seq![80u8, 79, 83, 84, 32] =~= "POST "@.map_values(|c: char| c as u8));
    assert(seq![72u8, 84, 84, 80, 47] =~= "HTTP/"@.map_values(|c: char| c as u8));
    assert(seq![82u8, 77, 67, 80, 45, 83, 84, 82, 69, 65, 77] =~= "RMCP-STREAM"@.map_values(
        |c: char| c as u8,
    ));
    assert(seq![82u8, 77, 67, 80, 45, 83, 83, 69] =~= "RMCP-SSE"@.map_values(|c: char| c as u8));
    if bytes_prefix(buf, seq![82u8, 77, 67, 80, 45, 83, 84, 82, 69, 65, 77]) || bytes_prefix(
        buf,
        seq![82u8, 77, 67, 80, 45, 83, 83, 69],
    ) {
        assert(buf[0] == 82);
        assert(!bytes_prefix(buf, seq![71u8, 69, 84, 32]) && !bytes_prefix(buf, seq![80u8, 79, 83, 84, 32])
            && !bytes_prefix(buf, seq![72u8, 84, 84, 80, 47])) by {
            assert(buf.subrange(0, 4)[0] == buf[0]);
            assert(buf.subrange(0, 5)[0] == buf[0]);
        }
    }
    if bytes_prefix(buf, seq![82u8, 77, 67, 80, 45, 83, 83, 69]) {
        assert(buf[5] == 83 && buf[6] == 83);
        assert(!bytes_prefix(buf, seq![82u8, 77, 67, 80, 45, 83, 84, 82, 69, 65, 77])) by {
            if buf.len() >= 11 {
                assert(buf.subrange(0, 11)[6] == buf[6]);
            }
        }
    }
}

} // verus!
