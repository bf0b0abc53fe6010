//! Identity of a node and the last known state of a peer.

use crate::error::Error;
use crate::net::{IpAddress, Ipv4Address, SocketAddress};
use vstd::prelude::*;

verus! {

/// An opaque, immutable identifier of a node, compared by value.
#[derive(Debug, Clone, PartialEq, Eq, Hash)]
pub struct NodeId(String);

impl View for NodeId {
    type V = Seq<char>;

    closed spec fn view(&self) -> Seq<char> {
        self.0@
    }
}

/// Whether a character is a hexadecimal digit in lower case.
pub open spec fn is_lower_hex(c: char) -> bool {
    ('0' <= c && c <= '9') || ('a' <= c && c <= 'f')
}

/// Whether a text is a random (version 4) UUID in its usual form: 32
/// hexadecimal digits in lower case in groups of 8, 4, 4, 4 and 12 with a
/// hyphen between them, the third group beginning with `4` and the fourth
/// with `8`, `9`, `a` or `b`.
pub open spec fn is_random_uuid(text: Seq<char>) -> bool {
    &&& text.len() == 36
    &&& forall|i: int|
        0 <= i < 36 ==> if i == 8 || i == 13 || i == 18 || i == 23 {
            #[trigger] text[i] == '-'
        } else {
            is_lower_hex(text[i])
        }
    &&& text[14] == '4'
    &&& (text[19] == '8' || text[19] == '9' || text[19] == 'a' || text[19] == 'b')
}

impl NodeId {
    /// A random identifier. It calls `Uuid::new_v4` of the uuid crate, which
    /// draws 122 random bits and sets the version and variant bits, and
    /// writes the result with the crate's `Display`, which is the hyphenated
    /// form in lower case. Which identifier comes out is not determined.
    #[verifier::external_body]
    pub fn new_random() -> (r: Self)
        ensures
            is_random_uuid(r@),
    {
        NodeId(uuid::Uuid::new_v4().to_string())
    }

    /// An identifier made of the given text.
    pub fn new(id: &str) -> (r: Self)
        ensures
            r@ == id@,
    {
        NodeId(id.to_owned())
    }

    /// The text of the identifier.
    pub fn as_str(&self) -> (r: &str)
        ensures
            r@ == self@,
    {
        self.0.as_str()
    }

    /// A copy with the same text.
    pub fn duplicate(&self) -> (r: Self)
        ensures
            r@ == self@,
    {
        NodeId(self.0.clone())
    }
}

impl From<String> for NodeId {
    /// The identifier that takes over the given text.
    fn from(id: String) -> (r: Self)
        ensures
            r@ == id@,
    {
        NodeId(id)
    }
}

impl vstd::std_specs::convert::FromSpecImpl<String> for NodeId {
    open spec fn obeys_from_spec() -> bool {
        true
    }

    closed spec fn from_spec(id: String) -> Self {
        NodeId(id)
    }
}

impl<'a> From<&'a str> for NodeId {
    /// The identifier made of the given text.
    fn from(id: &'a str) -> (r: Self)
        ensures
            r@ == id@,
    {
        NodeId(id.to_owned())
    }
}

impl<'a> vstd::std_specs::convert::FromSpecImpl<&'a str> for NodeId {
    open spec fn obeys_from_spec() -> bool {
        false
    }

    closed spec fn from_spec(id: &'a str) -> Self {
        arbitrary()
    }
}

impl vstd::std_specs::convert::FromSpecImpl<NodeId> for String {
    open spec fn obeys_from_spec() -> bool {
        true
    }

    closed spec fn from_spec(id: NodeId) -> Self {
        id.0
    }
}

impl From<NodeId> for String {
    /// The text of the identifier.
    fn from(id: NodeId) -> (r: String)
        ensures
            r@ == id@,
    {
        id.0
    }
}

/// What is known of one peer: who it is, when it was last seen (seconds since
/// the epoch) and where it can be reached.
#[derive(Debug, Clone, PartialEq, Eq)]
pub struct NodeState {
    id: NodeId,
    last_seen: u64,
    address: SocketAddress,
}

/// The mathematical value of a `NodeState`.
pub struct NodeStateView {
    pub id: Seq<char>,
    pub last_seen: u64,
    pub address: SocketAddress,
}

impl View for NodeState {
    type V = NodeStateView;

    closed spec fn view(&self) -> NodeStateView {
        NodeStateView { id: self.id@, last_seen: self.last_seen, address: self.address }
    }
}

impl NodeState {
    /// The state of the peer `id`, seen at `last_seen` at `address`.
    pub fn new(id: &NodeId, last_seen: u64, address: SocketAddress) -> (r: Self)
        ensures
            r@ == (NodeStateView { id: id@, last_seen, address }),
    {
        NodeState { id: id.duplicate(), last_seen, address }
    }

    /// Who the peer is.
    pub fn id(&self) -> (r: &NodeId)
        ensures
            r@ == self@.id,
    {
        &self.id
    }

    /// Where the peer can be reached.
    pub fn address(&self) -> (r: &SocketAddress)
        ensures
            *r == self@.address,
    {
        &self.address
    }

    /// The peer's address narrowed to IPv4. An address of another family is
    /// an error, never a made-up address.
    pub fn ip(&self) -> (r: Result<Ipv4Address, Error>)
        ensures
            match self@.address.ip {
                IpAddress::V4(ip) => r == Ok::<Ipv4Address, Error>(ip),
                IpAddress::V6(_) => r == Err::<Ipv4Address, Error>(Error::NotIpv4),
            },
    {
        match self.address.ip {
            IpAddress::V4(ip) => Ok(ip),
            IpAddress::V6(_) => Err(Error::NotIpv4),
        }
    }

    /// The port at which the peer listens.
    pub fn port(&self) -> (r: u16)
        ensures
            r == self@.address.port,
    {
        self.address.port
    }

    /// When the peer was last seen.
    pub fn last_seen(&self) -> (r: u64)
        ensures
            r == self@.last_seen,
    {
        self.last_seen
    }

    /// Records a later observation of the peer; nothing else changes.
    pub fn set_last_seen(&mut self, last_seen: u64)
        ensures
            final(self)@ == (NodeStateView { last_seen, ..old(self)@ }),
    {
        self.last_seen = last_seen;
    }
}

} // verus!
