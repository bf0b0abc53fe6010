//! The fourth stage: the configuration of the node, and the service record
//! by which it advertises itself.

use crate::error::Error;
use crate::init::container::ContainerStage;
use crate::init::properties::Properties;
use crate::mdns::browser::{
    answers, declared_node_id, law_resolved_record_gives_state, DiscoveryEvent, EventOutcome,
    Handled,
};
use crate::mdns::record::{
    advertises, build_record, carries, plain_key, plain_keys, record_addresses_v4, record_port,
};
use crate::node::NodeStateView;
use crate::net::{decimal, format_decimal, format_endpoint, IpAddress, Ipv4Address, SocketAddress};
use crate::node::NodeId;
use mdns_sd::ServiceInfo;
use vstd::prelude::*;
use vstd::string::StringExecFns;

verus! {

/// What a node is configured with.
#[derive(Debug)]
pub struct Config {
    pub id: NodeId,
    pub domain: String,
    pub socket_addr: SocketAddress,
    pub properties: Properties,
}

/// All that a service record is made of, as plain values.
#[derive(Debug)]
pub struct ServiceDescription {
    /// The service type with its domain, as in `_flags._tcp.local.`.
    pub ty_domain: String,
    /// The name of the instance.
    pub instance: String,
    /// The name of the host.
    pub host: String,
    /// The address of the host, as text.
    pub ip: String,
    /// The port of the service.
    pub port: u16,
    /// The TXT properties of the record.
    pub properties: Properties,
}

/// The properties by which a node makes itself known, added to those that
/// it has already: its identifier, its address, its port, and both joined.
pub open spec fn advertised(
    properties: Map<Seq<char>, Seq<char>>,
    id: Seq<char>,
    ip: Ipv4Address,
    port: u16,
) -> Map<Seq<char>, Seq<char>> {
    properties.insert("node.id"@, id).insert("node.ip"@, ip.dotted()).insert(
        "node.port"@,
        decimal(port as nat),
    ).insert("node.address"@, SocketAddress::joined(ip, port))
}

impl Config {
    /// The configuration of the node `id` that advertises `domain` and
    /// listens at `socket_addr`, with no properties of its own.
    pub fn new(id: &NodeId, domain: &str, socket_addr: SocketAddress) -> (r: Self)
        ensures
            r.id@ == id@,
            r.domain@ == domain@,
            r.socket_addr == socket_addr,
            r.properties@ == Map::<Seq<char>, Seq<char>>::empty(),
    {
        Config {
            id: id.duplicate(),
            domain: String::from_str(domain),
            socket_addr,
            properties: Properties::new(),
        }
    }

    /// Whether `description` is what the record of this node, listening at
    /// the IPv4 address `ip`, is made of.
    pub open spec fn describes(self, ip: Ipv4Address, description: ServiceDescription) -> bool {
        &&& description.ty_domain@ == self.domain@
        &&& description.instance@ == self.id@
        &&& description.host@ == self.id@ + ".local."@
        &&& description.ip@ == ip.dotted()
        &&& description.port == self.socket_addr.port
        &&& description.properties@ == advertised(
            self.properties@,
            self.id@,
            ip,
            self.socket_addr.port,
        )
    }

    /// What the service record of this node is made of. A node that does
    /// not listen at an IPv4 address has none.
    pub fn description(&self) -> (r: Result<ServiceDescription, Error>)
        ensures
            match self.socket_addr.ip {
                IpAddress::V4(ip) => r matches Ok(description) && self.describes(ip, description),
                IpAddress::V6(_) => r matches Err(Error::NotIpv4),
            },
    {
        let ip = match self.socket_addr.ip {
            IpAddress::V4(ip) => ip,
            IpAddress::V6(_) => {
                return Err(Error::NotIpv4);
            },
        };
        let port = self.socket_addr.port;
        let mut properties = self.properties.duplicate();
        properties.insert(String::from_str("node.id"), String::from(self.id.duplicate()));
        properties.insert(String::from_str("node.ip"), ip.to_text());
        properties.insert(String::from_str("node.port"), format_decimal(port));
        properties.insert(String::from_str("node.address"), format_endpoint(&ip, port));
        Ok(
            ServiceDescription {
                ty_domain: self.domain.clone(),
                instance: String::from(self.id.duplicate()),
                host: String::from(self.id.duplicate()).concat(".local."),
                ip: ip.to_text(),
                port,
                properties,
            },
        )
    }

    /// The service record by which this node advertises itself. A node that
    /// does not listen at an IPv4 address has none, and the discovery
    /// library may refuse a record. Where the node's own properties have
    /// plain keys it does not, and the record then holds the advertised
    /// properties. Every record that is given holds the node's port and its
    /// address as its only IPv4 address.
    pub fn service_info(&self) -> (r: Result<ServiceInfo, Error>)
        ensures
            self.socket_addr.ip is V6 ==> r matches Err(Error::NotIpv4),
            r is Err && self.socket_addr.ip is V4 ==> r matches Err(Error::Discovery(_)),
            self.socket_addr.ip matches IpAddress::V4(ip) ==> (plain_keys(self.properties@) ==> (
            r matches Ok(info) && carries(
                info,
                advertised(self.properties@, self.id@, ip, self.socket_addr.port),
                ip,
                self.socket_addr.port,
            ))),
            r matches Ok(info) ==> record_port(info) == self.socket_addr.port
                && record_addresses_v4(info) == set![self.socket_addr.ip->V4_0],
    {
        let description = match self.description() {
            Ok(description) => description,
            Err(error) => {
                return Err(error);
            },
        };
        proof {
            lemma_advertised_keys_are_plain();
            if plain_keys(self.properties@) {
                assert(advertises(description, self.socket_addr.ip->V4_0));
            }
        }
        accept_record(build_record(&description))
    }
}

/// The keys of the advertised properties are plain.
pub proof fn lemma_advertised_keys_are_plain()
    ensures
        plain_key("node.id"@),
        plain_key("node.ip"@),
        plain_key("node.port"@),
        plain_key("node.address"@),
{
    reveal_strlit("node.id");
    reveal_strlit("node.ip");
    reveal_strlit("node.port");
    reveal_strlit("node.address");
}

/// A node is seen as it describes itself: a record that carries what a node
/// advertises, with plain keys among the node's own properties, resolves at
/// a peer to the state of that node, with its identifier, its address and
/// port, and the time of the observation.
pub proof fn law_own_record_resolves(
    info: ServiceInfo,
    properties: Map<Seq<char>, Seq<char>>,
    id: Seq<char>,
    ip: Ipv4Address,
    port: u16,
    now: u64,
    handled: Handled,
)
    requires
        carries(info, advertised(properties, id, ip, port), ip, port),
        answers(DiscoveryEvent::ServiceResolved(info), now, handled),
    ensures
        handled.outcome matches Ok(EventOutcome::Resolved(state)) && state@ == (NodeStateView {
            id,
            last_seen: now,
            address: SocketAddress { ip: IpAddress::V4(ip), port },
        }),
{
    lemma_advertised_keys_are_plain();
    reveal_strlit("node.id");
    reveal_strlit("node.ip");
    reveal_strlit("node.port");
    reveal_strlit("node.address");
    assert("node.id"@ != "node.ip"@) by {
        assert("node.id"@[6] != "node.ip"@[6]);
    }
    assert("node.id"@.len() != "node.port"@.len());
    assert("node.id"@.len() != "node.address"@.len());
    assert(advertised(properties, id, ip, port).get("node.id"@) == Some(id));
    assert(plain_key("node.id"@));
    assert(declared_node_id(info) == Some(id));
    law_resolved_record_gives_state(info, now, handled, id, ip);
}

/// What becomes of the discovery library's answer to a description: a
/// record is passed on, a refusal becomes an error that holds its reason.
pub fn accept_record(built: Result<ServiceInfo, String>) -> (r: Result<ServiceInfo, Error>)
    ensures
        match built {
            Ok(info) => r == Ok::<ServiceInfo, Error>(info),
            Err(reason) => r == Err::<ServiceInfo, Error>(Error::Discovery(reason)),
        },
{
    match built {
        Ok(info) => Ok(info),
        Err(reason) => Err(Error::Discovery(reason)),
    }
}

/// The stage that knows who the node is.
#[derive(Debug)]
pub struct ConfigStage {
    pub id: NodeId,
    pub domain: String,
    pub socket_addr: SocketAddress,
}

impl ConfigStage {
    /// Makes the configuration and the service record of the node. It fails
    /// where `Config::service_info` does.
    pub fn build(self) -> (r: Result<ContainerStage, Error>)
        ensures
            self.socket_addr.ip is V6 ==> r matches Err(Error::NotIpv4),
            r is Err && self.socket_addr.ip is V4 ==> r matches Err(Error::Discovery(_)),
            self.socket_addr.ip is V4 ==> r is Ok,
            r matches Ok(stage) ==> {
                &&& stage.config.id@ == self.id@
                &&& stage.config.domain@ == self.domain@
                &&& stage.config.socket_addr == self.socket_addr
                &&& stage.config.properties@ == Map::<Seq<char>, Seq<char>>::empty()
                &&& self.socket_addr.ip matches IpAddress::V4(ip)
                &&& carries(
                    stage.service_info,
                    advertised(Map::empty(), self.id@, ip, self.socket_addr.port),
                    ip,
                    self.socket_addr.port,
                )
            },
    {
        let config = Config::new(&self.id, self.domain.as_str(), self.socket_addr);
        match config.service_info() {
            Ok(service_info) => Ok(ContainerStage { config, service_info }),
            Err(error) => Err(error),
        }
    }
}

} // verus!
