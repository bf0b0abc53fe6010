//! What a service record of the discovery library holds, as far as this
//! library reads it. Nothing in this file is proved: each item states what the
//! discovery library does.

use crate::init::config::ServiceDescription;
use crate::net::Ipv4Address;
use mdns_sd::ServiceInfo;
use vstd::prelude::*;

verus! {

/// `mdns_sd::ServiceInfo`: the full record of one service instance. Its
/// inside is not visible to the verifier.
#[verifier::external_type_specification]
#[verifier::external_body]
pub struct ExServiceInfo(mdns_sd::ServiceInfo);

/// `ServiceInfo::clone`, which the discovery library derives: the copy holds
/// what the record holds, field by field.
pub assume_specification[ <mdns_sd::ServiceInfo as Clone>::clone ](info: &ServiceInfo) -> (r:
    ServiceInfo)
    ensures
        r == *info,
;

/// The value that a record holds for a TXT property, as text, if it holds the
/// property: what `ServiceInfo::get_property_val_str` returns.
pub uninterp spec fn record_property(info: ServiceInfo, key: Seq<char>) -> Option<Seq<char>>;

/// The IPv4 addresses that a record advertises: what
/// `ServiceInfo::get_addresses_v4` returns.
pub uninterp spec fn record_addresses_v4(info: ServiceInfo) -> Set<Ipv4Address>;

/// The port that a record declares: what `ServiceInfo::get_port` returns.
pub uninterp spec fn record_port(info: ServiceInfo) -> u16;

/// Calls `ServiceInfo::get_property_val_str`, which looks a TXT property up by
/// its key and gives its value as text. The result is a copy of what the call
/// returns, and `None` where the call returns `None`.
#[verifier::external_body]
pub(crate) fn property_text(info: &ServiceInfo, key: &str) -> (r: Option<String>)
    ensures
        r matches Some(value) ==> record_property(*info, key@) == Some(value@),
        r is None ==> record_property(*info, key@) is None,
{
    info.get_property_val_str(key).map(|value| value.to_string())
}

/// Calls `ServiceInfo::get_addresses_v4`, which gives the record's IPv4
/// addresses as a hash set. The result holds each of them once, octet by
/// octet, in the order in which the set was walked: an order that nothing
/// fixes.
#[verifier::external_body]
pub(crate) fn addresses_v4(info: &ServiceInfo) -> (r: Vec<Ipv4Address>)
    ensures
        r@.to_set() == record_addresses_v4(*info),
        r@.no_duplicates(),
{
    info.get_addresses_v4().into_iter().map(
        |ip| {
            let octets = ip.octets();
            Ipv4Address::new(octets[0], octets[1], octets[2], octets[3])
        },
    ).collect()
}

/// Calls `ServiceInfo::get_port`, which gives the record's port.
#[verifier::external_body]
pub(crate) fn port_of(info: &ServiceInfo) -> (r: u16)
    ensures
        r == record_port(*info),
{
    info.get_port()
}

/// Writes a record with its `Debug`, which the discovery library derives.
/// The record holds hash sets and hash maps, which are written in the order
/// in which they are walked, so nothing is stated of the text.
#[verifier::external_body]
pub(crate) fn record_debug(info: &ServiceInfo) -> (r: String) {
    format!("{:?}", info)
}

/// Whether a key is made of lower-case ASCII letters, digits and dots only.
/// The discovery library compares keys without regard to case; on such
/// keys that comparison is plain equality.
pub open spec fn plain_key(key: Seq<char>) -> bool {
    forall|i: int|
        0 <= i < key.len() ==> {
            let c = #[trigger] key[i];
            ('a' <= c && c <= 'z') || ('0' <= c && c <= '9') || c == '.'
        }
}

/// Whether every key of a map is plain.
pub open spec fn plain_keys(properties: Map<Seq<char>, Seq<char>>) -> bool {
    forall|key: Seq<char>| #[trigger] properties.contains_key(key) ==> plain_key(key)
}

/// Whether a record holds the given properties, address and port: under
/// every plain key the value that `properties` has there and no value where
/// it has none, `ip` as its only IPv4 address, and the port.
pub open spec fn carries(
    info: ServiceInfo,
    properties: Map<Seq<char>, Seq<char>>,
    ip: Ipv4Address,
    port: u16,
) -> bool {
    &&& record_port(info) == port
    &&& record_addresses_v4(info) == set![ip]
    &&& forall|key: Seq<char>|
        #![trigger plain_key(key)]
        plain_key(key) ==> record_property(info, key) == properties.get(key)
}

/// Whether a description has plain keys and, as its address, the
/// dotted-decimal form of `ip`.
pub open spec fn advertises(description: ServiceDescription, ip: Ipv4Address) -> bool {
    plain_keys(description.properties@) && description.ip@ == ip.dotted()
}

/// Calls `ServiceInfo::new` with the parts of a description, the properties
/// as a hash map. A refusal comes back as the text that `Display` writes for
/// it. The call parses the address and refuses a key that is not ASCII or
/// holds `=`; it refuses nothing else. So a description with plain keys and
/// one IPv4 address in dotted-decimal form gives a record. Any record that
/// is given has the description's port and, where the description's address
/// is one IPv4 address in dotted-decimal form, that address as its only
/// address, whatever the keys; where the keys are plain, it has under each
/// plain key the value that the description has there, and none where it
/// has none.
#[verifier::external_body]
pub(crate) fn build_record(description: &ServiceDescription) -> (r: Result<ServiceInfo, String>)
    ensures
        r matches Ok(info) ==> record_port(info) == description.port,
        r matches Ok(info) ==> forall|ip: Ipv4Address|
            description.ip@ == #[trigger] ip.dotted() ==> record_addresses_v4(info) == set![ip],
        r matches Ok(info) ==> plain_keys(description.properties@) ==> forall|key: Seq<char>|
            #![trigger plain_key(key)]
            plain_key(key) ==> record_property(info, key) == description.properties@.get(key),
        r is Err ==> forall|ip: Ipv4Address| !#[trigger] advertises(*description, ip),
{
    let properties: std::collections::HashMap<String, String> =
        description.properties.entries.iter().cloned().collect();
    ServiceInfo::new(
        description.ty_domain.as_str(),
        description.instance.as_str(),
        description.host.as_str(),
        description.ip.as_str(),
        description.port,
        properties,
    ).map_err(|refusal| refusal.to_string())
}

} // verus!
