//! The errors that the library reports.

use vstd::prelude::*;
use vstd::string::StringExecFns;

verus! {

/// Everything that can go wrong in the library, by cause.
#[derive(Debug, Clone, PartialEq, Eq)]
pub enum Error {
    /// An address that had to be IPv4 is not.
    NotIpv4,
    /// A resolved service record carries no `node.id` property.
    NodeIdMissing,
    /// A resolved service record advertises no IPv4 address.
    AddressMissing,
    /// The address given on the command line is not a dotted-decimal IPv4 address.
    InvalidIp(String),
    /// No address was given and the local IPv4 address could not be found.
    NoLocalIp,
    /// The discovery transport refused a request or broke down.
    Discovery(String),
}

impl Error {
    /// The text that describes each error.
    pub open spec fn spec_message(self) -> Seq<char> {
        match self {
            Error::NotIpv4 => "NodeState::ip() - IP address is not IPv4"@,
            Error::NodeIdMissing => "Node ID not found in service properties"@,
            Error::AddressMissing => "IP address not found in service info"@,
            Error::InvalidIp(text) => "invalid IPv4 address syntax: "@ + text@,
            Error::NoLocalIp => "Could not get local IP address"@,
            Error::Discovery(text) => text@,
        }
    }

    /// The error as a line of text for a log or a terminal.
    pub fn message(&self) -> (r: String)
        ensures
            r@ == self.spec_message(),
    {
        match self {
            Error::NotIpv4 => String::from_str("NodeState::ip() - IP address is not IPv4"),
            Error::NodeIdMissing => String::from_str("Node ID not found in service properties"),
            Error::AddressMissing => String::from_str("IP address not found in service info"),
            Error::InvalidIp(text) => String::from_str("invalid IPv4 address syntax: ").concat(
                text.as_str(),
            ),
            Error::NoLocalIp => String::from_str("Could not get local IP address"),
            Error::Discovery(text) => text.clone(),
        }
    }
}

} // verus!
