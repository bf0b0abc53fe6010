//! The second stage: the address is settled, the socket is not bound yet.

use crate::error::Error;
use crate::init::args::Args;
use crate::init::identity::IdentityStage;
use crate::net::{IpAddress, Ipv4Address, SocketAddress};
use vstd::prelude::*;

verus! {

/// The stage that knows the address of the node.
#[derive(Debug)]
pub struct SocketStage {
    pub args: Args,
    pub ip: Ipv4Address,
}

impl SocketStage {
    /// The address that the caller binds its listener to: the settled
    /// address and the port that was asked for.
    pub fn address(&self) -> (r: SocketAddress)
        ensures
            r == (SocketAddress { ip: IpAddress::V4(self.ip), port: self.args.port }),
    {
        SocketAddress::new(IpAddress::V4(self.ip), self.args.port)
    }

    /// The next stage, once the caller has bound its listener: `bound` is
    /// the address at which the listener says it listens.
    pub fn bind(self, bound: SocketAddress) -> (r: Result<IdentityStage, Error>)
        ensures
            r matches Ok(stage) && stage.args == self.args && stage.socket_addr == bound,
    {
        Ok(IdentityStage { args: self.args, socket_addr: bound })
    }
}

} // verus!
