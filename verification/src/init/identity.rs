//! The third stage: the socket is bound, the node has no identity yet.

use crate::init::args::Args;
use crate::init::config::ConfigStage;
use crate::net::SocketAddress;
use crate::node::{is_random_uuid, NodeId};
use vstd::prelude::*;

verus! {

/// The stage that knows where the node listens.
#[derive(Debug)]
pub struct IdentityStage {
    pub args: Args,
    pub socket_addr: SocketAddress,
}

impl IdentityStage {
    /// Settles the identity of the node: the one that was given, or else a
    /// random one.
    pub fn generate_id(self) -> (r: ConfigStage)
        ensures
            match self.args.id {
                Some(id) => r.id@ == id@,
                None => is_random_uuid(r.id@),
            },
            r.domain@ == self.args.domain@,
            r.socket_addr == self.socket_addr,
    {
        let id = match &self.args.id {
            Some(id) => NodeId::from(id.clone()),
            None => NodeId::new_random(),
        };
        ConfigStage { id, domain: self.args.domain.clone(), socket_addr: self.socket_addr }
    }
}

} // verus!
