//! The first stage: what was given on the command line.

use crate::error::Error;
use crate::init::socket::SocketStage;
use crate::net::{parse_ipv4, IpAddress, Ipv4Address};
use vstd::prelude::*;

verus! {

/// The service type that is advertised and browsed unless another is given.
pub const SERVICE_TYPE: &'static str = "_flags._tcp.local.";

/// The arguments of the program.
#[derive(Debug, Clone, PartialEq, Eq)]
pub struct Args {
    /// The IPv4 address of the node, where it is not to be detected.
    pub ip: Option<String>,
    /// The identifier of the node, where it is not to be made up.
    pub id: Option<String>,
    /// The port of the node; 0 lets the operating system pick one.
    pub port: u16,
    /// The service type to advertise and to browse for.
    pub domain: String,
}

/// The stage that holds the arguments as they were given.
#[derive(Debug)]
pub struct ArgsStage {
    pub args: Args,
}

impl ArgsStage {
    /// The stage for the given arguments. Arguments are never refused here.
    pub fn parse(args: Args) -> (r: Result<Self, Error>)
        ensures
            r matches Ok(stage) && stage.args == args,
    {
        Ok(ArgsStage { args })
    }

    /// Settles the address of the node. An address that was given must be
    /// an IPv4 address in dotted-decimal form, and is taken. Where none was
    /// given, `local_ip` is what the caller detected: it is taken if it is an
    /// IPv4 address, and anything else is an error.
    pub fn bind_socket(self, local_ip: Option<IpAddress>) -> (r: Result<SocketStage, Error>)
        ensures
            match self.args.ip {
                Some(text) => {
                    &&& forall|ip: Ipv4Address|
                        text@ == #[trigger] ip.dotted() ==> (r matches Ok(stage) && stage.ip == ip
                            && stage.args == self.args)
                    &&& (forall|ip: Ipv4Address| text@ != #[trigger] ip.dotted()) ==> (r matches Err(
                        Error::InvalidIp(refused),
                    ) && refused@ == text@)
                },
                None => match local_ip {
                    Some(IpAddress::V4(ip)) => r matches Ok(stage) && stage.ip == ip && stage.args
                        == self.args,
                    _ => r matches Err(Error::NoLocalIp),
                },
            },
    {
        let ip = match &self.args.ip {
            Some(text) => match parse_ipv4(text.as_str()) {
                Some(ip) => ip,
                None => {
                    return Err(Error::InvalidIp(text.clone()));
                },
            },
            None => match local_ip {
                Some(IpAddress::V4(ip)) => ip,
                _ => {
                    return Err(Error::NoLocalIp);
                },
            },
        };
        Ok(SocketStage { args: self.args, ip })
    }
}

} // verus!
