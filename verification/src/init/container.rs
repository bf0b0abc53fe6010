//! The last stage: the configuration and this node's service record.

use crate::init::config::Config;
use crate::shutdown::container::{ClientSettings, ShutdownContainer};
use mdns_sd::ServiceInfo;
use vstd::prelude::*;

verus! {

/// The stage that holds all that the shared context is made of.
#[derive(Debug)]
pub struct ContainerStage {
    pub config: Config,
    pub service_info: ServiceInfo,
}

impl ContainerStage {
    /// The shared context: the service type of the configuration, this
    /// node's service record, and an HTTP client set up to drop every
    /// connection after use.
    pub fn finalize(self) -> (r: ShutdownContainer)
        ensures
            r.domain@ == self.config.domain@,
            r.service_info == self.service_info,
            r.http_client == ClientSettings::disposable(),
    {
        let domain = self.config.domain.clone();
        ShutdownContainer::new(domain, self.service_info, ClientSettings::new())
    }
}

} // verus!
