//! The context that every supervised task is given.

use crate::shutdown::manager::{GuardedTask, ManagerView, ShutdownManager};
use mdns_sd::ServiceInfo;
use vstd::prelude::*;

verus! {

/// How the outbound HTTP client is set up: connections are short-lived and
/// never kept, since a peer may disappear at any time. Times are in seconds.
#[derive(Debug, Clone, Copy, PartialEq, Eq, Structural, Hash)]
pub struct ClientSettings {
    /// The longest that a whole request may take.
    pub timeout: u64,
    /// The longest that connecting may take.
    pub connect_timeout: u64,
    /// How long an idle connection is kept.
    pub pool_idle_timeout: u64,
    /// How many idle connections are kept for one host.
    pub pool_max_idle_per_host: usize,
    /// Whether HTTP/2 keep-alive pings are sent.
    pub http2_keep_alive: bool,
    /// Whether TCP keep-alive probes are sent.
    pub tcp_keepalive: bool,
}

impl ClientSettings {
    /// The settings of a client that drops every connection after use.
    pub open spec fn disposable() -> ClientSettings {
        ClientSettings {
            timeout: 5,
            connect_timeout: 1,
            pool_idle_timeout: 1,
            pool_max_idle_per_host: 0,
            http2_keep_alive: false,
            tcp_keepalive: false,
        }
    }

    /// The settings of a client that drops every connection after use.
    pub fn new() -> (r: Self)
        ensures
            r == Self::disposable(),
    {
        ClientSettings {
            timeout: 5,
            connect_timeout: 1,
            pool_idle_timeout: 1,
            pool_max_idle_per_host: 0,
            http2_keep_alive: false,
            tcp_keepalive: false,
        }
    }
}

/// What all supervised tasks share: the service type that is advertised and
/// browsed, this node's own service record, and the set-up of the HTTP
/// client. Every field is set once, at construction.
#[derive(Debug)]
pub struct ShutdownContainer {
    pub domain: String,
    pub service_info: ServiceInfo,
    pub http_client: ClientSettings,
}

impl Clone for ShutdownContainer {
    /// A copy that holds what the context holds.
    fn clone(&self) -> (r: Self)
        ensures
            r == *self,
    {
        ShutdownContainer {
            domain: self.domain.clone(),
            service_info: self.service_info.clone(),
            http_client: self.http_client,
        }
    }
}

impl ShutdownContainer {
    /// The context made of its three parts.
    pub fn new(domain: String, service_info: ServiceInfo, http_client: ClientSettings) -> (r: Self)
        ensures
            r.domain == domain,
            r.service_info == service_info,
            r.http_client == http_client,
    {
        ShutdownContainer { domain, service_info, http_client }
    }

    /// Registers the tasks of a node with the supervisor, each of them
    /// guarded, and gives what each is to be started with, in the order of
    /// registration. There is one: the task that browses for peers.
    pub fn register_tasks(&self, shutdown: &mut ShutdownManager) -> (r: Vec<RegisteredTask>)
        requires
            old(shutdown)@.spawned < u64::MAX,
        ensures
            final(shutdown)@ == old(shutdown)@.spawn("browse_services"@),
            r@.len() == 1,
            r@[0].kind == TaskKind::BrowseServices,
            r@[0].task.id == old(shutdown)@.spawned,
            r@[0].task.name@ == "browse_services"@,
            forall|later: ManagerView| #[trigger]
                later.answers(r@[0].task.cancel_token) == later.cancelled,
            r@[0].task.container == *self,
    {
        let mut registered: Vec<RegisteredTask> = Vec::new();
        let task = self.spawn(shutdown, "browse_services");
        registered.push(RegisteredTask { kind: TaskKind::BrowseServices, task });
        registered
    }

    /// Registers one guarded task under `name` with the supervisor, and
    /// gives what the task is to be started with: a handle that observes
    /// the supervisor's signal and its own copy of this context.
    pub fn spawn(&self, shutdown: &mut ShutdownManager, name: &'static str) -> (r: GuardedTask)
        requires
            old(shutdown)@.spawned < u64::MAX,
        ensures
            final(shutdown)@ == old(shutdown)@.spawn(name@),
            r.id == old(shutdown)@.spawned,
            r.name@ == name@,
            forall|later: ManagerView| #[trigger]
                later.answers(r.cancel_token) == later.cancelled,
            r.container == *self,
    {
        shutdown.spawn_guarded(name, self)
    }
}

/// The tasks that a node runs under supervision.
#[derive(Debug, Clone, Copy, PartialEq, Eq, Structural, Hash)]
pub enum TaskKind {
    /// Browse for the service type and take note of the peers.
    BrowseServices,
}

/// A task that was registered, and has to be started.
#[derive(Debug)]
pub struct RegisteredTask {
    /// Which task it is.
    pub kind: TaskKind,
    /// What it is started with.
    pub task: GuardedTask,
}

} // verus!
