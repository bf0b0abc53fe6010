//! The consumer of discovery events: it turns what the discovery transport
//! reports into knowledge about peers.

use crate::error::Error;
use crate::log::{begins_with, LogLevel, LogLine};
use crate::mdns::record::{
    addresses_v4, port_of, property_text, record_addresses_v4, record_debug, record_port,
    record_property,
};
use crate::net::{IpAddress, Ipv4Address, SocketAddress};
use crate::node::{NodeId, NodeState, NodeStateView};
use crate::shutdown::container::ShutdownContainer;
use mdns_sd::ServiceInfo;
use vstd::prelude::*;
use vstd::string::StringExecFns;

verus! {

/// What the discovery transport reports.
#[derive(Debug, Clone)]
pub enum DiscoveryEvent {
    /// Browsing for a service type has begun.
    SearchStarted(String),
    /// An instance (service type, full name) was seen; it is not resolved yet.
    ServiceFound(String, String),
    /// An instance was resolved: here is its full record.
    ServiceResolved(ServiceInfo),
    /// An instance (service type, full name) has left.
    ServiceRemoved(String, String),
    /// Browsing for a service type has ended.
    SearchStopped(String),
}

/// What an event changes in the knowledge about peers.
#[derive(Debug, Clone, PartialEq, Eq)]
pub enum EventOutcome {
    /// Nothing changes.
    Noted,
    /// A peer is reachable: its state as of this observation.
    Resolved(NodeState),
    /// The peer with this identity has left.
    Removed(NodeId),
}

/// What handling one event brought: a line for the log, which every event
/// leaves, and what the event changes, or the reason why it changes nothing.
#[derive(Debug, PartialEq, Eq)]
pub struct Handled {
    pub note: LogLine,
    pub outcome: Result<EventOutcome, Error>,
}

/// The identity that a record declares: the value of its `node.id` property.
pub open spec fn declared_node_id(info: ServiceInfo) -> Option<Seq<char>> {
    record_property(info, "node.id"@)
}

/// What resolving a record at time `now` gives: the peer's state, or the
/// reason why the record does not describe a peer. The identity is looked at
/// first. `ip` is the address that was picked among the record's IPv4
/// addresses, if it has any.
pub open spec fn resolved_state(info: ServiceInfo, ip: Option<Ipv4Address>, now: u64) -> Result<
    NodeStateView,
    Error,
> {
    match (declared_node_id(info), ip) {
        (None, _) => Err(Error::NodeIdMissing),
        (Some(_), None) => Err(Error::AddressMissing),
        (Some(id), Some(ip)) => Ok(
            NodeStateView {
                id,
                last_seen: now,
                address: SocketAddress { ip: IpAddress::V4(ip), port: record_port(info) },
            },
        ),
    }
}

/// The identity in a `node.id` property, where the record has one.
pub fn node_id_from_property(value: Option<String>) -> (r: Result<NodeId, Error>)
    ensures
        match value {
            Some(text) => r matches Ok(id) && id@ == text@,
            None => r == Err::<NodeId, Error>(Error::NodeIdMissing),
        },
{
    match value {
        Some(text) => Ok(NodeId::from(text)),
        None => Err(Error::NodeIdMissing),
    }
}

/// The socket address made of the first of the given IPv4 addresses and the
/// port; an error where there is no address.
pub fn socket_addr_from_parts(addresses: &Vec<Ipv4Address>, port: u16) -> (r: Result<
    SocketAddress,
    Error,
>)
    ensures
        addresses@.len() == 0 ==> r == Err::<SocketAddress, Error>(Error::AddressMissing),
        addresses@.len() > 0 ==> r == Ok::<SocketAddress, Error>(
            SocketAddress { ip: IpAddress::V4(addresses@[0]), port },
        ),
{
    if addresses.len() == 0 {
        Err(Error::AddressMissing)
    } else {
        Ok(SocketAddress::new(IpAddress::V4(addresses[0]), port))
    }
}

/// What this library reads from a service record.
pub trait ServiceInfoExt {
    /// The identity of the node that the record describes.
    fn get_node_id(&self) -> Result<NodeId, Error>;

    /// An IPv4 address of the node together with its port.
    fn get_socket_addr(&self) -> Result<SocketAddress, Error>;
}

impl ServiceInfoExt for ServiceInfo {
    /// The value of the property `node.id`; an error where the record has no
    /// such property.
    fn get_node_id(&self) -> (r: Result<NodeId, Error>)
        ensures
            match declared_node_id(*self) {
                Some(text) => r matches Ok(id) && id@ == text,
                None => r == Err::<NodeId, Error>(Error::NodeIdMissing),
            },
    {
        node_id_from_property(property_text(self, "node.id"))
    }

    /// One of the record's IPv4 addresses with the record's port; an error
    /// where the record advertises no IPv4 address. IPv6 addresses are never
    /// used.
    fn get_socket_addr(&self) -> (r: Result<SocketAddress, Error>)
        ensures
            record_addresses_v4(*self) == Set::<Ipv4Address>::empty() ==> r == Err::<
                SocketAddress,
                Error,
            >(Error::AddressMissing),
            record_addresses_v4(*self) != Set::<Ipv4Address>::empty() ==> (r matches Ok(address)
                && address.port == record_port(*self) && (address.ip matches IpAddress::V4(ip)
                && record_addresses_v4(*self).contains(ip))),
    {
        let addresses = addresses_v4(self);
        let port = port_of(self);
        proof {
            if addresses@.len() > 0 {
                assert(addresses@.contains(addresses@[0]));
                assert(addresses@.to_set().contains(addresses@[0]));
            } else {
                assert(addresses@.to_set() =~= Set::<Ipv4Address>::empty());
            }
        }
        socket_addr_from_parts(&addresses, port)
    }
}

/// Handles the events of the discovery transport, one at a time.
#[derive(Debug, Clone)]
pub struct BrowserDelegate {}

/// What handling an event at time `now` must bring, up to the choice among a
/// record's IPv4 addresses and the wording of a record in the log: whether
/// `handled` is a right answer to `event`.
pub open spec fn answers(event: DiscoveryEvent, now: u64, handled: Handled) -> bool {
    match event {
        DiscoveryEvent::SearchStarted(service_type) => {
            &&& handled.note.says(
                LogLevel::Trace,
                "Started browsing for services of type: "@ + service_type@,
            )
            &&& handled.outcome == Ok::<EventOutcome, Error>(EventOutcome::Noted)
        },
        DiscoveryEvent::ServiceFound(service_type, fullname) => {
            &&& handled.note.says(
                LogLevel::Debug,
                "Found service of type "@ + service_type@ + ": "@ + fullname@,
            )
            &&& handled.outcome == Ok::<EventOutcome, Error>(EventOutcome::Noted)
        },
        DiscoveryEvent::ServiceResolved(info) => {
            &&& handled.note.level == LogLevel::Debug
            &&& begins_with(handled.note.message@, "Resolved service: "@)
            &&& state_of(handled.outcome) matches Some(result) && resolves(info, now, result)
        },
        DiscoveryEvent::ServiceRemoved(service_type, fullname) => {
            &&& handled.note.says(
                LogLevel::Debug,
                "Removed service of type "@ + service_type@ + ": "@ + fullname@,
            )
            &&& handled.outcome matches Ok(EventOutcome::Removed(id)) && id@ == fullname@
        },
        DiscoveryEvent::SearchStopped(service_type) => {
            &&& handled.note.says(
                LogLevel::Debug,
                "Stopped browsing for services of type: "@ + service_type@,
            )
            &&& handled.outcome == Ok::<EventOutcome, Error>(EventOutcome::Noted)
        },
    }
}

/// Whether `result` is what resolving the record at time `now` gives, for
/// one of the record's IPv4 addresses, or for none where it has none.
pub open spec fn resolves(info: ServiceInfo, now: u64, result: Result<NodeStateView, Error>) -> bool {
    if record_addresses_v4(info) == Set::<Ipv4Address>::empty() {
        result == resolved_state(info, None, now)
    } else {
        exists|ip: Ipv4Address|
            record_addresses_v4(info).contains(ip) && result == #[trigger] resolved_state(
                info,
                Some(ip),
                now,
            )
    }
}

/// The peer state or the error in an outcome; nothing for an outcome of
/// another kind.
pub open spec fn state_of(outcome: Result<EventOutcome, Error>) -> Option<
    Result<NodeStateView, Error>,
> {
    match outcome {
        Ok(EventOutcome::Resolved(state)) => Some(Ok(state@)),
        Ok(_) => None,
        Err(error) => Some(Err(error)),
    }
}

/// A result with the peer state replaced by its mathematical value.
pub open spec fn state_view(result: Result<NodeState, Error>) -> Result<NodeStateView, Error> {
    match result {
        Ok(state) => Ok(state@),
        Err(error) => Err(error),
    }
}

/// A set that is not the empty set has an element.
proof fn lemma_some_address(addresses: Set<Ipv4Address>) -> (ip: Ipv4Address)
    requires
        addresses != Set::<Ipv4Address>::empty(),
    ensures
        addresses.contains(ip),
{
    if forall|other: Ipv4Address| !addresses.contains(other) {
        assert(addresses =~= Set::<Ipv4Address>::empty());
    }
    choose|other: Ipv4Address| addresses.contains(other)
}

impl BrowserDelegate {
    /// A delegate; it keeps nothing between events.
    pub fn new() -> (r: Self)
        ensures
            r == (BrowserDelegate {  }),
    {
        BrowserDelegate {  }
    }

    /// Handles one event that was received at time `now` (seconds since the
    /// epoch). Every event leaves a line for the log. An error is local to
    /// the event: the caller logs it and goes on.
    pub fn handle_event(&mut self, event: DiscoveryEvent, now: u64) -> (r: Handled)
        ensures
            answers(event, now, r),
    {
        match event {
            DiscoveryEvent::SearchStarted(service_type) => Handled {
                note: self.did_start_search(service_type),
                outcome: Ok(EventOutcome::Noted),
            },
            DiscoveryEvent::ServiceFound(service_type, fullname) => {
                let note = self.note_found(service_type.as_str(), fullname.as_str());
                match self.did_find_service(service_type, fullname) {
                    Ok(_) => Handled { note, outcome: Ok(EventOutcome::Noted) },
                    Err(error) => Handled { note, outcome: Err(error) },
                }
            },
            DiscoveryEvent::ServiceResolved(service_info) => {
                let note = self.note_resolved(&service_info);
                match self.did_resolve_service(service_info, now) {
                    Ok(state) => Handled { note, outcome: Ok(EventOutcome::Resolved(state)) },
                    Err(error) => Handled { note, outcome: Err(error) },
                }
            },
            DiscoveryEvent::ServiceRemoved(service_type, fullname) => {
                let note = self.note_removed(service_type.as_str(), fullname.as_str());
                match self.did_remove_service(service_type, fullname) {
                    Ok(id) => Handled { note, outcome: Ok(EventOutcome::Removed(id)) },
                    Err(error) => Handled { note, outcome: Err(error) },
                }
            },
            DiscoveryEvent::SearchStopped(service_type) => Handled {
                note: self.did_stop_search(service_type),
                outcome: Ok(EventOutcome::Noted),
            },
        }
    }

    /// The line that a found instance leaves in the log.
    pub fn note_found(&self, service_type: &str, fullname: &str) -> (r: LogLine)
        ensures
            r.says(LogLevel::Debug, "Found service of type "@ + service_type@ + ": "@ + fullname@),
    {
        let text = String::from_str("Found service of type ").concat(service_type).concat(
            ": ",
        ).concat(fullname);
        LogLine::new(LogLevel::Debug, text)
    }

    /// The line that a resolved instance leaves in the log: the record as
    /// the discovery library writes it, after `Resolved service: `. How the
    /// library writes a record is not fixed, so only the beginning is.
    pub fn note_resolved(&self, service_info: &ServiceInfo) -> (r: LogLine)
        ensures
            r.level == LogLevel::Debug,
            begins_with(r.message@, "Resolved service: "@),
    {
        let written = record_debug(service_info);
        let line = self.note_written(written.as_str());
        assert(line.message@.subrange(0, "Resolved service: "@.len() as int)
            =~= "Resolved service: "@);
        line
    }

    /// The line for a resolved instance whose record was written as
    /// `written`.
    pub fn note_written(&self, written: &str) -> (r: LogLine)
        ensures
            r.says(LogLevel::Debug, "Resolved service: "@ + written@),
    {
        LogLine::new(LogLevel::Debug, String::from_str("Resolved service: ").concat(written))
    }

    /// The line that an instance that has left leaves in the log.
    pub fn note_removed(&self, service_type: &str, id: &str) -> (r: LogLine)
        ensures
            r.says(LogLevel::Debug, "Removed service of type "@ + service_type@ + ": "@ + id@),
    {
        let text = String::from_str("Removed service of type ").concat(service_type).concat(
            ": ",
        ).concat(id);
        LogLine::new(LogLevel::Debug, text)
    }

    /// Browsing for a service type has begun: a line for the log, no more.
    pub fn did_start_search(&self, service_type: String) -> (r: LogLine)
        ensures
            r.says(LogLevel::Trace, "Started browsing for services of type: "@ + service_type@),
    {
        LogLine::new(
            LogLevel::Trace,
            String::from_str("Started browsing for services of type: ").concat(
                service_type.as_str(),
            ),
        )
    }

    /// An instance was seen: a line for the log, no more. Resolving it comes
    /// later, with an event of its own.
    pub fn did_find_service(&self, service_type: String, fullname: String) -> (r: Result<
        LogLine,
        Error,
    >)
        ensures
            r matches Ok(line) && line.says(
                LogLevel::Debug,
                "Found service of type "@ + service_type@ + ": "@ + fullname@,
            ),
    {
        Ok(self.note_found(service_type.as_str(), fullname.as_str()))
    }

    /// An instance was resolved at time `now`: the state of the peer that its
    /// record describes. A record without identity or without IPv4 address is
    /// an error, and the identity is looked at first.
    pub fn did_resolve_service(&mut self, service_info: ServiceInfo, now: u64) -> (r: Result<
        NodeState,
        Error,
    >)
        ensures
            resolves(service_info, now, state_view(r)),
    {
        let id = match service_info.get_node_id() {
            Ok(id) => id,
            Err(error) => {
                proof {
                    if record_addresses_v4(service_info) != Set::<Ipv4Address>::empty() {
                        let ip = lemma_some_address(record_addresses_v4(service_info));
                        assert(state_view(Err(error)) == resolved_state(
                            service_info,
                            Some(ip),
                            now,
                        ));
                    }
                }
                return Err(error);
            },
        };
        let socket_addr = match service_info.get_socket_addr() {
            Ok(address) => address,
            Err(error) => {
                return Err(error);
            },
        };
        let state = NodeState::new(&id, now, socket_addr);
        proof {
            let ip = socket_addr.ip->V4_0;
            assert(Ok::<NodeStateView, Error>(state@) == resolved_state(
                service_info,
                Some(ip),
                now,
            ));
        }
        Ok(state)
    }

    /// An instance has left: the identity of the peer, read from its name.
    pub fn did_remove_service(&self, service_type: String, id: String) -> (r: Result<NodeId, Error>)
        ensures
            r matches Ok(node) && node@ == id@,
    {
        Ok(NodeId::from(id))
    }

    /// Browsing for a service type has ended: a line for the log, no more.
    pub fn did_stop_search(&self, service_type: String) -> (r: LogLine)
        ensures
            r.says(LogLevel::Debug, "Stopped browsing for services of type: "@ + service_type@),
    {
        LogLine::new(
            LogLevel::Debug,
            String::from_str("Stopped browsing for services of type: ").concat(
                service_type.as_str(),
            ),
        )
    }

    /// Receiving failed in a way that the loop survives: a line for the log.
    pub fn handle_error(&self, error: String) -> (r: Result<LogLine, Error>)
        ensures
            r matches Ok(line) && line.says(LogLevel::Error, "Error in browse loop: "@ + error@),
    {
        Ok(
            LogLine::new(
                LogLevel::Error,
                String::from_str("Error in browse loop: ").concat(error.as_str()),
            ),
        )
    }
}

/// Where the browse task stands. Each state but the last waits for the
/// outcome of one request to the discovery transport.
#[derive(Debug, Clone, PartialEq, Eq)]
pub enum BrowseState {
    /// The transport was asked to leave the IPv6 interfaces alone.
    Restricting,
    /// The transport was asked to browse for the service type.
    Subscribing,
    /// The task waits for cancellation or for the next event, cancellation
    /// first where both are there.
    Listening,
    /// Cancellation was seen and the transport was asked to stop browsing.
    Stopping,
    /// The task has returned, with success.
    Finished,
    /// The task has returned, with this error.
    Failed(Error),
}

/// What the caller of the browse task does next.
#[derive(Debug, Clone, PartialEq, Eq)]
pub enum BrowseAction {
    /// Ask the transport to leave the IPv6 interfaces alone.
    DisableIpv6,
    /// Ask the transport to browse for this service type.
    Browse(String),
    /// Wait for cancellation or for the next event, cancellation first.
    Listen,
    /// Ask the transport to stop browsing for this service type.
    StopBrowse(String),
    /// Return: success in `Finished`, the state's error in `Failed`.
    Return,
}

/// What happened since the last step.
#[derive(Debug, Clone)]
pub enum BrowseEvent {
    /// The transport did what it was asked.
    Done,
    /// The transport refused what it was asked, with this reason.
    Refused(String),
    /// The cancellation signal has fired.
    Cancelled,
    /// The transport delivered an event.
    Received(DiscoveryEvent),
    /// Receiving failed; `fatal` where the transport cannot recover.
    ReceiveFailed { message: String, fatal: bool },
}

/// What the transport has ready for a listener.
#[derive(Debug, Clone)]
pub enum Delivery {
    /// An event.
    Event(DiscoveryEvent),
    /// The news that receiving failed; `fatal` where the transport cannot
    /// recover.
    Failed { message: String, fatal: bool },
}

impl BrowseEvent {
    /// What a listener has heard when it finds the signal fired or not and
    /// the transport with or without something ready. A fired signal comes
    /// first: what the transport has ready is then left unhandled. With the
    /// signal not fired and nothing ready, nothing was heard.
    pub open spec fn listened(cancelled: bool, ready: Option<Delivery>) -> Option<BrowseEvent> {
        if cancelled {
            Some(BrowseEvent::Cancelled)
        } else {
            match ready {
                Some(Delivery::Event(event)) => Some(BrowseEvent::Received(event)),
                Some(Delivery::Failed { message, fatal }) => Some(
                    BrowseEvent::ReceiveFailed { message, fatal },
                ),
                None => None,
            }
        }
    }
}

/// Decides what a listener has heard: `cancelled` says whether the signal
/// has fired, `ready` what the transport has ready, if anything. Where both
/// are there the signal wins, and the event stays unhandled.
pub fn heard(cancelled: bool, ready: Option<Delivery>) -> (r: Option<BrowseEvent>)
    ensures
        r == BrowseEvent::listened(cancelled, ready),
{
    if cancelled {
        Some(BrowseEvent::Cancelled)
    } else {
        match ready {
            Some(Delivery::Event(event)) => Some(BrowseEvent::Received(event)),
            Some(Delivery::Failed { message, fatal }) => Some(
                BrowseEvent::ReceiveFailed { message, fatal },
            ),
            None => None,
        }
    }
}

/// One step of the browse task.
#[derive(Debug)]
pub struct BrowseStep {
    /// The state after the step.
    pub state: BrowseState,
    /// What to do in that state.
    pub action: BrowseAction,
    /// What handling the received event brought, where one was received.
    pub handled: Option<Handled>,
    /// A line of the task itself for the log, where the step has one: on
    /// cancellation, on ending, and on an error, which a received event
    /// that could not be handled is too.
    pub note: Option<LogLine>,
}

impl BrowseState {
    /// The state in which the task begins.
    pub open spec fn initial() -> BrowseState {
        BrowseState::Restricting
    }

    /// The state that follows `self` on `event`. An event that the state does
    /// not wait for changes nothing, and no event leads out of `Finished` or
    /// `Failed`. An
    /// event that was delivered never ends the task, whatever it holds; a
    /// refusal of the transport always does.
    pub open spec fn next(self, event: BrowseEvent) -> BrowseState {
        match (self, event) {
            (BrowseState::Restricting, BrowseEvent::Done) => BrowseState::Subscribing,
            (BrowseState::Subscribing, BrowseEvent::Done) => BrowseState::Listening,
            (BrowseState::Stopping, BrowseEvent::Done) => BrowseState::Finished,
            (BrowseState::Restricting, BrowseEvent::Refused(reason)) => BrowseState::Failed(
                Error::Discovery(reason),
            ),
            (BrowseState::Subscribing, BrowseEvent::Refused(reason)) => BrowseState::Failed(
                Error::Discovery(reason),
            ),
            (BrowseState::Stopping, BrowseEvent::Refused(reason)) => BrowseState::Failed(
                Error::Discovery(reason),
            ),
            (BrowseState::Listening, BrowseEvent::Cancelled) => BrowseState::Stopping,
            (BrowseState::Listening, BrowseEvent::ReceiveFailed { message, fatal }) => if fatal {
                BrowseState::Failed(Error::Discovery(message))
            } else {
                BrowseState::Listening
            },
            (state, _) => state,
        }
    }

    /// Whether `action` is what the caller does in this state, for the
    /// service type `domain`.
    pub open spec fn asks(self, action: BrowseAction, domain: Seq<char>) -> bool {
        match self {
            BrowseState::Restricting => action == BrowseAction::DisableIpv6,
            BrowseState::Subscribing => action matches BrowseAction::Browse(service_type)
                && service_type@ == domain,
            BrowseState::Listening => action == BrowseAction::Listen,
            BrowseState::Stopping => action matches BrowseAction::StopBrowse(service_type)
                && service_type@ == domain,
            BrowseState::Finished => action == BrowseAction::Return,
            BrowseState::Failed(_) => action == BrowseAction::Return,
        }
    }

    /// The line that the step from `self` on `event` leaves in the log, if
    /// any, for the service type `domain`.
    pub open spec fn notes(self, event: BrowseEvent, domain: Seq<char>) -> Option<
        (LogLevel, Seq<char>),
    > {
        match (self, event) {
            (BrowseState::Listening, BrowseEvent::Cancelled) => Some(
                (LogLevel::Debug, "Browse task received shutdown signal"@),
            ),
            (BrowseState::Stopping, BrowseEvent::Done) => Some(
                (LogLevel::Debug, "Stopped browsing for service type: "@ + domain),
            ),
            (BrowseState::Listening, BrowseEvent::ReceiveFailed { message, fatal }) => if fatal {
                None
            } else {
                Some((LogLevel::Error, "Error in browse loop: "@ + message@))
            },
            _ => None,
        }
    }

    /// The state in which the task begins.
    pub fn start() -> (r: Self)
        ensures
            r == Self::initial(),
    {
        BrowseState::Restricting
    }

    /// What the caller does in this state, for the service type `domain`.
    pub fn action(&self, domain: &str) -> (r: BrowseAction)
        ensures
            self.asks(r, domain@),
    {
        match self {
            BrowseState::Restricting => BrowseAction::DisableIpv6,
            BrowseState::Subscribing => BrowseAction::Browse(String::from_str(domain)),
            BrowseState::Listening => BrowseAction::Listen,
            BrowseState::Stopping => BrowseAction::StopBrowse(String::from_str(domain)),
            BrowseState::Finished => BrowseAction::Return,
            BrowseState::Failed(_) => BrowseAction::Return,
        }
    }
}

/// One step of the task that browses for the service type of `container`:
/// from the state that the task is in and what has happened since, to the
/// state that follows and what to do next. The caller begins in
/// `BrowseState::start()`, does what `action` says, comes back with the
/// outcome, and returns once the state is `Finished` or `Failed`.
/// `now` is the time of the step, in seconds since the epoch.
///
/// An event that was received is handled, and what that brought is in
/// `handled`; an error in it is for the log, where `note` puts it, and never
/// ends the task.
pub fn browse_loop(
    container: &ShutdownContainer,
    state: BrowseState,
    event: BrowseEvent,
    now: u64,
) -> (r: BrowseStep)
    ensures
        r.state == state.next(event),
        r.state.asks(r.action, container.domain@),
        match (state, event) {
            (BrowseState::Listening, BrowseEvent::Received(received)) => {
                &&& r.handled matches Some(handled) && answers(received, now, handled)
                &&& match r.handled->0.outcome {
                    Ok(_) => r.note is None,
                    Err(error) => r.note matches Some(line) && line.says(
                        LogLevel::Error,
                        "Error in browse loop: "@ + error.spec_message(),
                    ),
                }
            },
            _ => {
                &&& r.handled is None
                &&& match state.notes(event, container.domain@) {
                    Some((level, message)) => r.note matches Some(line) && line.says(
                        level,
                        message,
                    ),
                    None => r.note is None,
                }
            },
        },
{
    let mut handled: Option<Handled> = None;
    let mut note: Option<LogLine> = None;
    let next = match (state, event) {
        (BrowseState::Restricting, BrowseEvent::Done) => BrowseState::Subscribing,
        (BrowseState::Subscribing, BrowseEvent::Done) => BrowseState::Listening,
        (BrowseState::Stopping, BrowseEvent::Done) => {
            note = Some(
                LogLine::new(
                    LogLevel::Debug,
                    String::from_str("Stopped browsing for service type: ").concat(
                        container.domain.as_str(),
                    ),
                ),
            );
            BrowseState::Finished
        },
        (BrowseState::Restricting, BrowseEvent::Refused(reason)) => BrowseState::Failed(
            Error::Discovery(reason),
        ),
        (BrowseState::Subscribing, BrowseEvent::Refused(reason)) => BrowseState::Failed(
            Error::Discovery(reason),
        ),
        (BrowseState::Stopping, BrowseEvent::Refused(reason)) => BrowseState::Failed(
            Error::Discovery(reason),
        ),
        (BrowseState::Listening, BrowseEvent::Cancelled) => {
            note = Some(
                LogLine::new(
                    LogLevel::Debug,
                    String::from_str("Browse task received shutdown signal"),
                ),
            );
            BrowseState::Stopping
        },
        (BrowseState::Listening, BrowseEvent::Received(received)) => {
            let mut delegate = BrowserDelegate::new();
            let brought = delegate.handle_event(received, now);
            note = match &brought.outcome {
                Ok(_) => None,
                Err(error) => match delegate.handle_error(error.message()) {
                    Ok(line) => Some(line),
                    Err(_) => None,
                },
            };
            handled = Some(brought);
            BrowseState::Listening
        },
        (BrowseState::Listening, BrowseEvent::ReceiveFailed { message, fatal }) => {
            if fatal {
                BrowseState::Failed(Error::Discovery(message))
            } else {
                let delegate = BrowserDelegate::new();
                note = match delegate.handle_error(message) {
                    Ok(line) => Some(line),
                    Err(_) => None,
                };
                BrowseState::Listening
            }
        },
        (state, _) => state,
    };
    let action = next.action(container.domain.as_str());
    BrowseStep { state: next, action, handled, note }
}

/// A record without the property `node.id` gives no peer state: handling it
/// reports the missing identity, and the task goes on listening.
pub proof fn law_missing_identity_is_local(info: ServiceInfo, now: u64, handled: Handled)
    requires
        declared_node_id(info) is None,
        answers(DiscoveryEvent::ServiceResolved(info), now, handled),
    ensures
        handled.outcome == Err::<EventOutcome, Error>(Error::NodeIdMissing),
        BrowseState::Listening.next(BrowseEvent::Received(DiscoveryEvent::ServiceResolved(info)))
            == BrowseState::Listening,
{
}

/// A record without IPv4 address gives no peer state, whatever else it
/// holds: handling it is an error, never a state with a made-up address.
pub proof fn law_address_must_be_ipv4(info: ServiceInfo, now: u64, handled: Handled)
    requires
        record_addresses_v4(info) == Set::<Ipv4Address>::empty(),
        answers(DiscoveryEvent::ServiceResolved(info), now, handled),
    ensures
        handled.outcome is Err,
        declared_node_id(info) is Some ==> handled.outcome == Err::<EventOutcome, Error>(
            Error::AddressMissing,
        ),
{
}

/// A record with an identity and exactly one IPv4 address gives the state of
/// that peer: its identity, that address with the record's port, and the
/// time of the observation.
pub proof fn law_resolved_record_gives_state(
    info: ServiceInfo,
    now: u64,
    handled: Handled,
    id: Seq<char>,
    ip: Ipv4Address,
)
    requires
        declared_node_id(info) == Some(id),
        record_addresses_v4(info) == set![ip],
        answers(DiscoveryEvent::ServiceResolved(info), now, handled),
    ensures
        handled.outcome matches Ok(EventOutcome::Resolved(state)) && state@ == (NodeStateView {
            id,
            last_seen: now,
            address: SocketAddress { ip: IpAddress::V4(ip), port: record_port(info) },
        }),
{
    assert(set![ip].contains(ip));
}

/// No event that the transport delivers ends the task, and none makes it
/// fail.
pub proof fn law_events_never_end_the_task(state: BrowseState, received: DiscoveryEvent)
    ensures
        state.next(BrowseEvent::Received(received)) == state,
{
}

/// Cancellation ends the task cleanly, and it comes first: a listener that
/// finds the signal fired has heard the cancellation, whatever the transport
/// has ready; from `Listening` that leads to `Stopping`, with the ready
/// event unhandled, and from there the transport's consent leads to
/// `Finished`, which is a success.
pub proof fn law_cancellation_comes_first(ready: Option<Delivery>)
    ensures
        BrowseEvent::listened(true, ready) == Some(BrowseEvent::Cancelled),
        BrowseState::Listening.next(BrowseEvent::Cancelled) == BrowseState::Stopping,
        BrowseState::Stopping.next(BrowseEvent::Done) == BrowseState::Finished,
{
}

} // verus!
