use flags::error::Error;
use flags::log::{LogLevel, LogLine};
use flags::mdns::browser::{
    browse_loop, heard, node_id_from_property, socket_addr_from_parts, BrowseAction,
    BrowseEvent, BrowseState, BrowserDelegate, Delivery, DiscoveryEvent, EventOutcome, Handled,
    ServiceInfoExt,
};
use flags::net::{IpAddress, Ipv4Address, SocketAddress};
use flags::node::{NodeId, NodeState};
use flags::shutdown::container::{ClientSettings, ShutdownContainer};
use mdns_sd::ServiceInfo;

const DOMAIN: &str = "_flags._tcp.local.";

fn record(ip: &str, port: u16, properties: &[(&str, &str)]) -> ServiceInfo {
    ServiceInfo::new(DOMAIN, "abc", "abc.local.", ip, port, properties).unwrap()
}

fn container() -> ShutdownContainer {
    ShutdownContainer::new(
        String::from(DOMAIN),
        record("10.0.0.1", 1, &[("node.id", "self")]),
        ClientSettings::new(),
    )
}

fn line(level: LogLevel, message: &str) -> LogLine {
    LogLine::new(level, String::from(message))
}

#[test]
fn resolved_record_gives_node_state() {
    let info = record("10.0.0.5", 9000, &[("node.id", "abc")]);
    let mut delegate = BrowserDelegate::new();
    let state = delegate.did_resolve_service(info, 1_700_000_000).unwrap();
    assert_eq!(state.id().as_str(), "abc");
    assert_eq!(
        state.address(),
        &SocketAddress::new(IpAddress::V4(Ipv4Address::new(10, 0, 0, 5)), 9000)
    );
    assert_eq!(state.last_seen(), 1_700_000_000);
    assert_eq!(state.ip(), Ok(Ipv4Address::new(10, 0, 0, 5)));
    assert_eq!(state.port(), 9000);
}

#[test]
fn record_without_node_id_is_an_error() {
    let info = record("10.0.0.5", 9000, &[("other", "abc")]);
    assert_eq!(info.get_node_id(), Err(Error::NodeIdMissing));
    let mut delegate = BrowserDelegate::new();
    assert_eq!(delegate.did_resolve_service(info, 5), Err(Error::NodeIdMissing));
}

#[test]
fn record_without_node_id_does_not_end_the_loop() {
    let info = record("10.0.0.5", 9000, &[]);
    let step = browse_loop(
        &container(),
        BrowseState::Listening,
        BrowseEvent::Received(DiscoveryEvent::ServiceResolved(info)),
        5,
    );
    assert_eq!(step.state, BrowseState::Listening);
    assert_eq!(step.action, BrowseAction::Listen);
    let handled = step.handled.unwrap();
    assert_eq!(handled.outcome, Err(Error::NodeIdMissing));
    assert_eq!(handled.note.level, LogLevel::Debug);
    assert!(handled.note.message.starts_with("Resolved service: ServiceInfo {"));
    assert_eq!(
        step.note,
        Some(line(
            LogLevel::Error,
            "Error in browse loop: Node ID not found in service properties"
        ))
    );
}

#[test]
fn record_without_ipv4_address_does_not_end_the_loop() {
    let info = record("::1", 9000, &[("node.id", "abc")]);
    let step = browse_loop(
        &container(),
        BrowseState::Listening,
        BrowseEvent::Received(DiscoveryEvent::ServiceResolved(info)),
        5,
    );
    assert_eq!(step.state, BrowseState::Listening);
    assert_eq!(step.handled.unwrap().outcome, Err(Error::AddressMissing));
    assert_eq!(
        step.note,
        Some(line(LogLevel::Error, "Error in browse loop: IP address not found in service info"))
    );
}

#[test]
fn record_with_ipv6_only_has_no_socket_address() {
    let info = record("::1", 9000, &[("node.id", "abc")]);
    assert_eq!(info.get_node_id(), Ok(NodeId::new("abc")));
    assert_eq!(info.get_socket_addr(), Err(Error::AddressMissing));
    let mut delegate = BrowserDelegate::new();
    assert_eq!(delegate.did_resolve_service(info, 5), Err(Error::AddressMissing));
}

#[test]
fn record_without_identity_and_address_lacks_the_identity_first() {
    let info = record("::1", 9000, &[]);
    let mut delegate = BrowserDelegate::new();
    assert_eq!(delegate.did_resolve_service(info, 5), Err(Error::NodeIdMissing));
}

#[test]
fn record_with_both_families_uses_ipv4() {
    let info = record("fe80::1,10.0.0.7", 81, &[("node.id", "n")]);
    assert_eq!(
        info.get_socket_addr(),
        Ok(SocketAddress::new(IpAddress::V4(Ipv4Address::new(10, 0, 0, 7)), 81))
    );
}

#[test]
fn record_with_two_ipv4_addresses_uses_one_of_them() {
    let info = record("10.0.0.7,10.0.0.8", 81, &[("node.id", "n")]);
    let address = info.get_socket_addr().unwrap();
    assert_eq!(address.port, 81);
    assert!(
        address.ip == IpAddress::V4(Ipv4Address::new(10, 0, 0, 7))
            || address.ip == IpAddress::V4(Ipv4Address::new(10, 0, 0, 8))
    );
}

#[test]
fn node_id_is_read_among_other_properties() {
    let info = record(
        "10.0.0.5",
        9000,
        &[("node.ip", "10.0.0.5"), ("node.id", "abc"), ("node.port", "9000")],
    );
    assert_eq!(info.get_node_id(), Ok(NodeId::new("abc")));
}

#[test]
fn node_id_from_property_value() {
    assert_eq!(node_id_from_property(Some(String::from("abc"))), Ok(NodeId::new("abc")));
    assert_eq!(node_id_from_property(Some(String::new())), Ok(NodeId::new("")));
    assert_eq!(node_id_from_property(None), Err(Error::NodeIdMissing));
}

#[test]
fn socket_address_from_addresses_and_port() {
    let first = Ipv4Address::new(10, 0, 0, 5);
    let second = Ipv4Address::new(10, 0, 0, 6);
    assert_eq!(
        socket_addr_from_parts(&vec![first, second], 9000),
        Ok(SocketAddress::new(IpAddress::V4(first), 9000))
    );
    assert_eq!(socket_addr_from_parts(&vec![], 9000), Err(Error::AddressMissing));
}

#[test]
fn events_without_effect_leave_a_line() {
    let delegate = BrowserDelegate::new();
    assert_eq!(
        delegate.did_start_search(String::from(DOMAIN)),
        line(LogLevel::Trace, "Started browsing for services of type: _flags._tcp.local.")
    );
    assert_eq!(
        delegate.did_find_service(String::from(DOMAIN), String::from("abc._flags._tcp.local.")),
        Ok(line(
            LogLevel::Debug,
            "Found service of type _flags._tcp.local.: abc._flags._tcp.local."
        ))
    );
    assert_eq!(
        delegate.did_stop_search(String::from(DOMAIN)),
        line(LogLevel::Debug, "Stopped browsing for services of type: _flags._tcp.local.")
    );
    assert_eq!(
        delegate.handle_error(String::from("channel closed")),
        Ok(line(LogLevel::Error, "Error in browse loop: channel closed"))
    );
}

#[test]
fn removed_service_names_the_peer() {
    let delegate = BrowserDelegate::new();
    assert_eq!(
        delegate.did_remove_service(String::from(DOMAIN), String::from("abc")),
        Ok(NodeId::new("abc"))
    );
}

#[test]
fn handle_event_goes_by_the_kind_of_event() {
    let mut delegate = BrowserDelegate::new();
    assert_eq!(
        delegate.handle_event(DiscoveryEvent::SearchStarted(String::from("t")), 1),
        Handled {
            note: line(LogLevel::Trace, "Started browsing for services of type: t"),
            outcome: Ok(EventOutcome::Noted),
        }
    );
    assert_eq!(
        delegate
            .handle_event(DiscoveryEvent::ServiceFound(String::from("t"), String::from("n")), 1),
        Handled {
            note: line(LogLevel::Debug, "Found service of type t: n"),
            outcome: Ok(EventOutcome::Noted),
        }
    );
    assert_eq!(
        delegate.handle_event(DiscoveryEvent::SearchStopped(String::from("t")), 1),
        Handled {
            note: line(LogLevel::Debug, "Stopped browsing for services of type: t"),
            outcome: Ok(EventOutcome::Noted),
        }
    );
    assert_eq!(
        delegate
            .handle_event(DiscoveryEvent::ServiceRemoved(String::from("t"), String::from("n")), 1),
        Handled {
            note: line(LogLevel::Debug, "Removed service of type t: n"),
            outcome: Ok(EventOutcome::Removed(NodeId::new("n"))),
        }
    );
    let info = record("10.0.0.5", 9000, &[("node.id", "abc")]);
    let handled = delegate.handle_event(DiscoveryEvent::ServiceResolved(info), 77);
    assert_eq!(
        handled.outcome,
        Ok(EventOutcome::Resolved(NodeState::new(
            &NodeId::new("abc"),
            77,
            SocketAddress::new(IpAddress::V4(Ipv4Address::new(10, 0, 0, 5)), 9000)
        )))
    );
    assert_eq!(handled.note.level, LogLevel::Debug);
    assert!(handled.note.message.starts_with("Resolved service: ServiceInfo {"));
    assert!(handled.note.message.contains("abc._flags._tcp.local."));
    assert!(handled.note.message.contains("9000"));
}

#[test]
fn lines_for_found_resolved_and_removed_instances() {
    let delegate = BrowserDelegate::new();
    assert_eq!(delegate.note_found("t", "n"), line(LogLevel::Debug, "Found service of type t: n"));
    assert_eq!(
        delegate.note_removed("t", "n"),
        line(LogLevel::Debug, "Removed service of type t: n")
    );
    let info = record("10.0.0.5", 9000, &[("node.id", "abc")]);
    let resolved = delegate.note_resolved(&info);
    assert_eq!(resolved.level, LogLevel::Debug);
    assert_eq!(resolved.message, format!("Resolved service: {:?}", info));
    assert_eq!(
        delegate.note_written("ServiceInfo { .. }"),
        line(LogLevel::Debug, "Resolved service: ServiceInfo { .. }")
    );
}

#[test]
fn fired_signal_comes_before_a_ready_event() {
    let info = record("10.0.0.5", 9000, &[]);
    let ready = Some(Delivery::Event(DiscoveryEvent::ServiceResolved(info)));
    let event = heard(true, ready).unwrap();
    assert!(matches!(event, BrowseEvent::Cancelled));

    let container = container();
    let step = browse_loop(&container, BrowseState::Listening, event, 1);
    assert_eq!(step.state, BrowseState::Stopping);
    assert_eq!(step.action, BrowseAction::StopBrowse(String::from(DOMAIN)));
    assert_eq!(step.handled, None);
    let step = browse_loop(&container, step.state, BrowseEvent::Done, 2);
    assert_eq!(step.state, BrowseState::Finished);
    assert_eq!(step.action, BrowseAction::Return);
    assert_eq!(step.handled, None);
}

#[test]
fn listener_hears_what_is_ready() {
    assert!(matches!(heard(true, None), Some(BrowseEvent::Cancelled)));
    let failed = Some(Delivery::Failed { message: String::from("x"), fatal: true });
    assert!(matches!(heard(true, failed), Some(BrowseEvent::Cancelled)));
    assert!(heard(false, None).is_none());
    let ready = Some(Delivery::Event(DiscoveryEvent::SearchStarted(String::from("t"))));
    match heard(false, ready) {
        Some(BrowseEvent::Received(DiscoveryEvent::SearchStarted(service_type))) => {
            assert_eq!(service_type, "t")
        },
        other => panic!("{:?}", other),
    }
    let failed = Some(Delivery::Failed { message: String::from("x"), fatal: false });
    match heard(false, failed) {
        Some(BrowseEvent::ReceiveFailed { message, fatal }) => {
            assert_eq!(message, "x");
            assert!(!fatal);
        },
        other => panic!("{:?}", other),
    }
}

#[test]
fn browse_task_starts_listens_and_stops() {
    let container = container();
    let state = BrowseState::start();
    assert_eq!(state, BrowseState::Restricting);
    assert_eq!(state.action(DOMAIN), BrowseAction::DisableIpv6);

    let step = browse_loop(&container, state, BrowseEvent::Done, 1);
    assert_eq!(step.state, BrowseState::Subscribing);
    assert_eq!(step.action, BrowseAction::Browse(String::from(DOMAIN)));
    assert_eq!(step.handled, None);
    assert_eq!(step.note, None);

    let step = browse_loop(&container, step.state, BrowseEvent::Done, 2);
    assert_eq!(step.state, BrowseState::Listening);
    assert_eq!(step.action, BrowseAction::Listen);

    let info = record("10.0.0.5", 9000, &[("node.id", "abc")]);
    let event = BrowseEvent::Received(DiscoveryEvent::ServiceResolved(info));
    let step = browse_loop(&container, step.state, event, 3);
    assert_eq!(step.state, BrowseState::Listening);
    assert_eq!(step.action, BrowseAction::Listen);
    assert_eq!(
        step.handled.unwrap().outcome,
        Ok(EventOutcome::Resolved(NodeState::new(
            &NodeId::new("abc"),
            3,
            SocketAddress::new(IpAddress::V4(Ipv4Address::new(10, 0, 0, 5)), 9000)
        )))
    );
    assert_eq!(step.note, None);

    let step = browse_loop(&container, step.state, BrowseEvent::Cancelled, 4);
    assert_eq!(step.state, BrowseState::Stopping);
    assert_eq!(step.action, BrowseAction::StopBrowse(String::from(DOMAIN)));
    assert_eq!(step.note, Some(line(LogLevel::Debug, "Browse task received shutdown signal")));

    let step = browse_loop(&container, step.state, BrowseEvent::Done, 5);
    assert_eq!(step.state, BrowseState::Finished);
    assert_eq!(step.action, BrowseAction::Return);
    assert_eq!(
        step.note,
        Some(line(LogLevel::Debug, "Stopped browsing for service type: _flags._tcp.local."))
    );
}

#[test]
fn refusal_of_the_transport_fails_the_task() {
    let container = container();
    for state in [BrowseState::Restricting, BrowseState::Subscribing, BrowseState::Stopping] {
        let step = browse_loop(&container, state, BrowseEvent::Refused(String::from("no")), 1);
        assert_eq!(step.state, BrowseState::Failed(Error::Discovery(String::from("no"))));
        assert_eq!(step.action, BrowseAction::Return);
        assert_eq!(step.handled, None);
    }
}

#[test]
fn receive_error_is_logged_unless_fatal() {
    let container = container();
    let event = BrowseEvent::ReceiveFailed { message: String::from("hiccup"), fatal: false };
    let step = browse_loop(&container, BrowseState::Listening, event, 1);
    assert_eq!(step.state, BrowseState::Listening);
    assert_eq!(step.action, BrowseAction::Listen);
    assert_eq!(step.note, Some(line(LogLevel::Error, "Error in browse loop: hiccup")));

    let event = BrowseEvent::ReceiveFailed { message: String::from("closed"), fatal: true };
    let step = browse_loop(&container, BrowseState::Listening, event, 1);
    assert_eq!(step.state, BrowseState::Failed(Error::Discovery(String::from("closed"))));
    assert_eq!(step.action, BrowseAction::Return);
    assert_eq!(step.note, None);
}

#[test]
fn event_that_a_state_does_not_wait_for_changes_nothing() {
    let container = container();
    let step = browse_loop(&container, BrowseState::Restricting, BrowseEvent::Cancelled, 1);
    assert_eq!(step.state, BrowseState::Restricting);
    assert_eq!(step.action, BrowseAction::DisableIpv6);
    let step = browse_loop(&container, BrowseState::Finished, BrowseEvent::Done, 1);
    assert_eq!(step.state, BrowseState::Finished);
    let failed = BrowseState::Failed(Error::Discovery(String::from("x")));
    let step = browse_loop(&container, failed.clone(), BrowseEvent::Cancelled, 1);
    assert_eq!(step.state, failed);
    let event = BrowseEvent::Received(DiscoveryEvent::SearchStarted(String::from("t")));
    let step = browse_loop(&container, BrowseState::Stopping, event, 1);
    assert_eq!(step.state, BrowseState::Stopping);
    assert_eq!(step.handled, None);
}
