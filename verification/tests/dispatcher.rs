use tunrelay::addr::{FlowId, Ipv4Address, SocketAddress};
use tunrelay::dial::{resolve_binding, BindingMethod, DialAttempt, DialStep, OutboundBinding};
use tunrelay::dispatch::{
    AcceptDecision, Connection, ConnectionState, DialDecision, Dispatcher, StreamEvent,
};
use tunrelay::forward::{CloseReason, ForwardStep, Forwarder, ReadOutcome, Side};

fn sock(a: u8, b: u8, c: u8, d: u8, port: u16) -> SocketAddress {
    SocketAddress { ip: Ipv4Address::from_octets(a, b, c, d), port }
}

fn relay_address() -> SocketAddress {
    sock(101, 35, 230, 139, 8080)
}

fn tcp(port: u16) -> StreamEvent {
    StreamEvent::Tcp { local: sock(10, 0, 0, 1, port), peer: sock(93, 184, 216, 34, 443) }
}

fn flow(port: u16) -> FlowId {
    FlowId { local: sock(10, 0, 0, 1, port), peer: sock(93, 184, 216, 34, 443) }
}

#[test]
fn a_new_dispatcher_accepts_and_has_no_flow() {
    let d = Dispatcher::new(relay_address());
    assert_eq!(d.relay(), relay_address());
    assert!(d.is_accepting());
    assert_eq!(d.len(), 0);
    assert_eq!(d.active(), 0);
    assert_eq!(d.connection(0), None);
}

#[test]
fn tcp_flow_is_dialled_once_and_relayed_both_ways() {
    let binding = resolve_binding(BindingMethod::DeviceName, Some(2), Some("eth0".to_string()));
    assert_eq!(binding, Ok(OutboundBinding::DeviceName("eth0".to_string())));

    let mut d = Dispatcher::new(relay_address());
    let decision = d.on_stream(tcp(55000));
    assert_eq!(decision, AcceptDecision::Dial { connection: 0, flow: flow(55000) });
    assert_eq!(d.len(), 1);
    assert_eq!(
        d.connection(0),
        Some(Connection { flow: flow(55000), state: ConnectionState::Dialing })
    );

    // One dial: open, bind, non-blocking, connect to the relay.
    let mut attempt = DialAttempt::new();
    let mut steps = Vec::new();
    while let Some(step) = attempt.next_step() {
        steps.push(step);
        attempt.record(true);
    }
    assert_eq!(
        steps,
        vec![DialStep::OpenSocket, DialStep::Bind, DialStep::SetNonBlocking, DialStep::Connect]
    );
    assert_eq!(d.relay().ip.octets(), [101, 35, 230, 139]);
    assert_eq!(d.relay().port, 8080);

    let decision = d.on_dial_result(0, attempt.result().unwrap());
    assert_eq!(decision, DialDecision::Spawn { connection: 0, flow: flow(55000) });
    assert_eq!(d.connection(0).unwrap().state, ConnectionState::Forwarding);
    assert_eq!(d.len(), 1);

    let mut f = Forwarder::new(flow(55000), None);
    let request = b"\x16\x03\x01 hello".to_vec();
    assert_eq!(
        f.on_read(Side::Tun, ReadOutcome::Data(request.clone())),
        ForwardStep::Write { to: Side::Relay, bytes: request }
    );
    assert_eq!(f.on_write(Side::Relay, true), ForwardStep::Continue);
    let answer = b"\x16\x03\x03 welcome".to_vec();
    assert_eq!(
        f.on_read(Side::Relay, ReadOutcome::Data(answer.clone())),
        ForwardStep::Write { to: Side::Tun, bytes: answer }
    );
    assert_eq!(f.on_write(Side::Tun, true), ForwardStep::Continue);
}

#[test]
fn udp_event_leads_to_no_dial_and_no_forwarder() {
    let mut d = Dispatcher::new(relay_address());
    assert_eq!(d.on_stream(StreamEvent::Udp), AcceptDecision::Discard);
    assert_eq!(d.len(), 0);
    assert_eq!(d.active(), 0);
    assert!(d.is_accepting());
}

#[test]
fn unknown_events_are_dropped() {
    let mut d = Dispatcher::new(relay_address());
    assert_eq!(d.on_stream(StreamEvent::UnknownTransport), AcceptDecision::Discard);
    assert_eq!(d.on_stream(StreamEvent::UnknownNetwork), AcceptDecision::Discard);
    assert_eq!(d.len(), 0);
    assert_eq!(d.on_stream(tcp(1)), AcceptDecision::Dial { connection: 0, flow: flow(1) });
}

#[test]
fn failed_bind_drops_the_flow_and_the_loop_goes_on() {
    let mut d = Dispatcher::new(relay_address());
    assert_eq!(d.on_stream(tcp(50001)), AcceptDecision::Dial { connection: 0, flow: flow(50001) });

    let mut attempt = DialAttempt::new();
    assert_eq!(attempt.next_step(), Some(DialStep::OpenSocket));
    attempt.record(true);
    assert_eq!(attempt.next_step(), Some(DialStep::Bind));
    attempt.record(false);
    assert_eq!(attempt.next_step(), None);
    assert_eq!(attempt.result(), Some(Err(DialStep::Bind)));

    let decision = d.on_dial_result(0, attempt.result().unwrap());
    assert_eq!(
        decision,
        DialDecision::Drop { connection: 0, flow: flow(50001), failed: DialStep::Bind }
    );
    assert_eq!(d.connection(0).unwrap().state, ConnectionState::DialFailed(DialStep::Bind));
    // One report only: a second one for the same flow is ignored.
    assert_eq!(d.on_dial_result(0, Err(DialStep::Bind)), DialDecision::Ignore);
    assert_eq!(d.active(), 0);

    assert!(d.is_accepting());
    assert_eq!(d.on_stream(tcp(50002)), AcceptDecision::Dial { connection: 1, flow: flow(50002) });
    assert_eq!(d.on_dial_result(1, Ok(())), DialDecision::Spawn { connection: 1, flow: flow(50002) });
    assert_eq!(d.active(), 1);
}

#[test]
fn what_happens_to_one_flow_leaves_the_others_alone() {
    let mut d = Dispatcher::new(relay_address());
    for port in [1000, 1001, 1002, 1003] {
        d.on_stream(tcp(port));
    }
    d.on_dial_result(0, Ok(()));
    d.on_dial_result(1, Ok(()));
    d.on_dial_result(2, Ok(()));
    let before: Vec<Connection> = (0..4).map(|i| d.connection(i).unwrap()).collect();

    assert!(d.on_forwarder_end(1, CloseReason::ReadFailed(Side::Relay)));
    assert_eq!(d.on_dial_result(3, Err(DialStep::Connect)),
        DialDecision::Drop { connection: 3, flow: flow(1003), failed: DialStep::Connect });

    assert_eq!(d.connection(0), Some(before[0]));
    assert_eq!(d.connection(2), Some(before[2]));
    assert_eq!(
        d.connection(1).unwrap().state,
        ConnectionState::Ended(CloseReason::ReadFailed(Side::Relay))
    );
    assert_eq!(d.connection(3).unwrap().state, ConnectionState::DialFailed(DialStep::Connect));
    assert_eq!(d.len(), 4);
    assert_eq!(d.active(), 2);
    assert!(d.is_accepting());

    assert!(d.on_forwarder_end(0, CloseReason::EndOfStream(Side::Tun)));
    assert_eq!(d.connection(2), Some(before[2]));
    assert_eq!(d.active(), 1);
}

#[test]
fn events_for_flows_that_are_not_there_change_nothing() {
    let mut d = Dispatcher::new(relay_address());
    d.on_stream(tcp(1));
    assert_eq!(d.on_dial_result(5, Ok(())), DialDecision::Ignore);
    assert!(!d.on_forwarder_end(5, CloseReason::EndOfStream(Side::Tun)));
    // A flow that is still being dialled has no forwarder to end.
    assert!(!d.on_forwarder_end(0, CloseReason::EndOfStream(Side::Tun)));
    assert_eq!(d.connection(0).unwrap().state, ConnectionState::Dialing);
    d.on_dial_result(0, Ok(()));
    assert_eq!(d.on_dial_result(0, Ok(())), DialDecision::Ignore);
    assert!(d.on_forwarder_end(0, CloseReason::EndOfStream(Side::Tun)));
    assert!(!d.on_forwarder_end(0, CloseReason::ReadFailed(Side::Tun)));
    assert_eq!(
        d.connection(0).unwrap().state,
        ConnectionState::Ended(CloseReason::EndOfStream(Side::Tun))
    );
}

#[test]
fn nothing_is_accepted_after_the_source_ended() {
    let mut d = Dispatcher::new(relay_address());
    d.on_stream(tcp(1));
    d.on_dial_result(0, Ok(()));
    d.on_source_end();
    assert!(!d.is_accepting());
    assert_eq!(d.on_stream(tcp(2)), AcceptDecision::Discard);
    assert_eq!(d.len(), 1);
    // The flow that runs is left to end by itself.
    assert_eq!(d.connection(0).unwrap().state, ConnectionState::Forwarding);
    assert_eq!(d.active(), 1);
}
