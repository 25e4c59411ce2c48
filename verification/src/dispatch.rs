//! The accept and dispatch loop: what becomes of each stream event of the
//! virtual IP stack, and the record of the flows that came of them.
//!
//! Only TCP is relayed. An event of any other kind is dropped on the spot.
//! A TCP flow is dialled first; a forwarder is started for it only when the
//! dial went well. Whatever happens to one flow leaves every other flow,
//! and the loop itself, as they were.

use vstd::prelude::*;
use crate::addr::{FlowId, SocketAddress};
use crate::dial::DialStep;
use crate::forward::CloseReason;

verus! {

/// One event of the virtual IP stack.
#[derive(Clone, Copy, Debug, PartialEq, Eq, Structural)]
pub enum StreamEvent {
    /// A new TCP flow from `local` that was meant for `peer`.
    Tcp { local: SocketAddress, peer: SocketAddress },
    /// A UDP flow.
    Udp,
    /// A packet of a transport that the stack does not know.
    UnknownTransport,
    /// A packet of a network protocol that the stack does not know.
    UnknownNetwork,
}

/// Where a flow stands.
#[derive(Clone, Copy, Debug, PartialEq, Eq, Structural)]
pub enum ConnectionState {
    /// The relay is being dialled.
    Dialing,
    /// A forwarder relays the flow.
    Forwarding,
    /// The dial failed at this step; the flow was dropped.
    DialFailed(DialStep),
    /// The forwarder ended for this reason.
    Ended(CloseReason),
}

/// One flow and where it stands.
#[derive(Clone, Copy, Debug, PartialEq, Eq, Structural)]
pub struct Connection {
    pub flow: FlowId,
    pub state: ConnectionState,
}

/// What the loop does with a stream event.
#[derive(Clone, Copy, Debug, PartialEq, Eq, Structural)]
pub enum AcceptDecision {
    /// Dial the relay for the new flow, which has this number.
    Dial { connection: usize, flow: FlowId },
    /// Drop the event.
    Discard,
}

/// What the loop does when a dial has ended.
#[derive(Clone, Copy, Debug, PartialEq, Eq, Structural)]
pub enum DialDecision {
    /// Start a forwarder for the flow.
    Spawn { connection: usize, flow: FlowId },
    /// Close the captured stream and log one error for the flow.
    Drop { connection: usize, flow: FlowId, failed: DialStep },
    /// The number names no flow that is being dialled: do nothing.
    Ignore,
}

/// Something that happened to one flow.
#[derive(Clone, Copy, Debug)]
pub enum ConnectionEvent {
    /// Its dial ended, well or at the step given.
    Dialed(Result<(), DialStep>),
    /// Its forwarder ended.
    ForwarderEnded(CloseReason),
}

/// The state of the loop as a plain value.
pub struct DispatcherView {
    pub relay: SocketAddress,
    pub connections: Seq<Connection>,
    pub accepting: bool,
}

/// The flow that a stream event opens, if the loop takes it: only a TCP
/// event does, and only while the loop is accepting.
pub open spec fn accepted_flow(d: DispatcherView, event: StreamEvent) -> Option<FlowId> {
    match event {
        StreamEvent::Tcp { local, peer } => if d.accepting {
            Some(FlowId { local, peer })
        } else {
            None
        },
        _ => None,
    }
}

/// The loop after a stream event.
pub open spec fn after_stream(d: DispatcherView, event: StreamEvent) -> DispatcherView {
    match accepted_flow(d, event) {
        Some(flow) => DispatcherView {
            connections: d.connections.push(Connection { flow, state: ConnectionState::Dialing }),
            ..d
        },
        None => d,
    }
}

/// The decision on a stream event.
pub open spec fn accept_decision(d: DispatcherView, event: StreamEvent) -> AcceptDecision {
    match accepted_flow(d, event) {
        Some(flow) => AcceptDecision::Dial { connection: d.connections.len() as usize, flow },
        None => AcceptDecision::Discard,
    }
}

/// The state that `event` takes a flow in state `state` to, or `None`
/// where the event does not apply: a dial ends only for a flow that is
/// being dialled, a forwarder only for a flow that is being forwarded.
pub open spec fn next_state(state: ConnectionState, event: ConnectionEvent) -> Option<
    ConnectionState,
> {
    match (state, event) {
        (ConnectionState::Dialing, ConnectionEvent::Dialed(Ok(()))) => Some(
            ConnectionState::Forwarding,
        ),
        (ConnectionState::Dialing, ConnectionEvent::Dialed(Err(step))) => Some(
            ConnectionState::DialFailed(step),
        ),
        (ConnectionState::Forwarding, ConnectionEvent::ForwarderEnded(reason)) => Some(
            ConnectionState::Ended(reason),
        ),
        _ => None,
    }
}

/// Whether `event` applies to flow `connection` of the loop.
pub open spec fn applies(d: DispatcherView, connection: int, event: ConnectionEvent) -> bool {
    0 <= connection < d.connections.len() && next_state(d.connections[connection].state, event)
        is Some
}

/// The loop after `event` on flow `connection`.
pub open spec fn after_event(d: DispatcherView, connection: int, event: ConnectionEvent) -> DispatcherView {
    if applies(d, connection, event) {
        DispatcherView {
            connections: d.connections.update(
                connection,
                Connection {
                    flow: d.connections[connection].flow,
                    state: next_state(d.connections[connection].state, event)->0,
                },
            ),
            ..d
        }
    } else {
        d
    }
}

/// The decision when the dial of flow `connection` has ended.
pub open spec fn dial_decision(d: DispatcherView, connection: int, result: Result<(), DialStep>) -> DialDecision {
    if applies(d, connection, ConnectionEvent::Dialed(result)) {
        match result {
            Ok(()) => DialDecision::Spawn {
                connection: connection as usize,
                flow: d.connections[connection].flow,
            },
            Err(step) => DialDecision::Drop {
                connection: connection as usize,
                flow: d.connections[connection].flow,
                failed: step,
            },
        }
    } else {
        DialDecision::Ignore
    }
}

/// Whether a flow in this state still runs.
pub open spec fn is_active(state: ConnectionState) -> bool {
    state == ConnectionState::Dialing || state == ConnectionState::Forwarding
}

/// The accept and dispatch loop.
pub struct Dispatcher {
    relay: SocketAddress,
    connections: Vec<Connection>,
    accepting: bool,
}

impl View for Dispatcher {
    type V = DispatcherView;

    closed spec fn view(&self) -> DispatcherView {
        DispatcherView {
            relay: self.relay,
            connections: self.connections@,
            accepting: self.accepting,
        }
    }
}

impl Dispatcher {
    /// A loop that accepts, has seen no flow yet and sends every flow to
    /// `relay`.
    pub fn new(relay: SocketAddress) -> (d: Self)
        ensures
            d@ == (DispatcherView { relay, connections: Seq::empty(), accepting: true }),
    {
        Dispatcher { relay, connections: Vec::new(), accepting: true }
    }

    /// The address that every flow is relayed to.
    pub fn relay(&self) -> (relay: SocketAddress)
        ensures
            relay == self@.relay,
    {
        self.relay
    }

    /// Whether the event source is still open.
    pub fn is_accepting(&self) -> (r: bool)
        ensures
            r == self@.accepting,
    {
        self.accepting
    }

    /// The number of flows seen so far.
    pub fn len(&self) -> (n: usize)
        ensures
            n == self@.connections.len(),
    {
        self.connections.len()
    }

    /// Flow `connection`, if there is one.
    pub fn connection(&self, connection: usize) -> (c: Option<Connection>)
        ensures
            c == if connection < self@.connections.len() {
                Some(self@.connections[connection as int])
            } else {
                None
            },
    {
        if connection < self.connections.len() {
            Some(self.connections[connection])
        } else {
            None
        }
    }

    /// The number of flows that are being dialled or forwarded.
    pub fn active(&self) -> (n: usize)
        ensures
            n == self@.connections.filter(|c: Connection| is_active(c.state)).len(),
    {
        let mut n: usize = 0;
        let mut i: usize = 0;
        let ghost active = |c: Connection| is_active(c.state);
        while i < self.connections.len()
            invariant
                i <= self.connections.len(),
                n <= i,
                n == self.connections@.take(i as int).filter(active).len(),
                active == |c: Connection| is_active(c.state),
            decreases self.connections.len() - i,
        {
            proof {
                let next = self.connections@.take(i + 1);
                assert(next.drop_last() =~= self.connections@.take(i as int));
                reveal(Seq::filter);
            }
            let state = self.connections[i].state;
            if state == ConnectionState::Dialing || state == ConnectionState::Forwarding {
                n = n + 1;
            }
            i = i + 1;
        }
        assert(self.connections@.take(self.connections@.len() as int) =~= self.connections@);
        n
    }

    /// Takes one stream event. A TCP event opens a flow that is to be
    /// dialled; every other event is dropped and changes nothing.
    pub fn on_stream(&mut self, event: StreamEvent) -> (decision: AcceptDecision)
        ensures
            decision == accept_decision(old(self)@, event),
            final(self)@ == after_stream(old(self)@, event),
    {
        match event {
            StreamEvent::Tcp { local, peer } => {
                if self.accepting {
                    let flow = FlowId { local, peer };
                    let connection: usize = self.connections.len();
                    self.connections.push(Connection { flow, state: ConnectionState::Dialing });
                    AcceptDecision::Dial { connection, flow }
                } else {
                    AcceptDecision::Discard
                }
            },
            _ => AcceptDecision::Discard,
        }
    }

    /// Takes the end of the dial of flow `connection`. After a good dial a
    /// forwarder is started; after a failed one the flow is dropped, with
    /// one error to log. The loop goes on either way.
    pub fn on_dial_result(&mut self, connection: usize, result: Result<(), DialStep>) -> (decision:
        DialDecision)
        ensures
            decision == dial_decision(old(self)@, connection as int, result),
            final(self)@ == after_event(
                old(self)@,
                connection as int,
                ConnectionEvent::Dialed(result),
            ),
    {
        if connection < self.connections.len() && self.connections[connection].state
            == ConnectionState::Dialing {
            let flow = self.connections[connection].flow;
            match result {
                Ok(()) => {
                    self.connections.set(
                        connection,
                        Connection { flow, state: ConnectionState::Forwarding },
                    );
                    DialDecision::Spawn { connection, flow }
                },
                Err(step) => {
                    self.connections.set(
                        connection,
                        Connection { flow, state: ConnectionState::DialFailed(step) },
                    );
                    DialDecision::Drop { connection, flow, failed: step }
                },
            }
        } else {
            DialDecision::Ignore
        }
    }

    /// Takes the end of the forwarder of flow `connection`. The result
    /// tells whether the number named a flow that was being forwarded.
    pub fn on_forwarder_end(&mut self, connection: usize, reason: CloseReason) -> (recorded: bool)
        ensures
            recorded == applies(
                old(self)@,
                connection as int,
                ConnectionEvent::ForwarderEnded(reason),
            ),
            final(self)@ == after_event(
                old(self)@,
                connection as int,
                ConnectionEvent::ForwarderEnded(reason),
            ),
    {
        if connection < self.connections.len() && self.connections[connection].state
            == ConnectionState::Forwarding {
            let flow = self.connections[connection].flow;
            self.connections.set(
                connection,
                Connection { flow, state: ConnectionState::Ended(reason) },
            );
            true
        } else {
            false
        }
    }

    /// Takes the end of the event source. The loop accepts nothing more;
    /// the flows that run are left to end by themselves.
    pub fn on_source_end(&mut self)
        ensures
            final(self)@ == (DispatcherView { accepting: false, ..old(self)@ }),
    {
        self.accepting = false;
    }
}

/// Whatever happens to one flow, a failure included, changes neither any
/// other flow nor whether the loop accepts, and adds or removes no flow.
pub proof fn lemma_flows_are_isolated(
    d: DispatcherView,
    connection: int,
    event: ConnectionEvent,
    other: int,
)
    requires
        0 <= other < d.connections.len(),
        other != connection,
    ensures
        after_event(d, connection, event).connections.len() == d.connections.len(),
        after_event(d, connection, event).connections[other] == d.connections[other],
        after_event(d, connection, event).accepting == d.accepting,
        after_event(d, connection, event).relay == d.relay,
{
}

/// One thing that the loop takes note of.
pub enum LoopEvent {
    /// The stack handed out a stream event.
    Stream(StreamEvent),
    /// Something happened to the flow with this number.
    Flow(int, ConnectionEvent),
}

/// The loop after one event.
pub open spec fn after_loop_event(d: DispatcherView, event: LoopEvent) -> DispatcherView {
    match event {
        LoopEvent::Stream(stream) => after_stream(d, stream),
        LoopEvent::Flow(connection, e) => after_event(d, connection, e),
    }
}

/// The loop after a run of events.
pub open spec fn after_loop_events(d: DispatcherView, events: Seq<LoopEvent>) -> DispatcherView
    decreases events.len(),
{
    if events.len() == 0 {
        d
    } else {
        after_loop_event(after_loop_events(d, events.drop_last()), events.last())
    }
}

/// Whether no event of the run is about flow `connection`.
pub open spec fn leaves_out(events: Seq<LoopEvent>, connection: int) -> bool {
    forall|i: int|
        0 <= i < events.len() ==> match #[trigger] events[i] {
            LoopEvent::Stream(_) => true,
            LoopEvent::Flow(c, _) => c != connection,
        }
}

/// However many flows come, fail and end, in whatever order: a flow that
/// none of the events is about stays exactly as it was, and the loop goes
/// on accepting if it did.
pub proof fn lemma_other_flows_never_touch_a_flow(
    d: DispatcherView,
    events: Seq<LoopEvent>,
    connection: int,
)
    requires
        0 <= connection < d.connections.len(),
        leaves_out(events, connection),
    ensures
        after_loop_events(d, events).connections.len() >= d.connections.len(),
        after_loop_events(d, events).connections[connection] == d.connections[connection],
        after_loop_events(d, events).accepting == d.accepting,
    decreases events.len(),
{
    if events.len() > 0 {
        let before = events.drop_last();
        assert forall|i: int| 0 <= i < before.len() implies match #[trigger] before[i] {
            LoopEvent::Stream(_) => true,
            LoopEvent::Flow(c, _) => c != connection,
        } by {
            assert(before[i] == events[i]);
        }
        lemma_other_flows_never_touch_a_flow(d, before, connection);
        assert(events[events.len() - 1] == events.last());
    }
}

/// A stream event that is not TCP leads to no dial and no flow: the loop
/// is after it as it was before.
pub proof fn lemma_only_tcp_is_served(d: DispatcherView, event: StreamEvent)
    requires
        !(event is Tcp),
    ensures
        accept_decision(d, event) == AcceptDecision::Discard,
        after_stream(d, event) == d,
{
}

/// A new flow leaves the flows before it as they were.
pub proof fn lemma_accept_keeps_flows(d: DispatcherView, event: StreamEvent, other: int)
    requires
        0 <= other < d.connections.len(),
    ensures
        after_stream(d, event).connections[other] == d.connections[other],
        after_stream(d, event).accepting == d.accepting,
{
}

} // verus!
