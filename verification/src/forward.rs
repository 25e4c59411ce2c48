//! The connection forwarder: what to do with each read and each write of
//! one relayed flow.
//!
//! A flow has two sides, the capture side and the relay side. Whatever is
//! read on one side is written to the other, unchanged and in the order in
//! which it was read, until a read returns nothing, a read or a write
//! fails, or a read times out. Any of these ends the whole flow, not just
//! one direction of it.

use vstd::prelude::*;
use crate::addr::FlowId;

verus! {

/// The least size of the buffer that one read fills, in bytes.
pub const MIN_BUFFER_SIZE: usize = 1500;

/// One end of a relayed flow.
#[derive(Clone, Copy, Debug, PartialEq, Eq, Structural)]
pub enum Side {
    /// The stream that the virtual IP stack rebuilt from captured packets.
    Tun,
    /// The socket that was dialled to the relay.
    Relay,
}

/// Why a flow ended.
#[derive(Clone, Copy, Debug, PartialEq, Eq, Structural)]
pub enum CloseReason {
    /// A read on this side returned no bytes: the stream is at its end.
    EndOfStream(Side),
    /// A read on this side failed.
    ReadFailed(Side),
    /// A write to this side failed.
    WriteFailed(Side),
    /// A read on this side did not finish within the idle timeout.
    TimedOut(Side),
}

/// How the error of a closed flow is classified.
#[derive(Clone, Copy, Debug, PartialEq, Eq, Structural)]
pub enum ErrorClass {
    NotConnected,
    Io,
}

/// How one read ended.
#[derive(Debug, PartialEq, Eq)]
pub enum ReadOutcome {
    /// The read returned these bytes; none at all at the end of the stream.
    Data(Vec<u8>),
    /// The read failed.
    Failed,
    /// The idle timeout passed before the read returned.
    TimedOut,
}

/// What the caller does next for its flow.
#[derive(Debug, PartialEq, Eq)]
pub enum ForwardStep {
    /// Write all of these bytes to this side, then report how the write
    /// ended.
    Write { to: Side, bytes: Vec<u8> },
    /// Go on reading.
    Continue,
    /// Close both sides: the flow has ended, for this reason.
    Close(CloseReason),
    /// The flow had ended before; there is nothing to do.
    Stopped,
}

/// `ReadOutcome` with its bytes as a sequence.
pub enum ReadOutcomeView {
    Data(Seq<u8>),
    Failed,
    TimedOut,
}

/// `ForwardStep` with its bytes as a sequence.
pub enum ForwardStepView {
    Write { to: Side, bytes: Seq<u8> },
    Continue,
    Close(CloseReason),
    Stopped,
}

impl View for ReadOutcome {
    type V = ReadOutcomeView;

    open spec fn view(&self) -> ReadOutcomeView {
        match self {
            ReadOutcome::Data(bytes) => ReadOutcomeView::Data(bytes@),
            ReadOutcome::Failed => ReadOutcomeView::Failed,
            ReadOutcome::TimedOut => ReadOutcomeView::TimedOut,
        }
    }
}

impl View for ForwardStep {
    type V = ForwardStepView;

    open spec fn view(&self) -> ForwardStepView {
        match self {
            ForwardStep::Write { to, bytes } => ForwardStepView::Write { to: *to, bytes: bytes@ },
            ForwardStep::Continue => ForwardStepView::Continue,
            ForwardStep::Close(reason) => ForwardStepView::Close(*reason),
            ForwardStep::Stopped => ForwardStepView::Stopped,
        }
    }
}

/// One event of a flow, as the forwarder sees it.
pub enum FlowEvent {
    /// A read on `from` ended with `outcome`.
    Read { from: Side, outcome: ReadOutcomeView },
    /// A write to `to` ended well or not.
    Written { to: Side, ok: bool },
}

/// The side opposite to `side`.
pub open spec fn other_side(side: Side) -> Side {
    match side {
        Side::Tun => Side::Relay,
        Side::Relay => Side::Tun,
    }
}

/// Why `event` ends an open flow, if it does.
pub open spec fn ending(event: FlowEvent) -> Option<CloseReason> {
    match event {
        FlowEvent::Read { from, outcome } => match outcome {
            ReadOutcomeView::Data(bytes) => if bytes.len() == 0 {
                Some(CloseReason::EndOfStream(from))
            } else {
                None
            },
            ReadOutcomeView::Failed => Some(CloseReason::ReadFailed(from)),
            ReadOutcomeView::TimedOut => Some(CloseReason::TimedOut(from)),
        },
        FlowEvent::Written { to, ok } => if ok {
            None
        } else {
            Some(CloseReason::WriteFailed(to))
        },
    }
}

/// The state of a flow after `event`: `None` while it is open, the reason
/// once it has ended. An ended flow keeps its first reason.
pub open spec fn state_after(closed: Option<CloseReason>, event: FlowEvent) -> Option<CloseReason> {
    match closed {
        Some(reason) => Some(reason),
        None => ending(event),
    }
}

/// What the forwarder answers to `event` in a flow with state `closed`.
pub open spec fn step_for(closed: Option<CloseReason>, event: FlowEvent) -> ForwardStepView {
    if closed is Some {
        ForwardStepView::Stopped
    } else {
        match ending(event) {
            Some(reason) => ForwardStepView::Close(reason),
            None => match event {
                FlowEvent::Read { from, outcome } => ForwardStepView::Write {
                    to: other_side(from),
                    bytes: outcome->Data_0,
                },
                FlowEvent::Written { to, ok } => ForwardStepView::Continue,
            },
        }
    }
}

/// The state of a flow after a run of events.
pub open spec fn state_after_all(closed: Option<CloseReason>, events: Seq<FlowEvent>) -> Option<
    CloseReason,
>
    decreases events.len(),
{
    if events.len() == 0 {
        closed
    } else {
        state_after_all(state_after(closed, events[0]), events.drop_first())
    }
}

/// The bytes that the forwarder has written to `to` over a run of events,
/// in the order in which it handed them out.
pub open spec fn written_to(closed: Option<CloseReason>, events: Seq<FlowEvent>, to: Side) -> Seq<
    u8,
>
    decreases events.len(),
{
    if events.len() == 0 {
        Seq::empty()
    } else {
        let rest = written_to(state_after(closed, events[0]), events.drop_first(), to);
        match step_for(closed, events[0]) {
            ForwardStepView::Write { to: side, bytes } => if side == to {
                bytes + rest
            } else {
                rest
            },
            _ => rest,
        }
    }
}

/// The bytes that were read on `from` over a run of events, in the order
/// in which they were read.
pub open spec fn read_from(events: Seq<FlowEvent>, from: Side) -> Seq<u8>
    decreases events.len(),
{
    if events.len() == 0 {
        Seq::empty()
    } else {
        let rest = read_from(events.drop_first(), from);
        match events[0] {
            FlowEvent::Read { from: side, outcome: ReadOutcomeView::Data(bytes) } => if side
                == from {
                bytes + rest
            } else {
                rest
            },
            _ => rest,
        }
    }
}

/// How the end of a flow is classified: the end of a stream is no error, a
/// timeout counts as not connected, and a failed read or write is an I/O
/// error.
pub open spec fn error_class_spec(reason: CloseReason) -> Option<ErrorClass> {
    match reason {
        CloseReason::EndOfStream(_) => None,
        CloseReason::TimedOut(_) => Some(ErrorClass::NotConnected),
        CloseReason::ReadFailed(_) => Some(ErrorClass::Io),
        CloseReason::WriteFailed(_) => Some(ErrorClass::Io),
    }
}

impl Side {
    /// The opposite side.
    pub fn other(self) -> (r: Side)
        ensures
            r == other_side(self),
    {
        match self {
            Side::Tun => Side::Relay,
            Side::Relay => Side::Tun,
        }
    }
}

impl CloseReason {
    /// The class of the error that ended the flow, or `None` when the flow
    /// ended at the end of a stream.
    pub fn error_class(&self) -> (class: Option<ErrorClass>)
        ensures
            class == error_class_spec(*self),
    {
        match self {
            CloseReason::EndOfStream(_) => None,
            CloseReason::TimedOut(_) => Some(ErrorClass::NotConnected),
            CloseReason::ReadFailed(_) => Some(ErrorClass::Io),
            CloseReason::WriteFailed(_) => Some(ErrorClass::Io),
        }
    }
}

/// The size of the buffer for the reads of a flow on an interface with
/// this MTU: one MTU, and never less than `MIN_BUFFER_SIZE`.
pub fn relay_buffer_size(mtu: u16) -> (size: usize)
    ensures
        size == if mtu as int > MIN_BUFFER_SIZE as int {
            mtu as int
        } else {
            MIN_BUFFER_SIZE as int
        },
{
    if mtu as usize > MIN_BUFFER_SIZE {
        mtu as usize
    } else {
        MIN_BUFFER_SIZE
    }
}

/// The forwarder of one flow. Its task owns it, and nothing else does.
#[derive(Debug)]
pub struct Forwarder {
    flow: FlowId,
    idle_timeout_ms: Option<u64>,
    closed: Option<CloseReason>,
}

impl Forwarder {
    /// The flow that is forwarded.
    pub closed spec fn flow_spec(&self) -> FlowId {
        self.flow
    }

    /// The idle timeout of a read in milliseconds, if there is one.
    pub closed spec fn idle_timeout_spec(&self) -> Option<u64> {
        self.idle_timeout_ms
    }

    /// `None` while the flow is open, the reason once it has ended.
    pub closed spec fn closed_spec(&self) -> Option<CloseReason> {
        self.closed
    }

    /// The forwarder of a flow that has just been dialled: open, with no
    /// timeout unless one is given.
    pub fn new(flow: FlowId, idle_timeout_ms: Option<u64>) -> (f: Self)
        ensures
            f.flow_spec() == flow,
            f.idle_timeout_spec() == idle_timeout_ms,
            f.closed_spec() is None,
    {
        Forwarder { flow, idle_timeout_ms, closed: None }
    }

    /// The flow that is forwarded.
    pub fn flow(&self) -> (flow: FlowId)
        ensures
            flow == self.flow_spec(),
    {
        self.flow
    }

    /// The time after which a read is given up, in milliseconds; `None`
    /// when reads wait without limit.
    pub fn idle_timeout_ms(&self) -> (t: Option<u64>)
        ensures
            t == self.idle_timeout_spec(),
    {
        self.idle_timeout_ms
    }

    /// `None` while the flow is open, the reason once it has ended.
    pub fn close_reason(&self) -> (r: Option<CloseReason>)
        ensures
            r == self.closed_spec(),
    {
        self.closed
    }

    /// Takes the outcome of a read on `from`. Bytes that were read go to
    /// the other side as they are. A read of no bytes, a failed read and a
    /// timeout end the flow. In a flow that has ended nothing happens.
    pub fn on_read(&mut self, from: Side, outcome: ReadOutcome) -> (step: ForwardStep)
        ensures
            step@ == step_for(old(self).closed_spec(), FlowEvent::Read { from, outcome: outcome@ }),
            final(self).closed_spec() == state_after(
                old(self).closed_spec(),
                FlowEvent::Read { from, outcome: outcome@ },
            ),
            final(self).flow_spec() == old(self).flow_spec(),
            final(self).idle_timeout_spec() == old(self).idle_timeout_spec(),
    {
        if self.closed.is_some() {
            return ForwardStep::Stopped;
        }
        match outcome {
            ReadOutcome::Data(bytes) => {
                if bytes.len() == 0 {
                    let reason = CloseReason::EndOfStream(from);
                    self.closed = Some(reason);
                    ForwardStep::Close(reason)
                } else {
                    ForwardStep::Write { to: from.other(), bytes }
                }
            },
            ReadOutcome::Failed => {
                let reason = CloseReason::ReadFailed(from);
                self.closed = Some(reason);
                ForwardStep::Close(reason)
            },
            ReadOutcome::TimedOut => {
                let reason = CloseReason::TimedOut(from);
                self.closed = Some(reason);
                ForwardStep::Close(reason)
            },
        }
    }

    /// Takes the outcome of a write to `to`. After a good write the flow
    /// goes on; a failed write ends it. In a flow that has ended nothing
    /// happens.
    pub fn on_write(&mut self, to: Side, ok: bool) -> (step: ForwardStep)
        ensures
            step@ == step_for(old(self).closed_spec(), FlowEvent::Written { to, ok }),
            final(self).closed_spec() == state_after(
                old(self).closed_spec(),
                FlowEvent::Written { to, ok },
            ),
            final(self).flow_spec() == old(self).flow_spec(),
            final(self).idle_timeout_spec() == old(self).idle_timeout_spec(),
    {
        if self.closed.is_some() {
            ForwardStep::Stopped
        } else if ok {
            ForwardStep::Continue
        } else {
            let reason = CloseReason::WriteFailed(to);
            self.closed = Some(reason);
            ForwardStep::Close(reason)
        }
    }
}

/// Whether no event of the run ends a flow.
pub open spec fn none_ends(events: Seq<FlowEvent>) -> bool {
    forall|i: int| 0 <= i < events.len() ==> ending(#[trigger] events[i]) is None
}

/// While nothing ends the flow, the bytes written to a side are the bytes
/// read on the other side: all of them, unchanged, in the order read.
pub proof fn lemma_bytes_relayed_in_order(events: Seq<FlowEvent>, to: Side)
    requires
        none_ends(events),
    ensures
        written_to(None, events, to) == read_from(events, other_side(to)),
        state_after_all(None, events) is None,
    decreases events.len(),
{
    if events.len() > 0 {
        let rest = events.drop_first();
        assert forall|i: int| 0 <= i < rest.len() implies ending(#[trigger] rest[i]) is None by {}
        lemma_bytes_relayed_in_order(rest, to);
    }
}

/// Once a flow has ended it stays ended for the same reason, and nothing
/// more is written to either side, whatever events still arrive.
pub proof fn lemma_ended_flow_is_silent(reason: CloseReason, events: Seq<FlowEvent>, to: Side)
    ensures
        written_to(Some(reason), events, to) == Seq::<u8>::empty(),
        state_after_all(Some(reason), events) == Some(reason),
    decreases events.len(),
{
    if events.len() > 0 {
        lemma_ended_flow_is_silent(reason, events.drop_first(), to);
    }
}

} // verus!
