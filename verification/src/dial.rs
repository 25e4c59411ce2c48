//! The outbound dialer: how a socket is pinned to the physical interface,
//! and the order of the steps that take it to the relay.

use vstd::prelude::*;
use vstd::string::*;
use crate::addr::{value_octets, Ipv4Address};

verus! {

/// The way in which the host lets a socket be pinned to an interface.
#[derive(Clone, Copy, Debug, PartialEq, Eq, Structural)]
pub enum BindingMethod {
    /// By the interface's name.
    DeviceName,
    /// By the interface's index.
    DeviceIndex,
    /// By a socket option whose value is the interface's index in network
    /// byte order.
    UnicastOption,
}

/// What a socket is pinned with. It is resolved once, from the default
/// route as it was before any capture route went in, and never again.
#[derive(Clone, Debug, PartialEq, Eq)]
pub enum OutboundBinding {
    DeviceName(String),
    DeviceIndex(u32),
    UnicastOption([u8; 4]),
}

/// `OutboundBinding` over sequences.
pub enum OutboundBindingView {
    DeviceName(Seq<char>),
    DeviceIndex(u32),
    UnicastOption(Seq<u8>),
}

impl View for OutboundBinding {
    type V = OutboundBindingView;

    open spec fn view(&self) -> OutboundBindingView {
        match self {
            OutboundBinding::DeviceName(name) => OutboundBindingView::DeviceName(name@),
            OutboundBinding::DeviceIndex(index) => OutboundBindingView::DeviceIndex(*index),
            OutboundBinding::UnicastOption(value) => OutboundBindingView::UnicastOption(value@),
        }
    }
}

/// Why no binding could be resolved.
#[derive(Clone, Copy, Debug, PartialEq, Eq, Structural)]
pub enum BindingError {
    /// The default route names no interface.
    NoInterface,
    /// The interface has no name, and the method needs one.
    NoName,
}

/// The binding for `method`, from the index of the default route's
/// interface and, where it could be looked up, that interface's name. An
/// index of zero names no interface.
pub open spec fn resolve_binding_spec(
    method: BindingMethod,
    ifindex: Option<u32>,
    name: Option<Seq<char>>,
) -> Result<OutboundBindingView, BindingError> {
    match ifindex {
        None => Err(BindingError::NoInterface),
        Some(index) => if index == 0 {
            Err(BindingError::NoInterface)
        } else {
            match method {
                BindingMethod::DeviceName => match name {
                    None => Err(BindingError::NoName),
                    Some(n) => if n.len() == 0 {
                        Err(BindingError::NoName)
                    } else {
                        Ok(OutboundBindingView::DeviceName(n))
                    },
                },
                BindingMethod::DeviceIndex => Ok(OutboundBindingView::DeviceIndex(index)),
                BindingMethod::UnicastOption => Ok(
                    OutboundBindingView::UnicastOption(value_octets(index)),
                ),
            }
        },
    }
}

/// The view of an optional name.
pub open spec fn name_view(name: Option<String>) -> Option<Seq<char>> {
    match name {
        Some(n) => Some(n@),
        None => None,
    }
}

/// The view of a resolved binding or its error.
pub open spec fn binding_result_view(r: Result<OutboundBinding, BindingError>) -> Result<
    OutboundBindingView,
    BindingError,
> {
    match r {
        Ok(b) => Ok(b@),
        Err(e) => Err(e),
    }
}

/// Resolves the binding of the outbound sockets.
pub fn resolve_binding(method: BindingMethod, ifindex: Option<u32>, name: Option<String>) -> (r:
    Result<OutboundBinding, BindingError>)
    ensures
        binding_result_view(r) == resolve_binding_spec(method, ifindex, name_view(name)),
{
    let index: u32 = match ifindex {
        None => {
            return Err(BindingError::NoInterface);
        },
        Some(index) => index,
    };
    if index == 0 {
        return Err(BindingError::NoInterface);
    }
    match method {
        BindingMethod::DeviceName => match name {
            None => Err(BindingError::NoName),
            Some(n) => {
                if n.as_str().unicode_len() == 0 {
                    Err(BindingError::NoName)
                } else {
                    Ok(OutboundBinding::DeviceName(n))
                }
            },
        },
        BindingMethod::DeviceIndex => Ok(OutboundBinding::DeviceIndex(index)),
        BindingMethod::UnicastOption => {
            let value: [u8; 4] = Ipv4Address { bits: index }.octets();
            Ok(OutboundBinding::UnicastOption(value))
        },
    }
}

/// One step on the way from nothing to a socket connected to the relay.
#[derive(Clone, Copy, Debug, PartialEq, Eq, Structural)]
pub enum DialStep {
    /// Open a new stream socket.
    OpenSocket,
    /// Pin the socket to the physical interface.
    Bind,
    /// Put the socket in non-blocking mode.
    SetNonBlocking,
    /// Connect the socket to the relay.
    Connect,
}

/// The number of steps of a dial.
pub const DIAL_STEPS: u8 = 4;

/// The steps of a dial in the order in which they are taken. The socket is
/// bound before it is connected: a connected socket cannot be moved to
/// another interface.
pub open spec fn dial_order() -> Seq<DialStep> {
    seq![DialStep::OpenSocket, DialStep::Bind, DialStep::SetNonBlocking, DialStep::Connect]
}

/// How far a dial has come: the number of steps that went well, and
/// whether the step after them failed.
pub struct DialProgress {
    pub done: nat,
    pub failed: bool,
}

/// The step that is taken next, if any: none after a failure, and none
/// when all steps are done.
pub open spec fn next_step_spec(p: DialProgress) -> Option<DialStep> {
    if p.failed || p.done >= dial_order().len() {
        None
    } else {
        Some(dial_order()[p.done as int])
    }
}

/// The progress after the outcome of the step that was taken. Where no
/// step was to be taken, an outcome changes nothing.
pub open spec fn progress_after(p: DialProgress, ok: bool) -> DialProgress {
    if next_step_spec(p) is None {
        p
    } else if ok {
        DialProgress { done: p.done + 1, failed: false }
    } else {
        DialProgress { done: p.done, failed: true }
    }
}

/// The progress after a run of outcomes, from the start of a dial.
pub open spec fn progress_after_all(outcomes: Seq<bool>) -> DialProgress
    decreases outcomes.len(),
{
    if outcomes.len() == 0 {
        DialProgress { done: 0, failed: false }
    } else {
        progress_after(progress_after_all(outcomes.drop_last()), outcomes.last())
    }
}

/// How a dial ended, if it has ended: well when all steps are done, or at
/// the step that failed.
pub open spec fn dial_result_spec(p: DialProgress) -> Option<Result<(), DialStep>> {
    if p.failed && p.done < dial_order().len() {
        Some(Err(dial_order()[p.done as int]))
    } else if p.done >= dial_order().len() {
        Some(Ok(()))
    } else {
        None
    }
}

/// One attempt to dial the relay for one flow.
#[derive(Clone, Copy, Debug, PartialEq, Eq)]
pub struct DialAttempt {
    done: u8,
    failed: bool,
}

impl View for DialAttempt {
    type V = DialProgress;

    closed spec fn view(&self) -> DialProgress {
        DialProgress {
            done: if self.done >= DIAL_STEPS {
                DIAL_STEPS as nat
            } else {
                self.done as nat
            },
            failed: self.failed && self.done < DIAL_STEPS,
        }
    }
}

impl DialAttempt {
    /// An attempt of which no step has been taken.
    pub fn new() -> (a: Self)
        ensures
            a@ == (DialProgress { done: 0, failed: false }),
    {
        DialAttempt { done: 0, failed: false }
    }

    /// The step to take next, or `None` when the attempt has ended.
    pub fn next_step(&self) -> (step: Option<DialStep>)
        ensures
            step == next_step_spec(self@),
    {
        if self.failed || self.done >= DIAL_STEPS {
            None
        } else if self.done == 0 {
            Some(DialStep::OpenSocket)
        } else if self.done == 1 {
            Some(DialStep::Bind)
        } else if self.done == 2 {
            Some(DialStep::SetNonBlocking)
        } else {
            Some(DialStep::Connect)
        }
    }

    /// Records how the step that `next_step` gave ended.
    pub fn record(&mut self, ok: bool)
        ensures
            final(self)@ == progress_after(old(self)@, ok),
    {
        if self.failed || self.done >= DIAL_STEPS {
            return ;
        }
        if ok {
            self.done = self.done + 1;
        } else {
            self.failed = true;
        }
    }

    /// How the attempt ended: `Ok` when the socket is connected, the step
    /// that failed otherwise, and `None` while steps are left.
    pub fn result(&self) -> (r: Option<Result<(), DialStep>>)
        ensures
            r == dial_result_spec(self@),
    {
        if self.done >= DIAL_STEPS {
            Some(Ok(()))
        } else if self.failed {
            if self.done == 0 {
                Some(Err(DialStep::OpenSocket))
            } else if self.done == 1 {
                Some(Err(DialStep::Bind))
            } else if self.done == 2 {
                Some(Err(DialStep::SetNonBlocking))
            } else {
                Some(Err(DialStep::Connect))
            }
        } else {
            None
        }
    }
}

/// Whether the first `n` outcomes are all good.
pub open spec fn all_ok(outcomes: Seq<bool>, n: int) -> bool {
    forall|i: int| 0 <= i < n && i < outcomes.len() ==> outcomes[i]
}

/// The number of outcomes before the first bad one.
pub open spec fn ok_prefix(outcomes: Seq<bool>) -> nat
    decreases outcomes.len(),
{
    if outcomes.len() == 0 || !outcomes[0] {
        0
    } else {
        1 + ok_prefix(outcomes.drop_first())
    }
}

proof fn lemma_ok_prefix_bound(outcomes: Seq<bool>)
    ensures
        ok_prefix(outcomes) <= outcomes.len(),
        ok_prefix(outcomes) < outcomes.len() ==> !outcomes[ok_prefix(outcomes) as int],
        forall|i: int| 0 <= i < ok_prefix(outcomes) ==> outcomes[i],
    decreases outcomes.len(),
{
    if outcomes.len() > 0 && outcomes[0] {
        let rest = outcomes.drop_first();
        lemma_ok_prefix_bound(rest);
        assert forall|i: int| 0 <= i < ok_prefix(outcomes) implies outcomes[i] by {
            if i > 0 {
                assert(outcomes[i] == rest[i - 1]);
            }
        }
    }
}

proof fn lemma_ok_prefix_push(outcomes: Seq<bool>, ok: bool)
    ensures
        ok_prefix(outcomes.push(ok)) == if ok_prefix(outcomes) == outcomes.len() && ok {
            outcomes.len() + 1
        } else {
            ok_prefix(outcomes)
        },
    decreases outcomes.len(),
{
    let pushed = outcomes.push(ok);
    if outcomes.len() == 0 {
        assert(ok_prefix(pushed.drop_first()) == 0);
    } else {
        assert(pushed.drop_first() =~= outcomes.drop_first().push(ok));
        if outcomes[0] {
            lemma_ok_prefix_push(outcomes.drop_first(), ok);
        }
    }
}

/// Where a dial stands after any run of outcomes: the steps done are the
/// good outcomes before the first bad one, four at most, and the dial has
/// failed exactly when a bad outcome came before the fourth good one.
pub proof fn lemma_progress(outcomes: Seq<bool>)
    ensures
        ({
            let p = progress_after_all(outcomes);
            let good = ok_prefix(outcomes);
            &&& p.done == if good < 4 {
                good
            } else {
                4
            }
            &&& p.failed == (good < 4 && good < outcomes.len())
        }),
    decreases outcomes.len(),
{
    if outcomes.len() > 0 {
        let before = outcomes.drop_last();
        lemma_progress(before);
        lemma_ok_prefix_push(before, outcomes.last());
        lemma_ok_prefix_bound(before);
        assert(before.push(outcomes.last()) =~= outcomes);
    }
}

/// The socket is connected only after it was bound: whenever the next step
/// is `Connect`, the three steps before it, `Bind` among them, have been
/// taken and went well.
pub proof fn lemma_bind_before_connect(outcomes: Seq<bool>)
    requires
        next_step_spec(progress_after_all(outcomes)) == Some(DialStep::Connect),
    ensures
        outcomes.len() == 3,
        outcomes[0] && outcomes[1] && outcomes[2],
        dial_order()[1] == DialStep::Bind,
{
    lemma_progress(outcomes);
    lemma_ok_prefix_bound(outcomes);
}

/// A dial ends well exactly when its first four steps went well, and ends
/// at a step exactly when that step was the first to fail.
pub proof fn lemma_dial_result(outcomes: Seq<bool>)
    ensures
        dial_result_spec(progress_after_all(outcomes)) == if ok_prefix(outcomes) >= 4 {
            Some(Ok::<(), DialStep>(()))
        } else if ok_prefix(outcomes) < outcomes.len() {
            Some(Err::<(), DialStep>(dial_order()[ok_prefix(outcomes) as int]))
        } else {
            None
        },
{
    lemma_progress(outcomes);
}

} // verus!
