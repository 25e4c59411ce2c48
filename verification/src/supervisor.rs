//! The supervisor: the order of startup and of teardown.
//!
//! Startup registers the termination signal, creates the virtual interface,
//! resolves the outbound binding from the default route as it still is, and
//! installs the capture routes one by one. Any failure on the way is fatal.
//! Then the process serves until the signal comes. Teardown deletes every
//! route that was installed, whether or not the deletes go well, then
//! destroys the interface, then exits.

use vstd::prelude::*;
use crate::iface::{ConfigError, Platform, VirtualInterfaceConfig};
use crate::ledger::{
    install_status,
    installed_routes,
    lemma_first_with,
    lemma_none_installed,
    lemma_unmark_first_installed,
    mark,
    next_install_spec,
    next_removal_spec,
    planned,
    removal_status,
    LedgerEntry,
    RouteLedger,
    RouteStatus,
};
use crate::route::{capture_set, capture_set_spec, CaptureStrategy, CapturedRoute, RouteTarget};

verus! {

/// The exit code of a clean shutdown.
pub const EXIT_CLEAN: u8 = 0;

/// The exit code after a fatal error at startup.
pub const EXIT_FATAL: u8 = 1;

/// Where the process stands.
#[derive(Clone, Copy, Debug, PartialEq, Eq, Structural)]
pub enum Phase {
    Starting,
    Running,
    ShuttingDown,
    Exited,
}

/// What is known of the virtual interface.
#[derive(Clone, Copy, Debug, PartialEq, Eq, Structural)]
pub enum InterfaceState {
    /// There is none.
    Absent,
    /// It exists and is up, under this index.
    Up(u32),
    /// It could not be destroyed and is still there, under this index.
    Leaked(u32),
}

/// The fatal errors of startup.
#[derive(Clone, Copy, Debug, PartialEq, Eq, Structural)]
pub enum StartupError {
    SignalRegistration,
    InterfaceCreation,
    DefaultRouteQuery,
    RouteInstall,
}

/// What the caller does next.
#[derive(Clone, Copy, Debug, PartialEq, Eq, Structural)]
pub enum Step {
    /// Register the handler of the termination signal.
    RegisterSignal,
    /// Create the virtual interface and bring it up.
    CreateInterface,
    /// Ask the routing table for the default route and resolve the
    /// outbound binding from it.
    QueryDefaultRoute,
    /// Add this route to the routing table.
    AddRoute { index: usize, route: CapturedRoute },
    /// Serve flows until the termination signal comes.
    Serve,
    /// Delete this route from the routing table.
    DeleteRoute { index: usize, route: CapturedRoute },
    /// Destroy the virtual interface.
    DestroyInterface,
    /// Leave the process with this code.
    Exit { code: u8 },
    /// Nothing: the process has been told to exit.
    Done,
}

/// What a termination signal leads to.
#[derive(Clone, Copy, Debug, PartialEq, Eq, Structural)]
pub enum SignalResponse {
    /// Teardown begins.
    BeginTeardown,
    /// The signal changes nothing.
    Ignored,
}

/// The state of the supervisor as a plain value.
pub struct SupervisorView {
    pub strategy: CaptureStrategy,
    pub armed: bool,
    pub interface: InterfaceState,
    pub outbound_resolved: bool,
    pub entries: Seq<LedgerEntry>,
    pub failure: Option<StartupError>,
    pub signalled: bool,
    pub exited: bool,
}

/// The state before anything was done.
pub open spec fn initial(strategy: CaptureStrategy) -> SupervisorView {
    SupervisorView {
        strategy,
        armed: false,
        interface: InterfaceState::Absent,
        outbound_resolved: false,
        entries: Seq::empty(),
        failure: None,
        signalled: false,
        exited: false,
    }
}

/// The step of startup that is still to be taken, if any. The default
/// route is asked for before any capture route is added: afterwards it
/// would point at the virtual interface.
pub open spec fn startup_step(v: SupervisorView) -> Option<Step> {
    if !v.armed {
        Some(Step::RegisterSignal)
    } else if !(v.interface is Up) {
        Some(Step::CreateInterface)
    } else if !v.outbound_resolved {
        Some(Step::QueryDefaultRoute)
    } else {
        match next_install_spec(v.entries) {
            Some(i) => Some(Step::AddRoute { index: i as usize, route: v.entries[i].route }),
            None => None,
        }
    }
}

/// The phase of a state.
pub open spec fn phase_of(v: SupervisorView) -> Phase {
    if v.exited {
        Phase::Exited
    } else if v.signalled || v.failure is Some {
        Phase::ShuttingDown
    } else if startup_step(v) is None {
        Phase::Running
    } else {
        Phase::Starting
    }
}

/// The code that the process exits with: clean unless startup failed. A
/// delete that fails at teardown does not make the exit unclean.
pub open spec fn exit_code(v: SupervisorView) -> u8 {
    if v.failure is Some {
        EXIT_FATAL
    } else {
        EXIT_CLEAN
    }
}

/// The step of teardown that is to be taken: the routes first, while the
/// interface they point at is still there, then the interface, then the
/// exit.
pub open spec fn teardown_step(v: SupervisorView) -> Step {
    match next_removal_spec(v.entries) {
        Some(i) => Step::DeleteRoute { index: i as usize, route: v.entries[i].route },
        None => if v.interface is Up {
            Step::DestroyInterface
        } else {
            Step::Exit { code: exit_code(v) }
        },
    }
}

/// The step that the caller takes next.
pub open spec fn next_step_spec(v: SupervisorView) -> Step {
    match phase_of(v) {
        Phase::Starting => startup_step(v)->0,
        Phase::Running => Step::Serve,
        Phase::ShuttingDown => teardown_step(v),
        Phase::Exited => Step::Done,
    }
}

/// The state after the registration of the signal handler ended.
pub open spec fn after_signal_registered(v: SupervisorView, ok: bool) -> SupervisorView {
    if next_step_spec(v) != Step::RegisterSignal {
        v
    } else if ok {
        SupervisorView { armed: true, ..v }
    } else {
        SupervisorView { failure: Some(StartupError::SignalRegistration), ..v }
    }
}

/// The state after the creation of the interface ended: with its index
/// when it is up, with `None` when it could not be created. The capture
/// routes are planned as soon as the index is known.
pub open spec fn after_interface_created(v: SupervisorView, index: Option<u32>) -> SupervisorView {
    if next_step_spec(v) != Step::CreateInterface {
        v
    } else {
        match index {
            Some(i) => SupervisorView {
                interface: InterfaceState::Up(i),
                entries: planned(capture_set_spec(v.strategy, RouteTarget::Interface(i))),
                ..v
            },
            None => SupervisorView { failure: Some(StartupError::InterfaceCreation), ..v },
        }
    }
}

/// The state after the outbound binding was resolved, or could not be.
pub open spec fn after_default_route(v: SupervisorView, resolved: bool) -> SupervisorView {
    if next_step_spec(v) != Step::QueryDefaultRoute {
        v
    } else if resolved {
        SupervisorView { outbound_resolved: true, ..v }
    } else {
        SupervisorView { failure: Some(StartupError::DefaultRouteQuery), ..v }
    }
}

/// The state after the add of a route ended.
pub open spec fn after_route_added(v: SupervisorView, ok: bool) -> SupervisorView {
    if next_step_spec(v) is AddRoute {
        SupervisorView {
            entries: mark(v.entries, next_install_spec(v.entries)->0, install_status(ok)),
            failure: if ok {
                v.failure
            } else {
                Some(StartupError::RouteInstall)
            },
            ..v
        }
    } else {
        v
    }
}

/// What a termination signal leads to: teardown while the process is
/// running, nothing in any other phase.
pub open spec fn signal_response(v: SupervisorView) -> SignalResponse {
    if phase_of(v) == Phase::Running {
        SignalResponse::BeginTeardown
    } else {
        SignalResponse::Ignored
    }
}

/// The state after a termination signal.
pub open spec fn after_signal(v: SupervisorView) -> SupervisorView {
    if phase_of(v) == Phase::Running {
        SupervisorView { signalled: true, ..v }
    } else {
        v
    }
}

/// The state after the delete of a route ended. Whether or not the delete
/// went well, that route is not tried again.
pub open spec fn after_route_deleted(v: SupervisorView, ok: bool) -> SupervisorView {
    if next_step_spec(v) is DeleteRoute {
        SupervisorView {
            entries: mark(v.entries, next_removal_spec(v.entries)->0, removal_status(ok)),
            ..v
        }
    } else {
        v
    }
}

/// The state after the interface was destroyed, or could not be.
pub open spec fn after_interface_destroyed(v: SupervisorView, ok: bool) -> SupervisorView {
    if next_step_spec(v) != Step::DestroyInterface {
        v
    } else {
        match v.interface {
            InterfaceState::Up(i) => SupervisorView {
                interface: if ok {
                    InterfaceState::Absent
                } else {
                    InterfaceState::Leaked(i)
                },
                ..v
            },
            _ => v,
        }
    }
}

/// The state after the caller took note of the exit.
pub open spec fn after_exit(v: SupervisorView) -> SupervisorView {
    if next_step_spec(v) is Exit {
        SupervisorView { exited: true, ..v }
    } else {
        v
    }
}

/// The supervisor of one run of the process.
pub struct Supervisor {
    config: VirtualInterfaceConfig,
    strategy: CaptureStrategy,
    armed: bool,
    interface: InterfaceState,
    outbound_resolved: bool,
    ledger: RouteLedger,
    failure: Option<StartupError>,
    signalled: bool,
    exited: bool,
}

impl View for Supervisor {
    type V = SupervisorView;

    closed spec fn view(&self) -> SupervisorView {
        SupervisorView {
            strategy: self.strategy,
            armed: self.armed,
            interface: self.interface,
            outbound_resolved: self.outbound_resolved,
            entries: self.ledger@,
            failure: self.failure,
            signalled: self.signalled,
            exited: self.exited,
        }
    }
}

impl Supervisor {
    /// The configuration of the virtual interface.
    pub closed spec fn config_spec(&self) -> VirtualInterfaceConfig {
        self.config
    }

    /// A supervisor at the very start, for a configuration that meets the
    /// rules of `platform`. A configuration that breaks a rule is refused
    /// with the first rule that it breaks.
    pub fn new(config: VirtualInterfaceConfig, platform: Platform, strategy: CaptureStrategy) -> (r:
        Result<Self, ConfigError>)
        ensures
            match r {
                Ok(s) => config.error_on(platform) is None && s@ == initial(strategy)
                    && s.config_spec() == config,
                Err(e) => config.error_on(platform) == Some(e),
            },
    {
        match config.validate(platform) {
            Err(e) => Err(e),
            Ok(()) => {
                let ledger = RouteLedger::plan(&Vec::new());
                assert(ledger@ =~= Seq::<LedgerEntry>::empty());
                Ok(
                    Supervisor {
                        config,
                        strategy,
                        armed: false,
                        interface: InterfaceState::Absent,
                        outbound_resolved: false,
                        ledger,
                        failure: None,
                        signalled: false,
                        exited: false,
                    },
                )
            },
        }
    }

    /// The configuration that the interface is created with.
    pub fn config(&self) -> (config: &VirtualInterfaceConfig)
        ensures
            *config == self.config_spec(),
    {
        &self.config
    }

    /// The state of the virtual interface.
    pub fn interface(&self) -> (state: InterfaceState)
        ensures
            state == self@.interface,
    {
        self.interface
    }

    /// The fatal error of startup, if there was one.
    pub fn failure(&self) -> (failure: Option<StartupError>)
        ensures
            failure == self@.failure,
    {
        self.failure
    }

    /// The routes that are installed now, in the order of the plan.
    pub fn installed(&self) -> (routes: Vec<CapturedRoute>)
        ensures
            routes@ == installed_routes(self@.entries),
    {
        self.ledger.installed()
    }

    /// The entry of the plan with this index, if there is one.
    pub fn route_entry(&self, index: usize) -> (e: Option<LedgerEntry>)
        ensures
            e == if index < self@.entries.len() {
                Some(self@.entries[index as int])
            } else {
                None
            },
    {
        self.ledger.entry(index)
    }

    fn startup_step(&self) -> (step: Option<Step>)
        ensures
            step == startup_step(self@),
    {
        if !self.armed {
            return Some(Step::RegisterSignal);
        }
        match self.interface {
            InterfaceState::Up(_) => {},
            _ => {
                return Some(Step::CreateInterface);
            },
        }
        if !self.outbound_resolved {
            return Some(Step::QueryDefaultRoute);
        }
        match self.ledger.next_install() {
            Some(index) => {
                let entry = self.ledger.entry(index).unwrap();
                Some(Step::AddRoute { index, route: entry.route })
            },
            None => None,
        }
    }

    /// The phase of the process.
    pub fn phase(&self) -> (phase: Phase)
        ensures
            phase == phase_of(self@),
    {
        if self.exited {
            Phase::Exited
        } else if self.signalled || self.failure.is_some() {
            Phase::ShuttingDown
        } else if self.startup_step().is_none() {
            Phase::Running
        } else {
            Phase::Starting
        }
    }

    /// The step that the caller takes next. It stays the same until the
    /// caller reports how it ended.
    pub fn next_step(&self) -> (step: Step)
        ensures
            step == next_step_spec(self@),
            step is DestroyInterface ==> installed_routes(self@.entries).len() == 0,
            step is Exit ==> installed_routes(self@.entries).len() == 0 && !(self@.interface
                is Up),
            step is AddRoute ==> self@.outbound_resolved && self@.interface is Up,
    {
        if self.exited {
            return Step::Done;
        }
        if self.signalled || self.failure.is_some() {
            return match self.ledger.next_removal() {
                Some(index) => {
                    let entry = self.ledger.entry(index).unwrap();
                    Step::DeleteRoute { index, route: entry.route }
                },
                None => match self.interface {
                    InterfaceState::Up(_) => Step::DestroyInterface,
                    _ => Step::Exit {
                        code: if self.failure.is_some() {
                            EXIT_FATAL
                        } else {
                            EXIT_CLEAN
                        },
                    },
                },
            };
        }
        match self.startup_step() {
            Some(step) => step,
            None => Step::Serve,
        }
    }

    /// Reports how the registration of the signal handler ended. The
    /// result tells whether that was the step to report on; if it was not,
    /// nothing changes.
    pub fn signal_registered(&mut self, ok: bool) -> (applied: bool)
        ensures
            applied == (next_step_spec(old(self)@) == Step::RegisterSignal),
            final(self)@ == after_signal_registered(old(self)@, ok),
            final(self).config_spec() == old(self).config_spec(),
    {
        match self.next_step() {
            Step::RegisterSignal => {
                if ok {
                    self.armed = true;
                } else {
                    self.failure = Some(StartupError::SignalRegistration);
                }
                true
            },
            _ => false,
        }
    }

    /// Reports how the creation of the interface ended: with the index of
    /// the interface, or with `None` when there is no interface.
    pub fn interface_created(&mut self, index: Option<u32>) -> (applied: bool)
        ensures
            applied == (next_step_spec(old(self)@) == Step::CreateInterface),
            final(self)@ == after_interface_created(old(self)@, index),
            final(self).config_spec() == old(self).config_spec(),
    {
        match self.next_step() {
            Step::CreateInterface => {
                match index {
                    Some(i) => {
                        let routes = capture_set(self.strategy, RouteTarget::Interface(i));
                        self.ledger = RouteLedger::plan(&routes);
                        self.interface = InterfaceState::Up(i);
                    },
                    None => {
                        self.failure = Some(StartupError::InterfaceCreation);
                    },
                }
                true
            },
            _ => false,
        }
    }

    /// Reports whether the outbound binding could be resolved from the
    /// default route.
    pub fn default_route_resolved(&mut self, resolved: bool) -> (applied: bool)
        ensures
            applied == (next_step_spec(old(self)@) == Step::QueryDefaultRoute),
            final(self)@ == after_default_route(old(self)@, resolved),
            final(self).config_spec() == old(self).config_spec(),
    {
        match self.next_step() {
            Step::QueryDefaultRoute => {
                if resolved {
                    self.outbound_resolved = true;
                } else {
                    self.failure = Some(StartupError::DefaultRouteQuery);
                }
                true
            },
            _ => false,
        }
    }

    /// Reports how the add of the route of the current step ended.
    pub fn route_added(&mut self, ok: bool) -> (applied: bool)
        ensures
            applied == (next_step_spec(old(self)@) is AddRoute),
            final(self)@ == after_route_added(old(self)@, ok),
            final(self).config_spec() == old(self).config_spec(),
    {
        match self.next_step() {
            Step::AddRoute { index, route } => {
                proof {
                    self.ledger.lemma_len_fits();
                    lemma_first_with(self@.entries, RouteStatus::Pending);
                }
                self.ledger.record_install(index, ok);
                if !ok {
                    self.failure = Some(StartupError::RouteInstall);
                }
                true
            },
            _ => false,
        }
    }

    /// Takes a termination signal. While the process runs, teardown
    /// begins. In any other phase, and so for every signal after the
    /// first, nothing changes.
    pub fn on_signal(&mut self) -> (response: SignalResponse)
        ensures
            response == signal_response(old(self)@),
            final(self)@ == after_signal(old(self)@),
            final(self).config_spec() == old(self).config_spec(),
    {
        match self.phase() {
            Phase::Running => {
                self.signalled = true;
                SignalResponse::BeginTeardown
            },
            _ => SignalResponse::Ignored,
        }
    }

    /// Reports how the delete of the route of the current step ended.
    pub fn route_deleted(&mut self, ok: bool) -> (applied: bool)
        ensures
            applied == (next_step_spec(old(self)@) is DeleteRoute),
            final(self)@ == after_route_deleted(old(self)@, ok),
            final(self).config_spec() == old(self).config_spec(),
    {
        match self.next_step() {
            Step::DeleteRoute { index, route } => {
                proof {
                    self.ledger.lemma_len_fits();
                    lemma_first_with(self@.entries, RouteStatus::Installed);
                }
                self.ledger.record_removal(index, ok);
                true
            },
            _ => false,
        }
    }

    /// Reports how the destruction of the interface ended.
    pub fn interface_destroyed(&mut self, ok: bool) -> (applied: bool)
        ensures
            applied == (next_step_spec(old(self)@) == Step::DestroyInterface),
            final(self)@ == after_interface_destroyed(old(self)@, ok),
            final(self).config_spec() == old(self).config_spec(),
    {
        match self.next_step() {
            Step::DestroyInterface => {
                match self.interface {
                    InterfaceState::Up(i) => {
                        self.interface = if ok {
                            InterfaceState::Absent
                        } else {
                            InterfaceState::Leaked(i)
                        };
                    },
                    _ => {},
                }
                true
            },
            _ => false,
        }
    }

    /// Takes note that the caller is about to exit with the code of the
    /// current step. The result is that code, or `None` when the current
    /// step is not the exit.
    pub fn exit(&mut self) -> (code: Option<u8>)
        ensures
            code == match next_step_spec(old(self)@) {
                Step::Exit { code } => Some(code),
                _ => None,
            },
            final(self)@ == after_exit(old(self)@),
            final(self).config_spec() == old(self).config_spec(),
    {
        match self.next_step() {
            Step::Exit { code } => {
                self.exited = true;
                Some(code)
            },
            _ => None,
        }
    }
}

/// A second termination signal has no effect: after the first one the
/// state is one in which a signal is ignored and changes nothing.
pub proof fn lemma_signal_is_idempotent(v: SupervisorView)
    ensures
        signal_response(after_signal(v)) == SignalResponse::Ignored,
        after_signal(after_signal(v)) == after_signal(v),
        next_step_spec(after_signal(after_signal(v))) == next_step_spec(after_signal(v)),
{
}

/// Outside the running phase a signal is ignored and changes nothing.
pub proof fn lemma_signal_only_while_running(v: SupervisorView)
    requires
        phase_of(v) != Phase::Running,
    ensures
        signal_response(v) == SignalResponse::Ignored,
        after_signal(v) == v,
{
}

/// Routes go before the interface: the interface is destroyed, and the
/// process exits, only when no route is installed any more.
pub proof fn lemma_routes_before_interface(v: SupervisorView)
    ensures
        next_step_spec(v) is DestroyInterface ==> installed_routes(v.entries).len() == 0,
        next_step_spec(v) is Exit ==> installed_routes(v.entries).len() == 0 && !(v.interface
            is Up),
{
    lemma_none_installed(v.entries);
}

/// During teardown the step is a delete as long as a route is installed,
/// and a delete that has ended, well or not, leaves one installed route
/// fewer: the first one of the list is gone from it, the others stay.
pub proof fn lemma_teardown_deletes_each_route(v: SupervisorView, ok: bool)
    requires
        phase_of(v) == Phase::ShuttingDown,
        installed_routes(v.entries).len() > 0,
    ensures
        next_step_spec(v) is DeleteRoute,
        next_step_spec(v)->DeleteRoute_route == installed_routes(v.entries)[0],
        installed_routes(after_route_deleted(v, ok).entries) == installed_routes(
            v.entries,
        ).drop_first(),
        phase_of(after_route_deleted(v, ok)) == Phase::ShuttingDown,
{
    lemma_none_installed(v.entries);
    lemma_first_with(v.entries, RouteStatus::Installed);
    lemma_unmark_first_installed(v.entries, removal_status(ok));
}

/// The routes that teardown asks to delete, in order, when the deletes end
/// as `outcomes` says, from state `v` on.
pub open spec fn teardown_deletes(v: SupervisorView, outcomes: Seq<bool>) -> Seq<CapturedRoute>
    decreases outcomes.len(),
{
    if outcomes.len() == 0 {
        Seq::empty()
    } else {
        match next_step_spec(v) {
            Step::DeleteRoute { index, route } => seq![route] + teardown_deletes(
                after_route_deleted(v, outcomes[0]),
                outcomes.drop_first(),
            ),
            _ => Seq::empty(),
        }
    }
}

/// The state that the deletes of `teardown_deletes` leave.
pub open spec fn after_teardown_deletes(v: SupervisorView, outcomes: Seq<bool>) -> SupervisorView
    decreases outcomes.len(),
{
    if outcomes.len() == 0 {
        v
    } else if next_step_spec(v) is DeleteRoute {
        after_teardown_deletes(after_route_deleted(v, outcomes[0]), outcomes.drop_first())
    } else {
        v
    }
}

/// One pass of teardown asks for the delete of exactly the routes that are
/// installed when it begins, each of them once and in the order of the
/// plan, whichever of the deletes fail. When the pass is over no route is
/// installed, and the step that follows is the interface or the exit.
pub proof fn lemma_teardown_reaches_every_route(v: SupervisorView, outcomes: Seq<bool>)
    requires
        phase_of(v) == Phase::ShuttingDown,
        outcomes.len() >= installed_routes(v.entries).len(),
    ensures
        teardown_deletes(v, outcomes) == installed_routes(v.entries),
        installed_routes(after_teardown_deletes(v, outcomes).entries).len() == 0,
        phase_of(after_teardown_deletes(v, outcomes)) == Phase::ShuttingDown,
        next_step_spec(after_teardown_deletes(v, outcomes)) == if v.interface is Up {
            Step::DestroyInterface
        } else {
            Step::Exit { code: exit_code(v) }
        },
    decreases outcomes.len(),
{
    lemma_none_installed(v.entries);
    if installed_routes(v.entries).len() > 0 {
        lemma_teardown_deletes_each_route(v, outcomes[0]);
        lemma_teardown_reaches_every_route(
            after_route_deleted(v, outcomes[0]),
            outcomes.drop_first(),
        );
    }
}

/// No capture route is added before the interface is up and the outbound
/// binding is resolved from the default route.
pub proof fn lemma_default_route_before_routes(v: SupervisorView)
    requires
        next_step_spec(v) is AddRoute,
    ensures
        v.outbound_resolved,
        v.interface is Up,
        v.armed,
        phase_of(v) == Phase::Starting,
{
}

/// What the caller can tell the supervisor.
pub enum Report {
    SignalRegistered(bool),
    InterfaceCreated(Option<u32>),
    DefaultRoute(bool),
    RouteAdded(bool),
    Signal,
    RouteDeleted(bool),
    InterfaceDestroyed(bool),
    Exit,
}

/// The state after a report.
pub open spec fn after(v: SupervisorView, report: Report) -> SupervisorView {
    match report {
        Report::SignalRegistered(ok) => after_signal_registered(v, ok),
        Report::InterfaceCreated(index) => after_interface_created(v, index),
        Report::DefaultRoute(resolved) => after_default_route(v, resolved),
        Report::RouteAdded(ok) => after_route_added(v, ok),
        Report::Signal => after_signal(v),
        Report::RouteDeleted(ok) => after_route_deleted(v, ok),
        Report::InterfaceDestroyed(ok) => after_interface_destroyed(v, ok),
        Report::Exit => after_exit(v),
    }
}

/// The state after a run of reports, from the very start.
pub open spec fn after_all(strategy: CaptureStrategy, reports: Seq<Report>) -> SupervisorView
    decreases reports.len(),
{
    if reports.len() == 0 {
        initial(strategy)
    } else {
        after(after_all(strategy, reports.drop_last()), reports.last())
    }
}

/// The routes of a ledger, whatever their status.
pub open spec fn planned_routes(entries: Seq<LedgerEntry>) -> Seq<CapturedRoute> {
    Seq::new(entries.len(), |k: int| entries[k].route)
}

/// What holds of every state that a run of reports can lead to: while the
/// interface is up the ledger is the plan of the capture set for it, and
/// until teardown begins every route is either pending or installed.
pub open spec fn consistent(v: SupervisorView) -> bool {
    &&& v.interface matches InterfaceState::Up(i) ==> planned_routes(v.entries)
        == capture_set_spec(v.strategy, RouteTarget::Interface(i))
    &&& v.failure is None && !v.signalled ==> forall|k: int|
        0 <= k < v.entries.len() ==> (#[trigger] v.entries[k]).status == RouteStatus::Pending
            || v.entries[k].status == RouteStatus::Installed
}

/// A report takes a consistent state to a consistent state.
pub proof fn lemma_consistent_step(v: SupervisorView, report: Report)
    requires
        consistent(v),
    ensures
        consistent(after(v, report)),
        after(v, report).strategy == v.strategy,
{
    let w = after(v, report);
    match report {
        Report::InterfaceCreated(Some(i)) => {
            if next_step_spec(v) == Step::CreateInterface {
                let routes = capture_set_spec(v.strategy, RouteTarget::Interface(i));
                assert(planned_routes(planned(routes)) =~= routes);
            }
        },
        Report::RouteAdded(ok) => {
            if next_step_spec(v) is AddRoute {
                lemma_first_with(v.entries, RouteStatus::Pending);
                assert(planned_routes(w.entries) =~= planned_routes(v.entries));
            }
        },
        Report::RouteDeleted(ok) => {
            if next_step_spec(v) is DeleteRoute {
                lemma_first_with(v.entries, RouteStatus::Installed);
                assert(planned_routes(w.entries) =~= planned_routes(v.entries));
            }
        },
        _ => {},
    }
}

/// Every state that a run of reports leads to is consistent.
pub proof fn lemma_consistent(strategy: CaptureStrategy, reports: Seq<Report>)
    ensures
        consistent(after_all(strategy, reports)),
        after_all(strategy, reports).strategy == strategy,
    decreases reports.len(),
{
    if reports.len() > 0 {
        lemma_consistent(strategy, reports.drop_last());
        lemma_consistent_step(after_all(strategy, reports.drop_last()), reports.last());
    }
}

proof fn lemma_all_installed(entries: Seq<LedgerEntry>)
    requires
        forall|k: int|
            0 <= k < entries.len() ==> (#[trigger] entries[k]).status == RouteStatus::Installed,
    ensures
        installed_routes(entries) == planned_routes(entries),
    decreases entries.len(),
{
    if entries.len() > 0 {
        let rest = entries.drop_first();
        assert forall|k: int| 0 <= k < rest.len() implies (#[trigger] rest[k]).status
            == RouteStatus::Installed by {
            assert(rest[k] == entries[k + 1]);
        }
        lemma_all_installed(rest);
        assert(planned_routes(entries) =~= seq![entries[0].route] + planned_routes(rest));
    } else {
        assert(planned_routes(entries) =~= Seq::<CapturedRoute>::empty());
    }
}

/// The process serves only behind the whole capture set: whenever a run of
/// reports has led to the running phase, the interface is up and the
/// routes that are installed are the capture set of the strategy for that
/// interface, all of it and in its order.
pub proof fn lemma_running_means_captured(strategy: CaptureStrategy, reports: Seq<Report>)
    requires
        phase_of(after_all(strategy, reports)) == Phase::Running,
    ensures
        after_all(strategy, reports).interface is Up,
        after_all(strategy, reports).outbound_resolved,
        installed_routes(after_all(strategy, reports).entries) == capture_set_spec(
            strategy,
            RouteTarget::Interface(after_all(strategy, reports).interface->Up_0),
        ),
{
    let v = after_all(strategy, reports);
    lemma_consistent(strategy, reports);
    lemma_first_with(v.entries, RouteStatus::Pending);
    lemma_first_with(v.entries, RouteStatus::InstallFailed);
    assert forall|k: int| 0 <= k < v.entries.len() implies (#[trigger] v.entries[k]).status
        == RouteStatus::Installed by {}
    lemma_all_installed(v.entries);
}

/// An interface that is created and destroyed again at once is gone: when
/// startup fails right after the interface came up, the next step is to
/// destroy it, and once that is done no interface is left and the process
/// exits with the code of a fatal error.
pub proof fn lemma_create_then_destroy(strategy: CaptureStrategy, index: u32)
    ensures
        ({
            let armed = after_signal_registered(initial(strategy), true);
            let up = after_interface_created(armed, Some(index));
            let failed = after_default_route(up, false);
            let down = after_interface_destroyed(failed, true);
            &&& next_step_spec(armed) == Step::CreateInterface
            &&& up.interface == InterfaceState::Up(index)
            &&& next_step_spec(failed) == Step::DestroyInterface
            &&& down.interface == InterfaceState::Absent
            &&& next_step_spec(down) == Step::Exit { code: EXIT_FATAL }
        }),
{
    let routes = capture_set_spec(strategy, RouteTarget::Interface(index));
    lemma_first_with(planned(routes), RouteStatus::Installed);
}

} // verus!
