//! The route ledger: which capture routes were planned, which of them the
//! routing table took, and which were taken out again.
//!
//! Every add and every delete is one call into the routing table, made by the
//! caller; the ledger says which call comes next and records how it ended, so
//! that teardown goes for exactly the routes that were installed.

use vstd::prelude::*;
use crate::route::CapturedRoute;

verus! {

/// What has happened to one planned route so far.
#[derive(Clone, Copy, Debug, PartialEq, Eq, Structural)]
pub enum RouteStatus {
    /// Not yet handed to the routing table.
    Pending,
    /// Added to the routing table and still there.
    Installed,
    /// The routing table refused the add.
    InstallFailed,
    /// Deleted from the routing table.
    Removed,
    /// The delete was attempted and failed.
    RemoveFailed,
}

/// One planned route with its status.
#[derive(Clone, Copy, Debug, PartialEq, Eq, Structural)]
pub struct LedgerEntry {
    pub route: CapturedRoute,
    pub status: RouteStatus,
}

/// The ledger of a plan of which nothing has been tried yet.
pub open spec fn planned(routes: Seq<CapturedRoute>) -> Seq<LedgerEntry> {
    Seq::new(routes.len(), |i: int| LedgerEntry { route: routes[i], status: RouteStatus::Pending })
}

/// The index of the first entry with `status`, if there is one.
pub open spec fn first_with(entries: Seq<LedgerEntry>, status: RouteStatus) -> Option<int>
    decreases entries.len(),
{
    if entries.len() == 0 {
        None
    } else if entries[0].status == status {
        Some(0)
    } else {
        match first_with(entries.drop_first(), status) {
            Some(i) => Some(i + 1),
            None => None,
        }
    }
}

/// Whether some entry has `status`.
pub open spec fn any_with(entries: Seq<LedgerEntry>, status: RouteStatus) -> bool {
    exists|i: int| 0 <= i < entries.len() && (#[trigger] entries[i]).status == status
}

/// The routes that are installed, in ledger order.
pub open spec fn installed_routes(entries: Seq<LedgerEntry>) -> Seq<CapturedRoute>
    decreases entries.len(),
{
    if entries.len() == 0 {
        Seq::empty()
    } else if entries[0].status == RouteStatus::Installed {
        seq![entries[0].route] + installed_routes(entries.drop_first())
    } else {
        installed_routes(entries.drop_first())
    }
}

/// The ledger with entry `i` given a new status.
pub open spec fn mark(entries: Seq<LedgerEntry>, i: int, status: RouteStatus) -> Seq<LedgerEntry> {
    entries.update(i, LedgerEntry { route: entries[i].route, status })
}

/// The status that the outcome of an add leaves.
pub open spec fn install_status(ok: bool) -> RouteStatus {
    if ok {
        RouteStatus::Installed
    } else {
        RouteStatus::InstallFailed
    }
}

/// The status that the outcome of a delete leaves.
pub open spec fn removal_status(ok: bool) -> RouteStatus {
    if ok {
        RouteStatus::Removed
    } else {
        RouteStatus::RemoveFailed
    }
}

/// The entry to add next: the first pending one, as long as no add has
/// failed. A failed add is fatal, so nothing is added after it.
pub open spec fn next_install_spec(entries: Seq<LedgerEntry>) -> Option<int> {
    if any_with(entries, RouteStatus::InstallFailed) {
        None
    } else {
        first_with(entries, RouteStatus::Pending)
    }
}

/// The entry to delete next: the first installed one.
pub open spec fn next_removal_spec(entries: Seq<LedgerEntry>) -> Option<int> {
    first_with(entries, RouteStatus::Installed)
}

/// The routes that one removal pass tries to delete, in order, when the
/// deletes end as `outcomes` says. The pass asks for the next removal,
/// records its outcome and goes on until nothing is installed or the
/// outcomes run out.
pub open spec fn removal_pass(entries: Seq<LedgerEntry>, outcomes: Seq<bool>) -> Seq<CapturedRoute>
    decreases outcomes.len(),
{
    match next_removal_spec(entries) {
        None => Seq::empty(),
        Some(i) => if outcomes.len() == 0 {
            Seq::empty()
        } else {
            seq![entries[i].route] + removal_pass(
                mark(entries, i, removal_status(outcomes[0])),
                outcomes.drop_first(),
            )
        },
    }
}

/// The ledger that the removal pass of `removal_pass` leaves.
pub open spec fn after_removal_pass(entries: Seq<LedgerEntry>, outcomes: Seq<bool>) -> Seq<
    LedgerEntry,
>
    decreases outcomes.len(),
{
    match next_removal_spec(entries) {
        None => entries,
        Some(i) => if outcomes.len() == 0 {
            entries
        } else {
            after_removal_pass(
                mark(entries, i, removal_status(outcomes[0])),
                outcomes.drop_first(),
            )
        },
    }
}

/// `first_with` finds the least index with the status, and finds none only
/// when no entry has it.
pub proof fn lemma_first_with(entries: Seq<LedgerEntry>, status: RouteStatus)
    ensures
        match first_with(entries, status) {
            Some(i) => 0 <= i < entries.len() && entries[i].status == status && forall|j: int|
                0 <= j < i ==> (#[trigger] entries[j]).status != status,
            None => !any_with(entries, status),
        },
    decreases entries.len(),
{
    if entries.len() > 0 && entries[0].status != status {
        let rest = entries.drop_first();
        lemma_first_with(rest, status);
        match first_with(rest, status) {
            Some(i) => {
                assert forall|j: int| 0 <= j < i + 1 implies (#[trigger] entries[j]).status
                    != status by {
                    if j > 0 {
                        assert(rest[j - 1] == entries[j]);
                    }
                }
            },
            None => {
                assert forall|j: int| 0 <= j < entries.len() implies (#[trigger] entries[j]).status
                    != status by {
                    if j > 0 {
                        assert(rest[j - 1] == entries[j]);
                    }
                }
            },
        }
    }
}

/// An index whose entry has the status, with none before it that has, is
/// the one that `first_with` finds.
pub proof fn lemma_first_with_is(entries: Seq<LedgerEntry>, status: RouteStatus, i: int)
    requires
        0 <= i < entries.len(),
        entries[i].status == status,
        forall|j: int| 0 <= j < i ==> (#[trigger] entries[j]).status != status,
    ensures
        first_with(entries, status) == Some(i),
{
    lemma_first_with(entries, status);
}

proof fn lemma_installed_routes_append(a: Seq<LedgerEntry>, b: Seq<LedgerEntry>)
    ensures
        installed_routes(a + b) == installed_routes(a) + installed_routes(b),
    decreases a.len(),
{
    if a.len() > 0 {
        lemma_installed_routes_append(a.drop_first(), b);
        assert((a + b).drop_first() =~= a.drop_first() + b);
    }
}

proof fn lemma_installed_routes_step(entries: Seq<LedgerEntry>, i: int)
    requires
        0 <= i < entries.len(),
    ensures
        installed_routes(entries.take(i + 1)) == if entries[i].status == RouteStatus::Installed {
            installed_routes(entries.take(i)).push(entries[i].route)
        } else {
            installed_routes(entries.take(i))
        },
{
    let one = seq![entries[i]];
    assert(entries.take(i + 1) =~= entries.take(i) + one);
    lemma_installed_routes_append(entries.take(i), one);
    assert(installed_routes(one.drop_first()) =~= Seq::<CapturedRoute>::empty());
    if entries[i].status == RouteStatus::Installed {
        assert(installed_routes(entries.take(i)) + seq![entries[i].route] =~= installed_routes(
            entries.take(i),
        ).push(entries[i].route));
    } else {
        assert(installed_routes(entries.take(i)) + Seq::<CapturedRoute>::empty()
            =~= installed_routes(entries.take(i)));
    }
}

/// Taking the first installed entry out of the installed state removes
/// exactly its route, the first one, from the installed routes.
pub proof fn lemma_unmark_first_installed(entries: Seq<LedgerEntry>, status: RouteStatus)
    requires
        status != RouteStatus::Installed,
        first_with(entries, RouteStatus::Installed) is Some,
    ensures
        ({
            let i = first_with(entries, RouteStatus::Installed)->0;
            installed_routes(entries) == seq![entries[i].route] + installed_routes(
                mark(entries, i, status),
            )
        }),
    decreases entries.len(),
{
    let i = first_with(entries, RouteStatus::Installed)->0;
    lemma_first_with(entries, RouteStatus::Installed);
    let marked = mark(entries, i, status);
    if entries[0].status == RouteStatus::Installed {
        assert(marked.drop_first() =~= entries.drop_first());
    } else {
        let rest = entries.drop_first();
        lemma_unmark_first_installed(rest, status);
        assert(marked.drop_first() =~= mark(rest, i - 1, status));
    }
}

/// Nothing is installed exactly when the list of installed routes is empty.
pub proof fn lemma_none_installed(entries: Seq<LedgerEntry>)
    ensures
        first_with(entries, RouteStatus::Installed) is None <==> installed_routes(entries).len()
            == 0,
    decreases entries.len(),
{
    if entries.len() > 0 {
        lemma_none_installed(entries.drop_first());
    }
}

/// A removal pass that is given an outcome for every installed route tries
/// to delete each of them once, in ledger order, whatever the outcomes are:
/// a failed delete stops nothing. Afterwards no route is left installed.
pub proof fn lemma_removal_pass_reaches_every_route(
    entries: Seq<LedgerEntry>,
    outcomes: Seq<bool>,
)
    requires
        outcomes.len() >= installed_routes(entries).len(),
    ensures
        removal_pass(entries, outcomes) == installed_routes(entries),
        installed_routes(after_removal_pass(entries, outcomes)).len() == 0,
    decreases outcomes.len(),
{
    lemma_none_installed(entries);
    if let Some(i) = next_removal_spec(entries) {
        let status = removal_status(outcomes[0]);
        lemma_unmark_first_installed(entries, status);
        lemma_removal_pass_reaches_every_route(mark(entries, i, status), outcomes.drop_first());
    }
}

/// The planned capture routes with what became of each.
pub struct RouteLedger {
    entries: Vec<LedgerEntry>,
}

impl View for RouteLedger {
    type V = Seq<LedgerEntry>;

    closed spec fn view(&self) -> Seq<LedgerEntry> {
        self.entries@
    }
}

impl RouteLedger {
    /// A ledger in which every route of `routes` is pending.
    pub fn plan(routes: &Vec<CapturedRoute>) -> (ledger: Self)
        ensures
            ledger@ == planned(routes@),
    {
        let mut entries: Vec<LedgerEntry> = Vec::new();
        let mut i: usize = 0;
        while i < routes.len()
            invariant
                i <= routes.len(),
                entries@.len() == i,
                forall|j: int|
                    0 <= j < i ==> entries@[j] == (LedgerEntry {
                        route: routes@[j],
                        status: RouteStatus::Pending,
                    }),
            decreases routes.len() - i,
        {
            entries.push(LedgerEntry { route: routes[i], status: RouteStatus::Pending });
            i = i + 1;
        }
        RouteLedger { entries }
    }

    /// The ledger has no more entries than the machine can count.
    pub proof fn lemma_len_fits(&self)
        ensures
            self@.len() <= usize::MAX,
    {
        assert(self.entries.len() == self.entries@.len());
    }

    /// The number of planned routes.
    pub fn len(&self) -> (n: usize)
        ensures
            n == self@.len(),
    {
        self.entries.len()
    }

    /// Entry `index`, if there is one.
    pub fn entry(&self, index: usize) -> (e: Option<LedgerEntry>)
        ensures
            e == if index < self@.len() {
                Some(self@[index as int])
            } else {
                None
            },
    {
        if index < self.entries.len() {
            Some(self.entries[index])
        } else {
            None
        }
    }

    fn first_index_with(&self, status: RouteStatus) -> (r: Option<usize>)
        ensures
            match r {
                Some(i) => first_with(self@, status) == Some(i as int),
                None => first_with(self@, status) is None,
            },
    {
        let mut i: usize = 0;
        while i < self.entries.len()
            invariant
                i <= self.entries.len(),
                forall|j: int| 0 <= j < i ==> (#[trigger] self.entries@[j]).status != status,
            decreases self.entries.len() - i,
        {
            if self.entries[i].status == status {
                proof {
                    lemma_first_with_is(self@, status, i as int);
                }
                return Some(i);
            }
            i = i + 1;
        }
        proof {
            lemma_first_with(self@, status);
        }
        None
    }

    /// The entry whose route is to be added next, or `None` when every
    /// route has been tried or an add has failed.
    pub fn next_install(&self) -> (r: Option<usize>)
        ensures
            match r {
                Some(i) => next_install_spec(self@) == Some(i as int),
                None => next_install_spec(self@) is None,
            },
            r matches Some(i) ==> i < self@.len() && self@[i as int].status == RouteStatus::Pending
                && forall|j: int| 0 <= j < i ==> (#[trigger] self@[j]).status != RouteStatus::Pending,
            r is None <==> any_with(self@, RouteStatus::InstallFailed) || !any_with(
                self@,
                RouteStatus::Pending,
            ),
    {
        proof {
            lemma_first_with(self@, RouteStatus::InstallFailed);
            lemma_first_with(self@, RouteStatus::Pending);
        }
        match self.first_index_with(RouteStatus::InstallFailed) {
            Some(_) => None,
            None => self.first_index_with(RouteStatus::Pending),
        }
    }

    /// Records how the add of entry `index` ended. Only a pending entry
    /// takes an outcome; for any other index nothing changes and the result
    /// is `false`.
    pub fn record_install(&mut self, index: usize, ok: bool) -> (recorded: bool)
        ensures
            recorded == (index < old(self)@.len() && old(self)@[index as int].status
                == RouteStatus::Pending),
            final(self)@ == if recorded {
                mark(old(self)@, index as int, install_status(ok))
            } else {
                old(self)@
            },
    {
        self.transition(index, RouteStatus::Pending, if ok {
            RouteStatus::Installed
        } else {
            RouteStatus::InstallFailed
        })
    }

    /// Tells whether every planned route is installed.
    pub fn install_complete(&self) -> (r: bool)
        ensures
            r == forall|i: int|
                0 <= i < self@.len() ==> (#[trigger] self@[i]).status == RouteStatus::Installed,
    {
        let mut i: usize = 0;
        while i < self.entries.len()
            invariant
                i <= self.entries.len(),
                forall|j: int|
                    0 <= j < i ==> (#[trigger] self.entries@[j]).status == RouteStatus::Installed,
            decreases self.entries.len() - i,
        {
            if self.entries[i].status != RouteStatus::Installed {
                return false;
            }
            i = i + 1;
        }
        true
    }

    /// The entry whose route is to be deleted next, or `None` when no route
    /// is installed.
    pub fn next_removal(&self) -> (r: Option<usize>)
        ensures
            match r {
                Some(i) => next_removal_spec(self@) == Some(i as int),
                None => next_removal_spec(self@) is None,
            },
            r matches Some(i) ==> i < self@.len() && self@[i as int].status
                == RouteStatus::Installed && forall|j: int|
                0 <= j < i ==> (#[trigger] self@[j]).status != RouteStatus::Installed,
            r is None <==> installed_routes(self@).len() == 0,
            r is None <==> !any_with(self@, RouteStatus::Installed),
    {
        proof {
            lemma_first_with(self@, RouteStatus::Installed);
            lemma_none_installed(self@);
        }
        self.first_index_with(RouteStatus::Installed)
    }

    /// Records how the delete of entry `index` ended. Whatever the outcome,
    /// the entry is no longer installed afterwards, so the next removal is
    /// another route. Only an installed entry takes an outcome; for any
    /// other index nothing changes and the result is `false`.
    pub fn record_removal(&mut self, index: usize, ok: bool) -> (recorded: bool)
        ensures
            recorded == (index < old(self)@.len() && old(self)@[index as int].status
                == RouteStatus::Installed),
            final(self)@ == if recorded {
                mark(old(self)@, index as int, removal_status(ok))
            } else {
                old(self)@
            },
    {
        self.transition(index, RouteStatus::Installed, if ok {
            RouteStatus::Removed
        } else {
            RouteStatus::RemoveFailed
        })
    }

    fn transition(&mut self, index: usize, from: RouteStatus, to: RouteStatus) -> (done: bool)
        ensures
            done == (index < old(self)@.len() && old(self)@[index as int].status == from),
            final(self)@ == if done {
                mark(old(self)@, index as int, to)
            } else {
                old(self)@
            },
    {
        if index < self.entries.len() && self.entries[index].status == from {
            let route = self.entries[index].route;
            self.entries.set(index, LedgerEntry { route, status: to });
            true
        } else {
            false
        }
    }

    /// The routes that are installed now, in ledger order.
    pub fn installed(&self) -> (routes: Vec<CapturedRoute>)
        ensures
            routes@ == installed_routes(self@),
    {
        let mut routes: Vec<CapturedRoute> = Vec::new();
        let mut i: usize = 0;
        while i < self.entries.len()
            invariant
                i <= self.entries.len(),
                routes@ == installed_routes(self.entries@.take(i as int)),
            decreases self.entries.len() - i,
        {
            proof {
                lemma_installed_routes_step(self.entries@, i as int);
            }
            if self.entries[i].status == RouteStatus::Installed {
                routes.push(self.entries[i].route);
            }
            i = i + 1;
        }
        assert(self.entries@.take(self.entries@.len() as int) =~= self.entries@);
        routes
    }

    /// The number of deletes that were attempted and failed.
    pub fn removal_failures(&self) -> (n: usize)
        ensures
            n == self@.filter(|e: LedgerEntry| e.status == RouteStatus::RemoveFailed).len(),
    {
        let mut n: usize = 0;
        let mut i: usize = 0;
        let ghost failed = |e: LedgerEntry| e.status == RouteStatus::RemoveFailed;
        while i < self.entries.len()
            invariant
                i <= self.entries.len(),
                n <= i,
                n == self.entries@.take(i as int).filter(failed).len(),
                failed == |e: LedgerEntry| e.status == RouteStatus::RemoveFailed,
            decreases self.entries.len() - i,
        {
            proof {
                let next = self.entries@.take(i + 1);
                assert(next.drop_last() =~= self.entries@.take(i as int));
                reveal(Seq::filter);
            }
            if self.entries[i].status == RouteStatus::RemoveFailed {
                n = n + 1;
            }
            i = i + 1;
        }
        assert(self.entries@.take(self.entries@.len() as int) =~= self.entries@);
        n
    }
}

} // verus!
