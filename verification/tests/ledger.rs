use tunrelay::addr::Ipv4Address;
use tunrelay::ledger::{LedgerEntry, RouteLedger, RouteStatus};
use tunrelay::route::{capture_set, CaptureStrategy, CapturedRoute, RouteTarget};

fn ladder() -> Vec<CapturedRoute> {
    capture_set(CaptureStrategy::Ladder, RouteTarget::Interface(9))
}

fn statuses(ledger: &RouteLedger) -> Vec<RouteStatus> {
    (0..ledger.len()).map(|i| ledger.entry(i).unwrap().status).collect()
}

#[test]
fn a_plan_starts_with_every_route_pending() {
    let routes = ladder();
    let ledger = RouteLedger::plan(&routes);
    assert_eq!(ledger.len(), 8);
    for i in 0..8 {
        assert_eq!(
            ledger.entry(i),
            Some(LedgerEntry { route: routes[i], status: RouteStatus::Pending })
        );
    }
    assert_eq!(ledger.entry(8), None);
    assert_eq!(ledger.next_install(), Some(0));
    assert_eq!(ledger.next_removal(), None);
    assert!(ledger.installed().is_empty());
    assert!(!ledger.install_complete());
}

#[test]
fn an_empty_plan_is_complete_at_once() {
    let ledger = RouteLedger::plan(&Vec::new());
    assert_eq!(ledger.len(), 0);
    assert_eq!(ledger.next_install(), None);
    assert_eq!(ledger.next_removal(), None);
    assert!(ledger.install_complete());
    assert_eq!(ledger.removal_failures(), 0);
}

#[test]
fn installs_go_in_plan_order() {
    let routes = ladder();
    let mut ledger = RouteLedger::plan(&routes);
    for i in 0..8 {
        assert_eq!(ledger.next_install(), Some(i));
        assert!(ledger.record_install(i, true));
    }
    assert_eq!(ledger.next_install(), None);
    assert!(ledger.install_complete());
    assert_eq!(ledger.installed(), routes);
}

#[test]
fn a_failed_install_stops_the_installs() {
    let routes = ladder();
    let mut ledger = RouteLedger::plan(&routes);
    assert!(ledger.record_install(0, true));
    assert!(ledger.record_install(1, true));
    assert!(ledger.record_install(2, false));
    assert_eq!(ledger.next_install(), None);
    assert!(!ledger.install_complete());
    assert_eq!(ledger.installed(), vec![routes[0], routes[1]]);
    assert_eq!(
        statuses(&ledger)[..4],
        [
            RouteStatus::Installed,
            RouteStatus::Installed,
            RouteStatus::InstallFailed,
            RouteStatus::Pending
        ]
    );
}

#[test]
fn only_a_pending_entry_takes_an_install_outcome() {
    let mut ledger = RouteLedger::plan(&ladder());
    assert!(ledger.record_install(0, true));
    assert!(!ledger.record_install(0, false));
    assert!(!ledger.record_install(8, true));
    assert_eq!(ledger.entry(0).unwrap().status, RouteStatus::Installed);
    assert!(!ledger.record_removal(1, true));
    assert_eq!(ledger.entry(1).unwrap().status, RouteStatus::Pending);
}

#[test]
fn removal_reaches_every_installed_route_past_failures() {
    let routes = ladder();
    let mut ledger = RouteLedger::plan(&routes);
    for i in 0..8 {
        ledger.record_install(i, true);
    }
    let outcomes = [true, false, false, true, false, true, true, false];
    let mut attempted = Vec::new();
    let mut round = 0;
    while let Some(i) = ledger.next_removal() {
        attempted.push(ledger.entry(i).unwrap().route);
        assert!(ledger.record_removal(i, outcomes[round]));
        round += 1;
    }
    assert_eq!(attempted, routes);
    assert_eq!(round, 8);
    assert!(ledger.installed().is_empty());
    assert_eq!(ledger.removal_failures(), 4);
    assert_eq!(ledger.entry(0).unwrap().status, RouteStatus::Removed);
    assert_eq!(ledger.entry(1).unwrap().status, RouteStatus::RemoveFailed);
}

#[test]
fn removal_goes_for_the_installed_subset_only() {
    let routes = ladder();
    let mut ledger = RouteLedger::plan(&routes);
    ledger.record_install(0, true);
    ledger.record_install(1, true);
    ledger.record_install(2, false);
    let mut attempted = Vec::new();
    while let Some(i) = ledger.next_removal() {
        attempted.push(i);
        ledger.record_removal(i, false);
    }
    assert_eq!(attempted, vec![0, 1]);
    assert_eq!(ledger.removal_failures(), 2);
    assert_eq!(ledger.entry(2).unwrap().status, RouteStatus::InstallFailed);
    assert_eq!(ledger.entry(3).unwrap().status, RouteStatus::Pending);
}

#[test]
fn a_route_is_never_removed_twice() {
    let target = RouteTarget::Interface(2);
    let route = CapturedRoute {
        destination: Ipv4Address::from_octets(128, 0, 0, 0),
        prefix_len: 1,
        target,
    };
    let mut ledger = RouteLedger::plan(&vec![route]);
    ledger.record_install(0, true);
    assert_eq!(ledger.next_removal(), Some(0));
    assert!(ledger.record_removal(0, false));
    assert_eq!(ledger.next_removal(), None);
    assert!(!ledger.record_removal(0, true));
    assert_eq!(ledger.entry(0).unwrap().status, RouteStatus::RemoveFailed);
}
