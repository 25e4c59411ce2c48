use tunrelay::addr::Ipv4Address;
use tunrelay::route::{capture_set, is_captured, CaptureStrategy, CapturedRoute, RouteTarget};

fn ip(a: u8, b: u8, c: u8, d: u8) -> Ipv4Address {
    Ipv4Address::from_octets(a, b, c, d)
}

#[test]
fn half_pair_is_two_slash_one_routes() {
    let target = RouteTarget::Interface(7);
    let routes = capture_set(CaptureStrategy::HalfPair, target);
    assert_eq!(
        routes,
        vec![
            CapturedRoute { destination: ip(0, 0, 0, 0), prefix_len: 1, target },
            CapturedRoute { destination: ip(128, 0, 0, 0), prefix_len: 1, target },
        ]
    );
}

#[test]
fn ladder_has_eight_rungs_from_slash_eight_to_slash_one() {
    let target = RouteTarget::Interface(12);
    let routes = capture_set(CaptureStrategy::Ladder, target);
    assert_eq!(
        routes,
        vec![
            CapturedRoute { destination: ip(1, 0, 0, 0), prefix_len: 8, target },
            CapturedRoute { destination: ip(2, 0, 0, 0), prefix_len: 7, target },
            CapturedRoute { destination: ip(4, 0, 0, 0), prefix_len: 6, target },
            CapturedRoute { destination: ip(8, 0, 0, 0), prefix_len: 5, target },
            CapturedRoute { destination: ip(16, 0, 0, 0), prefix_len: 4, target },
            CapturedRoute { destination: ip(32, 0, 0, 0), prefix_len: 3, target },
            CapturedRoute { destination: ip(64, 0, 0, 0), prefix_len: 2, target },
            CapturedRoute { destination: ip(128, 0, 0, 0), prefix_len: 1, target },
        ]
    );
}

#[test]
fn disabled_strategy_has_no_route() {
    assert!(capture_set(CaptureStrategy::Disabled, RouteTarget::Interface(1)).is_empty());
}

#[test]
fn routes_keep_their_target() {
    let gateway = RouteTarget::Gateway(ip(10, 0, 0, 9));
    for route in capture_set(CaptureStrategy::Ladder, gateway) {
        assert_eq!(route.target, gateway);
    }
}

#[test]
fn every_route_of_every_strategy_is_well_formed() {
    for strategy in [CaptureStrategy::HalfPair, CaptureStrategy::Ladder, CaptureStrategy::Disabled] {
        for route in capture_set(strategy, RouteTarget::Interface(3)) {
            assert!(route.is_well_formed());
        }
    }
}

#[test]
fn well_formedness_wants_an_aligned_destination() {
    let target = RouteTarget::Interface(1);
    assert!(CapturedRoute { destination: ip(10, 0, 0, 0), prefix_len: 8, target }.is_well_formed());
    assert!(!CapturedRoute { destination: ip(10, 0, 0, 1), prefix_len: 8, target }.is_well_formed());
    assert!(CapturedRoute { destination: ip(10, 0, 0, 1), prefix_len: 32, target }.is_well_formed());
    assert!(!CapturedRoute { destination: ip(10, 0, 0, 1), prefix_len: 33, target }.is_well_formed());
    assert!(CapturedRoute { destination: ip(0, 0, 0, 0), prefix_len: 0, target }.is_well_formed());
    assert!(!CapturedRoute { destination: ip(1, 0, 0, 0), prefix_len: 0, target }.is_well_formed());
}

#[test]
fn half_pair_covers_each_address_by_exactly_one_route() {
    let routes = capture_set(CaptureStrategy::HalfPair, RouteTarget::Interface(7));
    let samples = [
        (ip(0, 0, 0, 0), 0usize),
        (ip(10, 0, 0, 1), 0),
        (ip(93, 184, 216, 34), 0),
        (ip(101, 35, 230, 139), 0),
        (ip(127, 255, 255, 255), 0),
        (ip(128, 0, 0, 0), 1),
        (ip(192, 168, 1, 1), 1),
        (ip(255, 255, 255, 255), 1),
    ];
    for (addr, which) in samples {
        assert_eq!(routes[which].covers(addr), true);
        assert_eq!(routes[1 - which].covers(addr), false);
        assert!(is_captured(&routes, addr));
    }
}

#[test]
fn ladder_covers_from_one_dot_upwards_by_one_rung_each() {
    let routes = capture_set(CaptureStrategy::Ladder, RouteTarget::Interface(7));
    let samples = [
        (ip(1, 0, 0, 0), 0usize),
        (ip(1, 255, 255, 255), 0),
        (ip(2, 0, 0, 0), 1),
        (ip(3, 255, 255, 255), 1),
        (ip(4, 0, 0, 0), 2),
        (ip(10, 0, 0, 1), 3),
        (ip(16, 0, 0, 0), 4),
        (ip(63, 255, 255, 255), 5),
        (ip(93, 184, 216, 34), 6),
        (ip(101, 35, 230, 139), 6),
        (ip(128, 0, 0, 0), 7),
        (ip(255, 255, 255, 255), 7),
    ];
    for (addr, rung) in samples {
        let covering: Vec<usize> = (0..routes.len())
            .filter(|i| routes[*i].covers(addr))
            .collect();
        assert_eq!(covering, vec![rung]);
        assert!(is_captured(&routes, addr));
    }
}

#[test]
fn ladder_leaves_the_zero_network_alone() {
    let routes = capture_set(CaptureStrategy::Ladder, RouteTarget::Interface(7));
    assert!(!is_captured(&routes, ip(0, 0, 0, 0)));
    assert!(!is_captured(&routes, ip(0, 255, 255, 255)));
    assert!(is_captured(&routes, ip(1, 0, 0, 0)));
}

#[test]
fn nothing_is_captured_without_routes() {
    let routes = capture_set(CaptureStrategy::Disabled, RouteTarget::Interface(7));
    assert!(!is_captured(&routes, ip(101, 35, 230, 139)));
}

#[test]
fn prefix_length_decides_what_a_route_covers() {
    let target = RouteTarget::Interface(1);
    let all = CapturedRoute { destination: ip(0, 0, 0, 0), prefix_len: 0, target };
    assert!(all.covers(ip(200, 1, 2, 3)));
    let host = CapturedRoute { destination: ip(10, 0, 0, 1), prefix_len: 32, target };
    assert!(host.covers(ip(10, 0, 0, 1)));
    assert!(!host.covers(ip(10, 0, 0, 2)));
    let net = CapturedRoute { destination: ip(10, 0, 0, 0), prefix_len: 24, target };
    assert!(net.covers(ip(10, 0, 0, 255)));
    assert!(!net.covers(ip(10, 0, 1, 0)));
    let broken = CapturedRoute { destination: ip(10, 0, 0, 0), prefix_len: 40, target };
    assert!(!broken.covers(ip(10, 0, 0, 0)));
}
