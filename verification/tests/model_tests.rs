use nexuflux::domain::model::{NodeHealth, ProxyNode, PublicIpInfo, RotatorMetrics};

fn node(name: &str) -> ProxyNode {
    ProxyNode::new(name.to_string(), "VLESS".to_string(), "example.com".to_string(), 443)
}

#[test]
fn new_node_is_untested_and_clean() {
    let n = node("US - Reality 01");
    assert_eq!(n.name, "US - Reality 01");
    assert_eq!(n.protocol, "VLESS");
    assert_eq!(n.server, "example.com");
    assert_eq!(n.port, 443);
    assert_eq!(n.health, NodeHealth::Untested);
    assert_eq!(n.latency_ms, None);
    assert_eq!(n.failure_count, 0);
    assert_eq!(n.success_count, 0);
    assert_eq!(n.sleep_until, None);
}

#[test]
fn put_to_sleep_at_quarantines_until_wake_time() {
    let mut n = node("a");
    n.mark_alive(120);
    n.put_to_sleep_at(1_000, 600_000);
    assert_eq!(n.health, NodeHealth::Sleeping);
    assert_eq!(n.failure_count, 1);
    assert_eq!(n.latency_ms, None);
    assert_eq!(n.sleep_until, Some(601_000));
    assert!(!n.is_ready_for_test_at(600_999));
    assert!(n.is_ready_for_test_at(601_000));
    assert!(n.is_ready_for_test_at(700_000));
}

#[test]
fn put_to_sleep_at_saturates_wake_time() {
    let mut n = node("a");
    n.put_to_sleep_at(u64::MAX - 5, 100);
    assert_eq!(n.sleep_until, Some(u64::MAX));
}

#[test]
fn repeated_failures_count_up() {
    let mut n = node("a");
    n.put_to_sleep_at(0, 10);
    n.put_to_sleep_at(20, 10);
    n.put_to_sleep_at(40, 10);
    assert_eq!(n.failure_count, 3);
    assert_eq!(n.sleep_until, Some(50));
}

#[test]
fn put_to_sleep_uses_the_clock() {
    let mut n = node("a");
    n.put_to_sleep(600_000);
    assert_eq!(n.health, NodeHealth::Sleeping);
    assert_eq!(n.failure_count, 1);
    // the library clock counts milliseconds since the UNIX epoch: later than 2020
    let wake = n.sleep_until.expect("quarantined");
    assert!(wake > 1_577_836_800_000 + 600_000);
    assert!(!n.is_ready_for_test());
    let mut m = node("b");
    m.put_to_sleep(0);
    assert!(m.is_ready_for_test());
}

#[test]
fn mark_alive_revives() {
    let mut n = node("a");
    n.put_to_sleep_at(5, 10);
    n.put_to_sleep_at(5, 10);
    n.mark_alive(87);
    assert_eq!(n.health, NodeHealth::Live);
    assert_eq!(n.latency_ms, Some(87));
    assert_eq!(n.failure_count, 0);
    assert_eq!(n.success_count, 1);
    assert_eq!(n.sleep_until, None);
    n.mark_alive(90);
    assert_eq!(n.success_count, 2);
}

#[test]
fn revival_after_quarantine_equals_revival_alone() {
    let mut a = node("a");
    let mut b = node("a");
    a.put_to_sleep_at(100, 1000);
    a.mark_alive(55);
    b.mark_alive(55);
    assert_eq!(a.health, b.health);
    assert_eq!(a.latency_ms, b.latency_ms);
    assert_eq!(a.failure_count, b.failure_count);
    assert_eq!(a.success_count, b.success_count);
    assert_eq!(a.sleep_until, b.sleep_until);
}

#[test]
fn node_without_quarantine_is_ready() {
    let n = node("a");
    assert!(n.is_ready_for_test());
    assert!(n.is_ready_for_test_at(0));
}

#[test]
fn cloned_node_is_equal() {
    let mut n = node("x");
    n.mark_alive(3);
    let c = n.cloned();
    assert_eq!(c.name, n.name);
    assert_eq!(c.health, n.health);
    assert_eq!(c.latency_ms, n.latency_ms);
    assert_eq!(c.success_count, n.success_count);
}

#[test]
fn defaults_are_empty() {
    let ip = PublicIpInfo::default();
    assert_eq!(ip.ip, "");
    assert_eq!(ip.country, "");
    assert_eq!(ip.country_code, "");
    assert_eq!(ip.city, "");
    assert_eq!(ip.org, "");
    let m = RotatorMetrics::default();
    assert_eq!(m.total_nodes, 0);
    assert_eq!(m.current_node, None);
    assert!(!m.is_running);
    assert!(!m.is_tun_active);
    assert_eq!(m.seconds_remaining, 0);
}
