use nexuflux::app::launch::{check_tun_privileges, choose_binary, first_existing};
use nexuflux::app::quarantine::QuarantineManager;
use nexuflux::app::rotator::{CountdownStep, RotatorEngine, SwitchPlan};
use nexuflux::domain::model::{ProxyNode, PublicIpInfo};

fn pool(names: &[&str]) -> QuarantineManager {
    let mut q = QuarantineManager::new(600_000);
    q.update_nodes(
        names
            .iter()
            .map(|n| ProxyNode::new(n.to_string(), "SS".to_string(), "s".to_string(), 1))
            .collect(),
    );
    q
}

#[test]
fn new_engine_defaults() {
    let e = RotatorEngine::new();
    assert!(!e.is_active());
    assert!(e.is_tun_active());
    assert_eq!(e.interval_secs(), 30);
    assert_eq!(e.seconds_remaining(), 30);
    assert_eq!(e.current_node(), None);
    assert_eq!(e.current_ip().ip, "");
}

#[test]
fn set_interval_clamps_to_five_seconds() {
    let mut e = RotatorEngine::new();
    e.set_interval(3);
    assert_eq!(e.interval_secs(), 5);
    e.set_interval(0);
    assert_eq!(e.interval_secs(), 5);
    e.set_interval(5);
    assert_eq!(e.interval_secs(), 5);
    e.set_interval(60);
    assert_eq!(e.interval_secs(), 60);
}

#[test]
fn set_tun_records_mode() {
    let mut e = RotatorEngine::new();
    e.set_tun(false);
    assert!(!e.is_tun_active());
    e.set_tun(true);
    assert!(e.is_tun_active());
}

#[test]
fn countdown_waits_interval_seconds_then_switches() {
    let mut e = RotatorEngine::new();
    e.set_interval(10);
    e.start();
    assert!(e.is_active());
    assert_eq!(e.seconds_remaining(), 10);
    let mut waits = 0;
    loop {
        match e.countdown_step() {
            CountdownStep::WaitSecond => {
                waits += 1;
                e.second_elapsed();
            }
            CountdownStep::Switch => break,
            CountdownStep::Halt => panic!("unexpected halt"),
        }
    }
    assert_eq!(waits, 10);
    assert_eq!(e.seconds_remaining(), 0);
    e.begin_countdown();
    assert_eq!(e.seconds_remaining(), 10);
}

#[test]
fn forced_switch_is_taken_once() {
    let mut e = RotatorEngine::new();
    e.start();
    e.second_elapsed();
    e.force_switch();
    assert_eq!(e.countdown_step(), CountdownStep::Switch);
    assert_eq!(e.seconds_remaining(), 29);
    assert_eq!(e.countdown_step(), CountdownStep::WaitSecond);
}

#[test]
fn stopped_engine_halts() {
    let mut e = RotatorEngine::new();
    assert_eq!(e.countdown_step(), CountdownStep::Halt);
    e.start();
    e.force_switch();
    e.stop();
    assert!(!e.is_active());
    assert_eq!(e.countdown_step(), CountdownStep::Halt);
}

#[test]
fn plan_switch_without_live_nodes_trips_breaker() {
    let e = RotatorEngine::new();
    let mut q = pool(&["a", "b"]);
    assert!(matches!(e.plan_switch(&mut q), SwitchPlan::NoLiveNodes));
}

#[test]
fn switch_success_sets_current_node() {
    let mut e = RotatorEngine::new();
    let mut q = pool(&["a", "b"]);
    q.mark_alive("a", 10);
    q.mark_alive("b", 10);
    let name = match e.plan_switch(&mut q) {
        SwitchPlan::Select(n) => n.name,
        SwitchPlan::NoLiveNodes => panic!("expected a node"),
    };
    assert_eq!(name, "b");
    e.complete_switch_at(&mut q, &name, true, 0);
    assert_eq!(e.current_node(), Some("b".to_string()));
    assert_eq!(q.get_stats(), (2, 2, 0, 0));
}

#[test]
fn switch_failure_quarantines_node() {
    let mut e = RotatorEngine::new();
    let mut q = pool(&["a"]);
    q.mark_alive("a", 10);
    let name = match e.plan_switch(&mut q) {
        SwitchPlan::Select(n) => n.name,
        SwitchPlan::NoLiveNodes => panic!("expected a node"),
    };
    e.complete_switch_at(&mut q, &name, false, 1_000);
    assert_eq!(e.current_node(), None);
    assert_eq!(q.get_stats(), (1, 0, 1, 0));
    assert!(q.get_expired_sleeping_nodes_at(600_999).is_empty());
    assert_eq!(q.get_expired_sleeping_nodes_at(601_000), vec!["a".to_string()]);
    let mut f = RotatorEngine::new();
    f.complete_switch(&mut q, &name, true);
    assert_eq!(f.current_node(), Some("a".to_string()));
}

#[test]
fn metrics_snapshot() {
    let mut e = RotatorEngine::new();
    let mut q = pool(&["a", "b", "c"]);
    q.mark_alive("a", 10);
    q.put_to_sleep_at("b", 0);
    e.set_tun(false);
    e.start();
    e.complete_switch_at(&mut q, &"a".to_string(), true, 0);
    e.record_public_ip(PublicIpInfo {
        ip: "1.2.3.4".to_string(),
        country: "Germany".to_string(),
        country_code: "DE".to_string(),
        city: "Berlin".to_string(),
        org: "ACME".to_string(),
    });
    let m = e.metrics(&q);
    assert_eq!(m.total_nodes, 3);
    assert_eq!(m.live_nodes, 1);
    assert_eq!(m.sleeping_nodes, 1);
    assert_eq!(m.dead_nodes, 0);
    assert_eq!(m.current_node, Some("a".to_string()));
    assert_eq!(m.current_ip.ip, "1.2.3.4");
    assert_eq!(m.current_ip.city, "Berlin");
    assert_eq!(m.current_latency_ms, None);
    assert_eq!(m.seconds_remaining, 30);
    assert!(m.is_running);
    assert!(!m.is_tun_active);
}

#[test]
fn tun_privileges() {
    assert!(check_tun_privileges(false, false).is_ok());
    assert!(check_tun_privileges(false, true).is_ok());
    assert!(check_tun_privileges(true, true).is_ok());
    assert_eq!(
        check_tun_privileges(true, false),
        Err("Administrator privileges required to enable Wintun TUN mode on Windows!".to_string())
    );
}

#[test]
fn binary_candidates() {
    assert_eq!(first_existing(&vec![false, true, true]), Some(1));
    assert_eq!(first_existing(&vec![false, false]), None);
    assert_eq!(first_existing(&vec![]), None);
    assert_eq!(choose_binary(&vec![false, false, true]), Some(2));
    assert_eq!(choose_binary(&vec![false, false]), Some(0));
    assert_eq!(choose_binary(&vec![]), None);
}

#[test]
fn panic_report_text() {
    let loc = nexuflux::app::launch::code_location("src/main.rs", 42);
    assert_eq!(loc, "src/main.rs:42");
    let r = nexuflux::app::launch::panic_report("2024-01-02 03:04:05", "boom", "payload", &loc);
    assert_eq!(r, "[2024-01-02 03:04:05] PANIC: boom\n  detail: payload\n  at: src/main.rs:42\n");
}
