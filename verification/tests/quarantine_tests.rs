use nexuflux::app::quarantine::QuarantineManager;
use nexuflux::domain::model::{NodeHealth, ProxyNode};

fn node(name: &str) -> ProxyNode {
    ProxyNode::new(name.to_string(), "VMESS".to_string(), "h".to_string(), 8443)
}

fn with_health(name: &str, h: NodeHealth) -> ProxyNode {
    let mut n = node(name);
    n.health = h;
    n
}

fn names(v: &[ProxyNode]) -> Vec<String> {
    v.iter().map(|n| n.name.clone()).collect()
}

#[test]
fn new_pool_is_empty() {
    let q = QuarantineManager::new(600_000);
    assert_eq!(q.len(), 0);
    assert_eq!(q.get_stats(), (0, 0, 0, 0));
    assert!(q.get_live_nodes().is_empty());
}

#[test]
fn update_nodes_appends_new_names_in_order() {
    let mut q = QuarantineManager::new(1000);
    q.update_nodes(vec![node("a"), node("b"), node("c")]);
    assert_eq!(q.len(), 3);
    assert_eq!(q.get_stats(), (3, 0, 0, 0));
}

#[test]
fn update_nodes_passes_health_only_to_untested() {
    let mut q = QuarantineManager::new(1000);
    q.update_nodes(vec![node("a"), node("b")]);
    q.mark_alive("a", 40);
    // "a" is live now; loading it as sleeping changes nothing
    // "b" is untested; loading it as live makes it live
    q.update_nodes(vec![with_health("a", NodeHealth::Sleeping), with_health("b", NodeHealth::Live)]);
    let live = q.get_live_nodes();
    assert_eq!(names(&live), vec!["a".to_string(), "b".to_string()]);
    // "a" kept its latency from the revival
    assert_eq!(live[0].latency_ms, Some(40));
    // "b" took only the health, not the other fields of the loaded node
    assert_eq!(live[1].latency_ms, None);
    assert_eq!(q.get_stats(), (2, 2, 0, 0));
}

#[test]
fn update_nodes_with_duplicate_names_keeps_one() {
    let mut q = QuarantineManager::new(1000);
    q.update_nodes(vec![node("a"), with_health("a", NodeHealth::Dead), node("b")]);
    assert_eq!(q.len(), 2);
    assert_eq!(q.get_stats(), (2, 0, 0, 1));
}

#[test]
fn mark_alive_and_sleep_of_unknown_name_change_nothing() {
    let mut q = QuarantineManager::new(1000);
    q.update_nodes(vec![node("a")]);
    q.mark_alive("zzz", 5);
    q.put_to_sleep_at("zzz", 10);
    assert_eq!(q.get_stats(), (1, 0, 0, 0));
}

#[test]
fn put_to_sleep_removes_from_rotation_but_keeps_node() {
    let mut q = QuarantineManager::new(600_000);
    q.update_nodes(vec![node("a"), node("b")]);
    q.mark_alive("a", 10);
    q.mark_alive("b", 20);
    q.put_to_sleep_at("a", 1_000);
    assert_eq!(names(&q.get_live_nodes()), vec!["b".to_string()]);
    assert_eq!(q.get_stats(), (2, 1, 1, 0));
}

#[test]
fn expired_sleeping_nodes_appear_at_wake_time() {
    let mut q = QuarantineManager::new(600_000);
    q.update_nodes(vec![node("a"), node("b"), node("c")]);
    q.put_to_sleep_at("a", 1_000);
    q.put_to_sleep_at("c", 2_000);
    assert!(q.get_expired_sleeping_nodes_at(600_999).is_empty());
    assert_eq!(q.get_expired_sleeping_nodes_at(601_000), vec!["a".to_string()]);
    assert_eq!(
        q.get_expired_sleeping_nodes_at(602_000),
        vec!["a".to_string(), "c".to_string()]
    );
    q.mark_alive("a", 30);
    assert_eq!(q.get_expired_sleeping_nodes_at(700_000), vec!["c".to_string()]);
}

#[test]
fn fresh_quarantine_is_not_expired_on_the_clock() {
    let mut q = QuarantineManager::new(600_000);
    q.update_nodes(vec![node("a")]);
    q.put_to_sleep("a");
    assert!(q.get_expired_sleeping_nodes().is_empty());
    let mut z = QuarantineManager::new(0);
    z.update_nodes(vec![node("a")]);
    z.put_to_sleep("a");
    assert_eq!(z.get_expired_sleeping_nodes(), vec!["a".to_string()]);
}

#[test]
fn select_next_live_node_is_round_robin() {
    let mut q = QuarantineManager::new(1000);
    q.update_nodes(vec![node("a"), node("b"), node("c")]);
    for n in ["a", "b", "c"] {
        q.mark_alive(n, 1);
    }
    // the cursor starts at 0 and advances before the pick
    let picks: Vec<String> = (0..6)
        .map(|_| q.select_next_live_node().unwrap().name)
        .collect();
    assert_eq!(picks, vec!["b", "c", "a", "b", "c", "a"]);
}

#[test]
fn select_next_live_node_without_live_nodes() {
    let mut q = QuarantineManager::new(1000);
    assert!(q.select_next_live_node().is_none());
    q.update_nodes(vec![node("a")]);
    q.put_to_sleep_at("a", 0);
    assert!(q.select_next_live_node().is_none());
}

#[test]
fn select_next_live_node_skips_sleeping() {
    let mut q = QuarantineManager::new(1000);
    q.update_nodes(vec![node("a"), node("b"), node("c")]);
    for n in ["a", "b", "c"] {
        q.mark_alive(n, 1);
    }
    q.put_to_sleep_at("b", 0);
    let picks: Vec<String> = (0..4)
        .map(|_| q.select_next_live_node().unwrap().name)
        .collect();
    assert_eq!(picks, vec!["c", "a", "c", "a"]);
}

#[test]
fn apply_probe_result_revives_or_quarantines() {
    let mut q = QuarantineManager::new(500);
    q.update_nodes(vec![node("a"), node("b")]);
    q.apply_probe_result_at("a", Some(77), 10);
    q.apply_probe_result_at("b", None, 10);
    let live = q.get_live_nodes();
    assert_eq!(names(&live), vec!["a".to_string()]);
    assert_eq!(live[0].latency_ms, Some(77));
    assert_eq!(q.get_stats(), (2, 1, 1, 0));
    assert_eq!(q.get_expired_sleeping_nodes_at(510), vec!["b".to_string()]);
    q.apply_probe_result("b", Some(5));
    assert_eq!(q.get_stats(), (2, 2, 0, 0));
}

#[test]
fn stats_count_each_health() {
    let mut q = QuarantineManager::new(1000);
    q.update_nodes(vec![
        with_health("a", NodeHealth::Live),
        with_health("b", NodeHealth::Sleeping),
        with_health("c", NodeHealth::Dead),
        with_health("d", NodeHealth::Untested),
        with_health("e", NodeHealth::Live),
    ]);
    let (total, live, sleeping, dead) = q.get_stats();
    assert_eq!((total, live, sleeping, dead), (5, 2, 1, 1));
    assert!(live + sleeping + dead <= total);
}

#[test]
fn loading_the_same_list_twice_equals_loading_it_once() {
    let list = vec![
        with_health("a", NodeHealth::Untested),
        with_health("b", NodeHealth::Live),
        with_health("a", NodeHealth::Sleeping),
        with_health("c", NodeHealth::Dead),
        with_health("b", NodeHealth::Dead),
    ];
    let mut once = QuarantineManager::new(1000);
    once.update_nodes(list.clone());
    let mut twice = QuarantineManager::new(1000);
    twice.update_nodes(list.clone());
    twice.update_nodes(list);
    assert_eq!(once.get_stats(), twice.get_stats());
    assert_eq!(once.get_stats(), (3, 1, 1, 1));
    assert_eq!(names(&once.get_live_nodes()), names(&twice.get_live_nodes()));
}

#[test]
fn full_round_hands_out_every_live_name_once() {
    let mut q = QuarantineManager::new(1000);
    q.update_nodes(vec![node("a"), node("b"), node("c"), node("d")]);
    for n in ["a", "b", "d"] {
        q.mark_alive(n, 1);
    }
    let mut round: Vec<String> = (0..3).map(|_| q.select_next_live_node().unwrap().name).collect();
    let first = round[0].clone();
    let next = q.select_next_live_node().unwrap().name;
    assert_eq!(next, first);
    round.sort();
    assert_eq!(round, vec!["a", "b", "d"]);
}
