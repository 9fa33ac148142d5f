//! Domain models: proxy nodes and their health, the public address report,
//! the metrics snapshot and log entries.
use vstd::prelude::*;

use std::time::SystemTime;

use crate::clock::{millis_of, now_millis};

verus! {

/// Status of an individual proxy node within the pool.
#[derive(Debug, Clone, Copy, PartialEq, Eq, Structural)]
pub enum NodeHealth {
    /// Tested, responding with good latency, ready for rotation.
    Live,
    /// Timed out or failed; temporarily quarantined.
    Sleeping,
    /// Permanently failed.
    Dead,
    /// Freshly loaded, waiting for its first delay test.
    Untested,
}

/// A single proxy node held in memory.
///
/// `sleep_until` is the point on the library clock (milliseconds since the UNIX
/// epoch, see `crate::clock`) until which the node stays quarantined.
#[derive(Debug, Clone)]
pub struct ProxyNode {
    pub name: String,
    pub protocol: String,
    pub health: NodeHealth,
    pub latency_ms: Option<u32>,
    pub failure_count: u32,
    pub success_count: u32,
    pub server: String,
    pub port: u16,
    pub sleep_until: Option<u64>,
}

/// The mathematical value of a `ProxyNode`: its strings as character sequences.
pub struct NodeView {
    pub name: Seq<char>,
    pub protocol: Seq<char>,
    pub health: NodeHealth,
    pub latency_ms: Option<u32>,
    pub failure_count: u32,
    pub success_count: u32,
    pub server: Seq<char>,
    pub port: u16,
    pub sleep_until: Option<u64>,
}

impl View for ProxyNode {
    type V = NodeView;

    open spec fn view(&self) -> NodeView {
        NodeView {
            name: self.name@,
            protocol: self.protocol@,
            health: self.health,
            latency_ms: self.latency_ms,
            failure_count: self.failure_count,
            success_count: self.success_count,
            server: self.server@,
            port: self.port,
            sleep_until: self.sleep_until,
        }
    }
}

/// A node as loaded: untested, no latency, no counts, no quarantine.
pub open spec fn fresh_node(name: Seq<char>, protocol: Seq<char>, server: Seq<char>, port: u16) -> NodeView {
    NodeView {
        name,
        protocol,
        health: NodeHealth::Untested,
        latency_ms: None,
        failure_count: 0,
        success_count: 0,
        server,
        port,
        sleep_until: None,
    }
}

/// `now + duration`, held at `u64::MAX` where the sum leaves the range.
pub open spec fn wake_time(now: u64, duration_ms: u64) -> u64 {
    if now + duration_ms > u64::MAX {
        u64::MAX
    } else {
        (now + duration_ms) as u64
    }
}

/// A node put into quarantine at `now` for `duration_ms`.
pub open spec fn slept(n: NodeView, now: u64, duration_ms: u64) -> NodeView {
    NodeView {
        health: NodeHealth::Sleeping,
        failure_count: (n.failure_count + 1) as u32,
        latency_ms: None,
        sleep_until: Some(wake_time(now, duration_ms)),
        ..n
    }
}

/// A node revived with a measured latency.
pub open spec fn revived(n: NodeView, latency: u32) -> NodeView {
    NodeView {
        health: NodeHealth::Live,
        latency_ms: Some(latency),
        failure_count: 0,
        success_count: (n.success_count + 1) as u32,
        sleep_until: None,
        ..n
    }
}

/// Whether the node's quarantine is over at `now`.
pub open spec fn ready_at(n: NodeView, now: u64) -> bool {
    match n.sleep_until {
        Some(wake) => now >= wake,
        None => true,
    }
}

impl ProxyNode {
    /// A freshly loaded node: untested, with no latency and no counts.
    pub fn new(name: String, protocol: String, server: String, port: u16) -> (r: Self)
        ensures
            r@ == fresh_node(name@, protocol@, server@, port),
    {
        ProxyNode {
            name,
            protocol,
            health: NodeHealth::Untested,
            latency_ms: None,
            failure_count: 0,
            success_count: 0,
            server,
            port,
            sleep_until: None,
        }
    }

    /// A copy of this node with the same value.
    pub fn cloned(&self) -> (r: Self)
        ensures
            r@ == self@,
    {
        ProxyNode {
            name: self.name.clone(),
            protocol: self.protocol.clone(),
            health: self.health,
            latency_ms: self.latency_ms,
            failure_count: self.failure_count,
            success_count: self.success_count,
            server: self.server.clone(),
            port: self.port,
            sleep_until: self.sleep_until,
        }
    }

    /// Marks the node as failed and quarantines it from `now` for `duration_ms`.
    pub fn put_to_sleep_at(&mut self, now: u64, duration_ms: u64)
        requires
            old(self).failure_count < u32::MAX,
        ensures
            final(self)@ == slept(old(self)@, now, duration_ms),
    {
        self.health = NodeHealth::Sleeping;
        self.failure_count = self.failure_count + 1;
        self.latency_ms = None;
        self.sleep_until = Some(now.saturating_add(duration_ms));
    }

    /// Marks the node as failed and quarantines it for `duration_ms` from the
    /// current time of the library clock: the quarantine starts at the clock's
    /// reading of the system time point read during the call.
    pub fn put_to_sleep(&mut self, duration_ms: u64)
        requires
            old(self).failure_count < u32::MAX,
        ensures
            exists|point: SystemTime|
                final(self)@ == slept(old(self)@, #[trigger] millis_of(point), duration_ms),
    {
        let now = now_millis();
        self.put_to_sleep_at(now, duration_ms);
        proof {
            let point = choose|p: SystemTime| now == millis_of(p);
            assert(self@ == slept(old(self)@, millis_of(point), duration_ms));
        }
    }

    /// Marks the node as revived and healthy with the measured latency.
    pub fn mark_alive(&mut self, latency: u32)
        requires
            old(self).success_count < u32::MAX,
        ensures
            final(self)@ == revived(old(self)@, latency),
    {
        self.health = NodeHealth::Live;
        self.latency_ms = Some(latency);
        self.failure_count = 0;
        self.success_count = self.success_count + 1;
        self.sleep_until = None;
    }

    /// Whether the quarantine of the node is over at `now`.
    pub fn is_ready_for_test_at(&self, now: u64) -> (r: bool)
        ensures
            r == ready_at(self@, now),
    {
        match self.sleep_until {
            Some(wake) => now >= wake,
            None => true,
        }
    }

    /// Whether the quarantine of the node is over at the current time of the library
    /// clock. A node that is not quarantined is always ready.
    pub fn is_ready_for_test(&self) -> (r: bool)
        ensures
            exists|point: SystemTime| r == ready_at(self@, #[trigger] millis_of(point)),
            self.sleep_until is None ==> r,
    {
        let now = now_millis();
        let r = self.is_ready_for_test_at(now);
        proof {
            let point = choose|p: SystemTime| now == millis_of(p);
            assert(r == ready_at(self@, millis_of(point)));
        }
        r
    }
}

/// The outbound public address and its geolocation.
#[derive(Debug, Clone)]
pub struct PublicIpInfo {
    pub ip: String,
    pub country: String,
    pub country_code: String,
    pub city: String,
    pub org: String,
}

pub struct PublicIpView {
    pub ip: Seq<char>,
    pub country: Seq<char>,
    pub country_code: Seq<char>,
    pub city: Seq<char>,
    pub org: Seq<char>,
}

impl View for PublicIpInfo {
    type V = PublicIpView;

    open spec fn view(&self) -> PublicIpView {
        PublicIpView {
            ip: self.ip@,
            country: self.country@,
            country_code: self.country_code@,
            city: self.city@,
            org: self.org@,
        }
    }
}

pub open spec fn empty_ip_view() -> PublicIpView {
    PublicIpView {
        ip: Seq::empty(),
        country: Seq::empty(),
        country_code: Seq::empty(),
        city: Seq::empty(),
        org: Seq::empty(),
    }
}

impl PublicIpInfo {
    /// A copy of this report with the same value.
    pub fn cloned(&self) -> (r: Self)
        ensures
            r@ == self@,
    {
        PublicIpInfo {
            ip: self.ip.clone(),
            country: self.country.clone(),
            country_code: self.country_code.clone(),
            city: self.city.clone(),
            org: self.org.clone(),
        }
    }
}

impl Default for PublicIpInfo {
    fn default() -> (r: Self)
        ensures
            r@ == empty_ip_view(),
    {
        PublicIpInfo {
            ip: String::new(),
            country: String::new(),
            country_code: String::new(),
            city: String::new(),
            org: String::new(),
        }
    }
}

/// Statistics snapshot handed to the user interface.
#[derive(Debug, Clone)]
pub struct RotatorMetrics {
    pub total_nodes: usize,
    pub live_nodes: usize,
    pub sleeping_nodes: usize,
    pub dead_nodes: usize,
    pub current_node: Option<String>,
    pub current_ip: PublicIpInfo,
    pub current_latency_ms: Option<u32>,
    pub seconds_remaining: u32,
    pub is_running: bool,
    pub is_tun_active: bool,
}

impl Default for RotatorMetrics {
    fn default() -> (r: Self)
        ensures
            r.total_nodes == 0,
            r.live_nodes == 0,
            r.sleeping_nodes == 0,
            r.dead_nodes == 0,
            r.current_node is None,
            r.current_ip@ == empty_ip_view(),
            r.current_latency_ms is None,
            r.seconds_remaining == 0,
            !r.is_running,
            !r.is_tun_active,
    {
        RotatorMetrics {
            total_nodes: 0,
            live_nodes: 0,
            sleeping_nodes: 0,
            dead_nodes: 0,
            current_node: None,
            current_ip: PublicIpInfo::default(),
            current_latency_ms: None,
            seconds_remaining: 0,
            is_running: false,
            is_tun_active: false,
        }
    }
}

/// A log line for the user interface's terminal view.
#[derive(Debug, Clone)]
pub struct AppLogEntry {
    pub timestamp: String,
    pub level: String,
    pub message: String,
}

} // verus!

verus! {

/// Reviving a quarantined node gives the same node as reviving it before the
/// quarantine: revival forgets the failure and the quarantine entirely.
pub proof fn law_revival_undoes_quarantine(n: NodeView, now: u64, duration_ms: u64, latency: u32)
    ensures
        revived(slept(n, now, duration_ms), latency) == revived(n, latency),
{
}

/// A quarantined node is ready for a new test exactly from its wake time on, and a
/// revived node is always ready.
pub proof fn law_quarantine_ends_at_wake_time(n: NodeView, now: u64, duration_ms: u64, latency: u32, t: u64)
    ensures
        ready_at(slept(n, now, duration_ms), t) <==> t >= wake_time(now, duration_ms),
        wake_time(now, duration_ms) >= now,
        now + duration_ms <= u64::MAX ==> wake_time(now, duration_ms) == now + duration_ms,
        now + duration_ms <= u64::MAX ==> (ready_at(slept(n, now, duration_ms), t) <==> t >= now
            + duration_ms),
        ready_at(revived(n, latency), t),
{
}

} // verus!
