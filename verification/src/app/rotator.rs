//! The rotation engine as a state machine: the countdown between switches, the
//! decisions of a switch, and the metrics snapshot. The runtime that sleeps, waits
//! for signals and talks to the proxy core drives it step by step.
use vstd::prelude::*;

use std::time::SystemTime;

use crate::clock::{millis_of, now_millis};
use crate::codec::opt_chars;
use crate::app::quarantine::{QuarantineManager, can_sleep, count_health, live_nodes, sleep_named};
use crate::domain::model::{NodeHealth, ProxyNode, PublicIpInfo, PublicIpView, RotatorMetrics, empty_ip_view};

verus! {

/// The shortest interval between two switches, in seconds.
pub const MIN_INTERVAL_SECS: u32 = 5;

/// The interval between two switches that a new engine starts with, in seconds.
pub const DEFAULT_INTERVAL_SECS: u32 = 30;

/// What the countdown asks the runtime to do next.
#[derive(Debug, Clone, Copy, PartialEq, Eq, Structural)]
pub enum CountdownStep {
    /// The engine is stopped: leave the rotation loop.
    Halt,
    /// Switch to the next node now.
    Switch,
    /// Wait one second (or until a forced switch is signalled).
    WaitSecond,
}

/// What a switch asks the runtime to do.
#[derive(Debug)]
pub enum SwitchPlan {
    /// Select this node in the rotation group of the core.
    Select(ProxyNode),
    /// No live node: test every node (the circuit breaker).
    NoLiveNodes,
}

/// The value of the engine's state.
pub struct RotatorView {
    pub is_running: bool,
    pub is_tun_active: bool,
    pub interval_secs: u32,
    pub seconds_remaining: u32,
    pub force_pending: bool,
    pub current_node: Option<Seq<char>>,
    pub current_ip: PublicIpView,
}

/// The state of the rotation engine.
pub struct RotatorEngine {
    is_running: bool,
    is_tun_active: bool,
    interval_secs: u32,
    seconds_remaining: u32,
    force_pending: bool,
    current_node: Option<String>,
    current_ip: PublicIpInfo,
}

impl View for RotatorEngine {
    type V = RotatorView;

    closed spec fn view(&self) -> RotatorView {
        RotatorView {
            is_running: self.is_running,
            is_tun_active: self.is_tun_active,
            interval_secs: self.interval_secs,
            seconds_remaining: self.seconds_remaining,
            force_pending: self.force_pending,
            current_node: opt_chars(self.current_node),
            current_ip: self.current_ip@,
        }
    }
}

/// The interval that a requested one becomes: never below the minimum.
pub open spec fn clamped_interval(secs: u32) -> u32 {
    if secs < MIN_INTERVAL_SECS {
        MIN_INTERVAL_SECS
    } else {
        secs
    }
}

/// The next step of the countdown and the state after it.
pub open spec fn countdown_next(s: RotatorView) -> (CountdownStep, RotatorView) {
    if !s.is_running {
        (CountdownStep::Halt, s)
    } else if s.force_pending {
        (CountdownStep::Switch, RotatorView { force_pending: false, ..s })
    } else if s.seconds_remaining == 0 {
        (CountdownStep::Switch, s)
    } else {
        (CountdownStep::WaitSecond, s)
    }
}

impl RotatorEngine {
    /// A stopped engine with TUN on, the default interval and a full countdown.
    pub fn new() -> (r: Self)
        ensures
            r@ == (RotatorView {
                is_running: false,
                is_tun_active: true,
                interval_secs: DEFAULT_INTERVAL_SECS,
                seconds_remaining: DEFAULT_INTERVAL_SECS,
                force_pending: false,
                current_node: None,
                current_ip: empty_ip_view(),
            }),
    {
        RotatorEngine {
            is_running: false,
            is_tun_active: true,
            interval_secs: DEFAULT_INTERVAL_SECS,
            seconds_remaining: DEFAULT_INTERVAL_SECS,
            force_pending: false,
            current_node: None,
            current_ip: PublicIpInfo::default(),
        }
    }

    /// Sets the interval between switches, raised to the minimum where it is below.
    pub fn set_interval(&mut self, secs: u32)
        ensures
            final(self)@ == (RotatorView { interval_secs: clamped_interval(secs), ..old(self)@ }),
    {
        let val = if secs < MIN_INTERVAL_SECS {
            MIN_INTERVAL_SECS
        } else {
            secs
        };
        self.interval_secs = val;
    }

    /// Records whether the full tunnel is on.
    pub fn set_tun(&mut self, active: bool)
        ensures
            final(self)@ == (RotatorView { is_tun_active: active, ..old(self)@ }),
    {
        self.is_tun_active = active;
    }

    /// Whether the engine is running.
    pub fn is_active(&self) -> (r: bool)
        ensures
            r == self@.is_running,
    {
        self.is_running
    }

    /// Whether the full tunnel is on.
    pub fn is_tun_active(&self) -> (r: bool)
        ensures
            r == self@.is_tun_active,
    {
        self.is_tun_active
    }

    /// The interval between switches, in seconds.
    pub fn interval_secs(&self) -> (r: u32)
        ensures
            r == self@.interval_secs,
    {
        self.interval_secs
    }

    /// The seconds left before the next switch.
    pub fn seconds_remaining(&self) -> (r: u32)
        ensures
            r == self@.seconds_remaining,
    {
        self.seconds_remaining
    }

    /// The name of the node last switched to.
    pub fn current_node(&self) -> (r: Option<String>)
        ensures
            opt_chars(r) == self@.current_node,
    {
        match &self.current_node {
            Some(n) => Some(n.clone()),
            None => None,
        }
    }

    /// The public address last reported.
    pub fn current_ip(&self) -> (r: PublicIpInfo)
        ensures
            r@ == self@.current_ip,
    {
        self.current_ip.cloned()
    }

    /// Requests a switch without waiting for the countdown; the request is kept until
    /// the countdown takes it.
    pub fn force_switch(&mut self)
        ensures
            final(self)@ == (RotatorView { force_pending: true, ..old(self)@ }),
    {
        self.force_pending = true;
    }

    /// Stops the engine: the countdown halts at its next step.
    pub fn stop(&mut self)
        ensures
            final(self)@ == (RotatorView { is_running: false, ..old(self)@ }),
    {
        self.is_running = false;
    }

    /// Starts the engine with a full countdown.
    pub fn start(&mut self)
        ensures
            final(self)@ == (RotatorView {
                is_running: true,
                seconds_remaining: old(self)@.interval_secs,
                ..old(self)@
            }),
    {
        self.is_running = true;
        self.seconds_remaining = self.interval_secs;
    }

    /// Restarts the countdown after a switch.
    pub fn begin_countdown(&mut self)
        ensures
            final(self)@ == (RotatorView { seconds_remaining: old(self)@.interval_secs, ..old(self)@ }),
    {
        self.seconds_remaining = self.interval_secs;
    }

    /// The next step of the countdown: halt when stopped, switch when a switch was
    /// forced (taking the request) or the countdown is over, else wait a second.
    pub fn countdown_step(&mut self) -> (r: CountdownStep)
        ensures
            (r, final(self)@) == countdown_next(old(self)@),
    {
        if !self.is_running {
            CountdownStep::Halt
        } else if self.force_pending {
            self.force_pending = false;
            CountdownStep::Switch
        } else if self.seconds_remaining == 0 {
            CountdownStep::Switch
        } else {
            CountdownStep::WaitSecond
        }
    }

    /// One second of the countdown has passed.
    pub fn second_elapsed(&mut self)
        requires
            old(self)@.seconds_remaining > 0,
        ensures
            final(self)@ == (RotatorView {
                seconds_remaining: (old(self)@.seconds_remaining - 1) as u32,
                ..old(self)@
            }),
    {
        self.seconds_remaining = self.seconds_remaining - 1;
    }

    /// The first step of a switch: the next live node in round-robin order, or the
    /// circuit breaker when no node is live.
    pub fn plan_switch(&self, quarantine: &mut QuarantineManager) -> (r: SwitchPlan)
        requires
            old(quarantine).wf(),
        ensures
            final(quarantine).wf(),
            final(quarantine).pool() == old(quarantine).pool(),
            final(quarantine).quarantine_ms() == old(quarantine).quarantine_ms(),
            ({
                let live = live_nodes(old(quarantine).pool());
                if live.len() == 0 {
                    r is NoLiveNodes && final(quarantine).cursor() == old(quarantine).cursor()
                } else {
                    let c = ((old(quarantine).cursor() + 1) % (live.len() as int)) as usize;
                    &&& final(quarantine).cursor() == c
                    &&& r matches SwitchPlan::Select(n) && n@ == live[c as int]
                }
            }),
    {
        match quarantine.select_next_live_node() {
            Some(n) => SwitchPlan::Select(n),
            None => SwitchPlan::NoLiveNodes,
        }
    }

    /// The last step of a switch, once the core answered the selection of `node`:
    /// a node that could not be selected is put to sleep; a selected node becomes
    /// the current node.
    pub fn complete_switch_at(
        &mut self,
        quarantine: &mut QuarantineManager,
        node: &String,
        selected: bool,
        now: u64,
    )
        requires
            old(quarantine).wf(),
            !selected ==> can_sleep(old(quarantine).pool(), node@),
        ensures
            final(quarantine).wf(),
            final(quarantine).cursor() == old(quarantine).cursor(),
            final(quarantine).quarantine_ms() == old(quarantine).quarantine_ms(),
            selected ==> final(quarantine).pool() == old(quarantine).pool()
                && final(self)@ == (RotatorView { current_node: Some(node@), ..old(self)@ }),
            !selected ==> final(quarantine).pool() == sleep_named(
                old(quarantine).pool(),
                node@,
                now,
                old(quarantine).quarantine_ms(),
            ) && final(self)@ == old(self)@,
    {
        if !selected {
            quarantine.put_to_sleep_at(node.as_str(), now);
        } else {
            self.current_node = Some(node.clone());
        }
    }

    /// The last step of a switch at the current time of the library clock.
    pub fn complete_switch(&mut self, quarantine: &mut QuarantineManager, node: &String, selected: bool)
        requires
            old(quarantine).wf(),
            !selected ==> can_sleep(old(quarantine).pool(), node@),
        ensures
            final(quarantine).wf(),
            final(quarantine).cursor() == old(quarantine).cursor(),
            final(quarantine).quarantine_ms() == old(quarantine).quarantine_ms(),
            selected ==> final(quarantine).pool() == old(quarantine).pool()
                && final(self)@ == (RotatorView { current_node: Some(node@), ..old(self)@ }),
            !selected ==> (exists|point: SystemTime|
                final(quarantine).pool() == sleep_named(
                    old(quarantine).pool(),
                    node@,
                    #[trigger] millis_of(point),
                    old(quarantine).quarantine_ms(),
                )) && final(self)@ == old(self)@,
    {
        let now = now_millis();
        self.complete_switch_at(quarantine, node, selected, now);
        proof {
            let point = choose|p: SystemTime| now == millis_of(p);
            assert(!selected ==> quarantine.pool() == sleep_named(
                old(quarantine).pool(),
                node@,
                millis_of(point),
                quarantine.quarantine_ms(),
            ));
        }
    }

    /// Records the public address reported after a switch.
    pub fn record_public_ip(&mut self, ip: PublicIpInfo)
        ensures
            final(self)@ == (RotatorView { current_ip: ip@, ..old(self)@ }),
    {
        self.current_ip = ip;
    }

    /// The metrics snapshot: the pool's counts and the engine's state.
    pub fn metrics(&self, quarantine: &QuarantineManager) -> (r: RotatorMetrics)
        ensures
            r.total_nodes == quarantine.pool().len(),
            r.live_nodes == count_health(quarantine.pool(), NodeHealth::Live),
            r.sleeping_nodes == count_health(quarantine.pool(), NodeHealth::Sleeping),
            r.dead_nodes == count_health(quarantine.pool(), NodeHealth::Dead),
            opt_chars(r.current_node) == self@.current_node,
            r.current_ip@ == self@.current_ip,
            r.current_latency_ms is None,
            r.seconds_remaining == self@.seconds_remaining,
            r.is_running == self@.is_running,
            r.is_tun_active == self@.is_tun_active,
    {
        let (total, live, sleeping, dead) = quarantine.get_stats();
        RotatorMetrics {
            total_nodes: total,
            live_nodes: live,
            sleeping_nodes: sleeping,
            dead_nodes: dead,
            current_node: self.current_node(),
            current_ip: self.current_ip.cloned(),
            current_latency_ms: None,
            seconds_remaining: self.seconds_remaining,
            is_running: self.is_running,
            is_tun_active: self.is_tun_active,
        }
    }
}

} // verus!

verus! {

/// The state `k` seconds into a countdown.
pub open spec fn ticked(s: RotatorView, k: nat) -> RotatorView {
    RotatorView { seconds_remaining: (s.seconds_remaining - k) as u32, ..s }
}

/// A running countdown with no forced switch waits exactly its remaining seconds,
/// one at a time, and then switches.
pub proof fn law_countdown_switches_after_interval(s: RotatorView, k: nat)
    requires
        s.is_running,
        !s.force_pending,
        k <= s.seconds_remaining,
    ensures
        k < s.seconds_remaining ==> countdown_next(ticked(s, k)).0 == CountdownStep::WaitSecond,
        k == s.seconds_remaining ==> countdown_next(ticked(s, k)).0 == CountdownStep::Switch,
        countdown_next(ticked(s, k)).1 == ticked(s, k),
{
}

/// A stopped engine halts whatever else is pending; a forced switch of a running
/// engine is taken at once and only once.
pub proof fn law_stop_halts_and_force_switches(s: RotatorView)
    ensures
        !s.is_running ==> countdown_next(s) == (CountdownStep::Halt, s),
        s.is_running && s.force_pending ==> countdown_next(s).0 == CountdownStep::Switch
            && !countdown_next(s).1.force_pending,
{
}

/// The interval between switches is never below the minimum, and a request at or
/// above it is kept as it is.
pub proof fn law_interval_floor(secs: u32)
    ensures
        clamped_interval(secs) >= MIN_INTERVAL_SECS,
        secs >= MIN_INTERVAL_SECS ==> clamped_interval(secs) == secs,
{
}

} // verus!
