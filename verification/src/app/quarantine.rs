//! The node pool with quarantine: nodes that fail are put to sleep for a fixed
//! span and tested again once it is over; live nodes are handed out round-robin.
use vstd::prelude::*;

use std::time::SystemTime;

use crate::clock::{millis_of, now_millis};
use crate::domain::model::{NodeHealth, NodeView, ProxyNode, ready_at, revived, slept};

verus! {

/// How long a failing node stays in quarantine by default: ten minutes.
pub const DEFAULT_QUARANTINE_MS: u64 = 600_000;

/// The values of a sequence of nodes.
pub open spec fn views(nodes: Seq<ProxyNode>) -> Seq<NodeView> {
    nodes.map_values(|n: ProxyNode| n@)
}

/// No two nodes of the pool share a name.
pub open spec fn unique_names(pool: Seq<NodeView>) -> bool {
    forall|i: int, j: int|
        0 <= i < pool.len() && 0 <= j < pool.len() && i != j ==> #[trigger] pool[i].name
            != #[trigger] pool[j].name
}

/// Whether the pool holds a node of this name.
pub open spec fn has_name(pool: Seq<NodeView>, name: Seq<char>) -> bool {
    exists|i: int| 0 <= i < pool.len() && #[trigger] pool[i].name == name
}

/// The pool after loading one node: a node of a known name only passes on its
/// health, and only to a node that is still untested; a node of a new name is
/// appended.
pub open spec fn merged(pool: Seq<NodeView>, n: NodeView) -> Seq<NodeView> {
    if has_name(pool, n.name) {
        let i = choose|i: int| 0 <= i < pool.len() && #[trigger] pool[i].name == n.name;
        if pool[i].health == NodeHealth::Untested {
            pool.update(i, NodeView { health: n.health, ..pool[i] })
        } else {
            pool
        }
    } else {
        pool.push(n)
    }
}

/// The pool after loading a sequence of nodes in order.
pub open spec fn merged_all(pool: Seq<NodeView>, news: Seq<NodeView>) -> Seq<NodeView>
    decreases news.len(),
{
    if news.len() == 0 {
        pool
    } else {
        merged(merged_all(pool, news.drop_last()), news.last())
    }
}

/// The live nodes of the pool, in pool order.
pub open spec fn live_nodes(pool: Seq<NodeView>) -> Seq<NodeView>
    decreases pool.len(),
{
    if pool.len() == 0 {
        Seq::empty()
    } else {
        let rest = live_nodes(pool.drop_last());
        if pool.last().health == NodeHealth::Live {
            rest.push(pool.last())
        } else {
            rest
        }
    }
}

/// The names of the sleeping nodes whose quarantine is over at `now`, in pool order.
pub open spec fn expired_names(pool: Seq<NodeView>, now: u64) -> Seq<Seq<char>>
    decreases pool.len(),
{
    if pool.len() == 0 {
        Seq::empty()
    } else {
        let rest = expired_names(pool.drop_last(), now);
        let n = pool.last();
        if n.health == NodeHealth::Sleeping && ready_at(n, now) {
            rest.push(n.name)
        } else {
            rest
        }
    }
}

/// The number of nodes of the pool with the given health.
pub open spec fn count_health(pool: Seq<NodeView>, h: NodeHealth) -> nat
    decreases pool.len(),
{
    if pool.len() == 0 {
        0
    } else {
        count_health(pool.drop_last(), h) + if pool.last().health == h {
            1nat
        } else {
            0nat
        }
    }
}

/// The pool with every node of the given name revived with `latency`.
pub open spec fn revive_named(pool: Seq<NodeView>, name: Seq<char>, latency: u32) -> Seq<NodeView> {
    Seq::new(
        pool.len(),
        |i: int|
            if pool[i].name == name {
                revived(pool[i], latency)
            } else {
                pool[i]
            },
    )
}

/// The pool with every node of the given name quarantined at `now` for `duration_ms`.
pub open spec fn sleep_named(pool: Seq<NodeView>, name: Seq<char>, now: u64, duration_ms: u64) -> Seq<
    NodeView,
> {
    Seq::new(
        pool.len(),
        |i: int|
            if pool[i].name == name {
                slept(pool[i], now, duration_ms)
            } else {
                pool[i]
            },
    )
}

/// The node of this name can be revived without its success count overflowing.
pub open spec fn can_revive(pool: Seq<NodeView>, name: Seq<char>) -> bool {
    forall|i: int| 0 <= i < pool.len() && #[trigger] pool[i].name == name ==> pool[i].success_count < u32::MAX
}

/// The node of this name can be put to sleep without its failure count overflowing.
pub open spec fn can_sleep(pool: Seq<NodeView>, name: Seq<char>) -> bool {
    forall|i: int| 0 <= i < pool.len() && #[trigger] pool[i].name == name ==> pool[i].failure_count < u32::MAX
}

/// The pool of known nodes, a round-robin cursor over the live nodes and the span
/// of quarantine in milliseconds.
///
/// Nodes are kept in the order in which their names were first loaded; no two share
/// a name.
pub struct QuarantineManager {
    nodes: Vec<ProxyNode>,
    active_cursor: usize,
    quarantine_duration_ms: u64,
}

impl QuarantineManager {
    /// The nodes of the pool, in order.
    pub closed spec fn pool(&self) -> Seq<NodeView> {
        views(self.nodes@)
    }

    /// The round-robin cursor: the position among the live nodes last handed out.
    pub closed spec fn cursor(&self) -> usize {
        self.active_cursor
    }

    /// The span of quarantine in milliseconds.
    pub closed spec fn quarantine_ms(&self) -> u64 {
        self.quarantine_duration_ms
    }

    /// Node names are unique and the cursor can advance.
    pub open spec fn wf(&self) -> bool {
        &&& unique_names(self.pool())
        &&& self.cursor() < usize::MAX
    }

    /// An empty pool with the given span of quarantine.
    pub fn new(quarantine_duration_ms: u64) -> (r: Self)
        ensures
            r.wf(),
            r.pool() == Seq::<NodeView>::empty(),
            r.cursor() == 0,
            r.quarantine_ms() == quarantine_duration_ms,
    {
        let r = QuarantineManager { nodes: Vec::new(), active_cursor: 0, quarantine_duration_ms };
        assert(r.pool() =~= Seq::<NodeView>::empty());
        r
    }

    /// The number of nodes in the pool.
    pub fn len(&self) -> (r: usize)
        ensures
            r == self.pool().len(),
    {
        self.nodes.len()
    }

    /// The position of the node of this name, if the pool holds one.
    fn find(&self, name: &String) -> (r: Option<usize>)
        ensures
            match r {
                Some(k) => k < self.pool().len() && self.pool()[k as int].name == name@,
                None => !has_name(self.pool(), name@),
            },
    {
        let mut i: usize = 0;
        while i < self.nodes.len()
            invariant
                i <= self.nodes.len(),
                forall|j: int| 0 <= j < i ==> self.pool()[j].name != name@,
            decreases self.nodes.len() - i,
        {
            if self.nodes[i].name == *name {
                return Some(i);
            }
            i = i + 1;
        }
        None
    }

    /// Whether the node of this name can be put to sleep without its failure count
    /// overflowing (true where the pool holds no such node).
    pub fn sleep_allowed(&self, name: &str) -> (r: bool)
        requires
            self.wf(),
        ensures
            r == can_sleep(self.pool(), name@),
    {
        let key = name.to_string();
        proof {
            vstd::string::to_string_from_display_ensures_for_str(name, key);
        }
        match self.find(&key) {
            Some(i) => {
                proof {
                    assert forall|j: int|
                        0 <= j < self.pool().len() && #[trigger] self.pool()[j].name == name@ implies j
                        == i by {
                        if j != i {
                            assert(self.pool()[i as int].name != self.pool()[j].name);
                        }
                    }
                }
                self.nodes[i].failure_count < u32::MAX
            },
            None => true,
        }
    }

    /// Whether the node of this name can be revived without its success count
    /// overflowing (true where the pool holds no such node).
    pub fn revive_allowed(&self, name: &str) -> (r: bool)
        requires
            self.wf(),
        ensures
            r == can_revive(self.pool(), name@),
    {
        let key = name.to_string();
        proof {
            vstd::string::to_string_from_display_ensures_for_str(name, key);
        }
        match self.find(&key) {
            Some(i) => {
                proof {
                    assert forall|j: int|
                        0 <= j < self.pool().len() && #[trigger] self.pool()[j].name == name@ implies j
                        == i by {
                        if j != i {
                            assert(self.pool()[i as int].name != self.pool()[j].name);
                        }
                    }
                }
                self.nodes[i].success_count < u32::MAX
            },
            None => true,
        }
    }

    /// Loads nodes in order: a node of a known name only passes on its health, and
    /// only to a node that is still untested; a node of a new name is appended.
    pub fn update_nodes(&mut self, new_nodes: Vec<ProxyNode>)
        requires
            old(self).wf(),
        ensures
            final(self).wf(),
            final(self).pool() == merged_all(old(self).pool(), views(new_nodes@)),
            final(self).cursor() == old(self).cursor(),
            final(self).quarantine_ms() == old(self).quarantine_ms(),
    {
        let ghost start = self.pool();
        let ghost news = views(new_nodes@);
        let mut k: usize = 0;
        while k < new_nodes.len()
            invariant
                k <= new_nodes.len(),
                news == views(new_nodes@),
                self.wf(),
                self.pool() == merged_all(start, news.take(k as int)),
                self.cursor() == old(self).cursor(),
                self.quarantine_ms() == old(self).quarantine_ms(),
            decreases new_nodes.len() - k,
        {
            let node = &new_nodes[k];
            let ghost before = self.pool();
            assert(news.take(k + 1).drop_last() =~= news.take(k as int));
            assert(news.take(k + 1).last() == node@);
            match self.find(&node.name) {
                Some(i) => {
                    let ghost c = choose|j: int| 0 <= j < before.len() && #[trigger] before[j].name == node@.name;
                    assert(before[i as int].name == node@.name);
                    assert(c == i);
                    if self.nodes[i].health == NodeHealth::Untested {
                        let mut existing = self.nodes[i].cloned();
                        existing.health = node.health;
                        self.nodes.set(i, existing);
                        assert(self.pool() =~= before.update(i as int, NodeView { health: node@.health, ..before[i as int] }));
                    }
                },
                None => {
                    self.nodes.push(node.cloned());
                    assert(self.pool() =~= before.push(node@));
                },
            }
            k = k + 1;
        }
        assert(news.take(new_nodes.len() as int) =~= news);
    }

    /// The live nodes of the pool, in pool order.
    pub fn get_live_nodes(&self) -> (r: Vec<ProxyNode>)
        ensures
            views(r@) == live_nodes(self.pool()),
    {
        let ghost pool = self.pool();
        let mut out: Vec<ProxyNode> = Vec::new();
        let mut i: usize = 0;
        while i < self.nodes.len()
            invariant
                i <= self.nodes.len(),
                pool == self.pool(),
                views(out@) == live_nodes(pool.take(i as int)),
            decreases self.nodes.len() - i,
        {
            assert(pool.take(i + 1).drop_last() =~= pool.take(i as int));
            if self.nodes[i].health == NodeHealth::Live {
                let ghost before = out@;
                out.push(self.nodes[i].cloned());
                assert(views(out@) =~= views(before).push(pool[i as int]));
            }
            i = i + 1;
        }
        assert(pool.take(self.nodes.len() as int) =~= pool);
        out
    }

    /// Revives the node of this name with the measured latency; a name that the
    /// pool does not hold changes nothing.
    pub fn mark_alive(&mut self, name: &str, latency: u32)
        requires
            old(self).wf(),
            can_revive(old(self).pool(), name@),
        ensures
            final(self).wf(),
            final(self).pool() == revive_named(old(self).pool(), name@, latency),
            final(self).cursor() == old(self).cursor(),
            final(self).quarantine_ms() == old(self).quarantine_ms(),
    {
        let key = name.to_string();
        proof {
            vstd::string::to_string_from_display_ensures_for_str(name, key);
        }
        let ghost before = self.pool();
        match self.find(&key) {
            Some(i) => {
                let mut n = self.nodes[i].cloned();
                n.mark_alive(latency);
                self.nodes.set(i, n);
                assert(self.pool() =~= revive_named(before, name@, latency));
            },
            None => {
                assert(before =~= revive_named(before, name@, latency));
            },
        }
    }

    /// Quarantines the node of this name at `now` for the pool's span; a name that
    /// the pool does not hold changes nothing.
    pub fn put_to_sleep_at(&mut self, name: &str, now: u64)
        requires
            old(self).wf(),
            can_sleep(old(self).pool(), name@),
        ensures
            final(self).wf(),
            final(self).pool() == sleep_named(old(self).pool(), name@, now, old(self).quarantine_ms()),
            final(self).cursor() == old(self).cursor(),
            final(self).quarantine_ms() == old(self).quarantine_ms(),
    {
        let key = name.to_string();
        proof {
            vstd::string::to_string_from_display_ensures_for_str(name, key);
        }
        let ghost before = self.pool();
        match self.find(&key) {
            Some(i) => {
                let mut n = self.nodes[i].cloned();
                n.put_to_sleep_at(now, self.quarantine_duration_ms);
                self.nodes.set(i, n);
                assert(self.pool() =~= sleep_named(before, name@, now, self.quarantine_duration_ms));
            },
            None => {
                assert(before =~= sleep_named(before, name@, now, self.quarantine_duration_ms));
            },
        }
    }

    /// Quarantines the node of this name for the pool's span from the current time
    /// of the library clock; a name that the pool does not hold changes nothing.
    pub fn put_to_sleep(&mut self, name: &str)
        requires
            old(self).wf(),
            can_sleep(old(self).pool(), name@),
        ensures
            final(self).wf(),
            exists|point: SystemTime|
                final(self).pool() == sleep_named(
                    old(self).pool(),
                    name@,
                    #[trigger] millis_of(point),
                    old(self).quarantine_ms(),
                ),
            final(self).cursor() == old(self).cursor(),
            final(self).quarantine_ms() == old(self).quarantine_ms(),
    {
        let now = now_millis();
        self.put_to_sleep_at(name, now);
        proof {
            let point = choose|p: SystemTime| now == millis_of(p);
            assert(self.pool() == sleep_named(old(self).pool(), name@, millis_of(point), self.quarantine_ms()));
        }
    }

    /// Records the outcome of a delay test of the node of this name at `now`: a
    /// measured delay revives it, a failed test quarantines it.
    pub fn apply_probe_result_at(&mut self, name: &str, delay: Option<u32>, now: u64)
        requires
            old(self).wf(),
            delay is Some ==> can_revive(old(self).pool(), name@),
            delay is None ==> can_sleep(old(self).pool(), name@),
        ensures
            final(self).wf(),
            final(self).pool() == match delay {
                Some(d) => revive_named(old(self).pool(), name@, d),
                None => sleep_named(old(self).pool(), name@, now, old(self).quarantine_ms()),
            },
            final(self).cursor() == old(self).cursor(),
            final(self).quarantine_ms() == old(self).quarantine_ms(),
    {
        match delay {
            Some(d) => self.mark_alive(name, d),
            None => self.put_to_sleep_at(name, now),
        }
    }

    /// Records the outcome of a delay test at the current time of the library clock.
    pub fn apply_probe_result(&mut self, name: &str, delay: Option<u32>)
        requires
            old(self).wf(),
            delay is Some ==> can_revive(old(self).pool(), name@),
            delay is None ==> can_sleep(old(self).pool(), name@),
        ensures
            final(self).wf(),
            delay matches Some(d) ==> final(self).pool() == revive_named(old(self).pool(), name@, d),
            delay is None ==> exists|point: SystemTime|
                final(self).pool() == sleep_named(
                    old(self).pool(),
                    name@,
                    #[trigger] millis_of(point),
                    old(self).quarantine_ms(),
                ),
            final(self).cursor() == old(self).cursor(),
            final(self).quarantine_ms() == old(self).quarantine_ms(),
    {
        let ghost before = self.pool();
        let now = now_millis();
        self.apply_probe_result_at(name, delay, now);
        assert(self.pool() == match delay {
            Some(d) => revive_named(before, name@, d),
            None => sleep_named(before, name@, now, self.quarantine_ms()),
        });
        proof {
            let point = choose|p: SystemTime| now == millis_of(p);
            assert(delay is None ==> self.pool() == sleep_named(
                before,
                name@,
                millis_of(point),
                self.quarantine_ms(),
            ));
        }
    }

    /// Hands out the next live node in round-robin order: the cursor advances by one
    /// modulo the number of live nodes. With no live node, nothing changes.
    pub fn select_next_live_node(&mut self) -> (r: Option<ProxyNode>)
        requires
            old(self).wf(),
        ensures
            final(self).wf(),
            final(self).pool() == old(self).pool(),
            final(self).quarantine_ms() == old(self).quarantine_ms(),
            ({
                let live = live_nodes(old(self).pool());
                if live.len() == 0 {
                    r is None && final(self).cursor() == old(self).cursor()
                } else {
                    let c = ((old(self).cursor() + 1) % (live.len() as int)) as usize;
                    &&& final(self).cursor() == c
                    &&& r matches Some(n) && n@ == live[c as int]
                }
            }),
            select_step(old(self).pool(), old(self).cursor()) == (
                match r {
                    Some(n) => Some(n@),
                    None => None,
                },
                final(self).cursor(),
            ),
    {
        let live = self.get_live_nodes();
        if live.len() == 0 {
            return None;
        }
        let c = (self.active_cursor + 1) % live.len();
        self.active_cursor = c;
        let n = live[c].cloned();
        assert(views(live@)[c as int] == live@[c as int]@);
        Some(n)
    }

    /// The names of the sleeping nodes whose quarantine is over at `now`, in pool order.
    pub fn get_expired_sleeping_nodes_at(&self, now: u64) -> (r: Vec<String>)
        ensures
            r@.map_values(|s: String| s@) == expired_names(self.pool(), now),
    {
        let ghost pool = self.pool();
        let mut out: Vec<String> = Vec::new();
        let mut i: usize = 0;
        while i < self.nodes.len()
            invariant
                i <= self.nodes.len(),
                pool == self.pool(),
                out@.map_values(|s: String| s@) == expired_names(pool.take(i as int), now),
            decreases self.nodes.len() - i,
        {
            assert(pool.take(i + 1).drop_last() =~= pool.take(i as int));
            let n = &self.nodes[i];
            if n.health == NodeHealth::Sleeping && n.is_ready_for_test_at(now) {
                let ghost before = out@;
                out.push(n.name.clone());
                assert(out@.map_values(|s: String| s@) =~= before.map_values(|s: String| s@).push(
                    pool[i as int].name,
                ));
            }
            i = i + 1;
        }
        assert(pool.take(self.nodes.len() as int) =~= pool);
        out
    }

    /// The names of the sleeping nodes whose quarantine is over at the current time
    /// of the library clock, in pool order.
    pub fn get_expired_sleeping_nodes(&self) -> (r: Vec<String>)
        ensures
            exists|point: SystemTime|
                r@.map_values(|s: String| s@) == expired_names(self.pool(), #[trigger] millis_of(point)),
    {
        let now = now_millis();
        let r = self.get_expired_sleeping_nodes_at(now);
        proof {
            let point = choose|p: SystemTime| now == millis_of(p);
            assert(r@.map_values(|s: String| s@) == expired_names(self.pool(), millis_of(point)));
        }
        r
    }

    /// The number of nodes, and of live, sleeping and dead nodes.
    pub fn get_stats(&self) -> (r: (usize, usize, usize, usize))
        ensures
            r.0 == self.pool().len(),
            r.1 == count_health(self.pool(), NodeHealth::Live),
            r.2 == count_health(self.pool(), NodeHealth::Sleeping),
            r.3 == count_health(self.pool(), NodeHealth::Dead),
    {
        let ghost pool = self.pool();
        let mut live: usize = 0;
        let mut sleeping: usize = 0;
        let mut dead: usize = 0;
        let total = self.nodes.len();
        let mut i: usize = 0;
        while i < total
            invariant
                i <= total,
                total == self.nodes.len(),
                pool == self.pool(),
                live == count_health(pool.take(i as int), NodeHealth::Live),
                sleeping == count_health(pool.take(i as int), NodeHealth::Sleeping),
                dead == count_health(pool.take(i as int), NodeHealth::Dead),
                live <= i,
                sleeping <= i,
                dead <= i,
            decreases total - i,
        {
            assert(pool.take(i + 1).drop_last() =~= pool.take(i as int));
            match self.nodes[i].health {
                NodeHealth::Live => live = live + 1,
                NodeHealth::Sleeping => sleeping = sleeping + 1,
                NodeHealth::Dead => dead = dead + 1,
                NodeHealth::Untested => {},
            }
            i = i + 1;
        }
        assert(pool.take(total as int) =~= pool);
        (total, live, sleeping, dead)
    }
}

} // verus!

verus! {

/// Every live node of a pool is a live node of the pool.
pub proof fn lemma_live_nodes_members(pool: Seq<NodeView>)
    ensures
        forall|k: int|
            0 <= k < live_nodes(pool).len() ==> (#[trigger] live_nodes(pool)[k]).health
                == NodeHealth::Live && pool.contains(live_nodes(pool)[k]),
        live_nodes(pool).len() <= pool.len(),
    decreases pool.len(),
{
    if pool.len() > 0 {
        let rest = pool.drop_last();
        lemma_live_nodes_members(rest);
        assert forall|k: int| 0 <= k < live_nodes(pool).len() implies (#[trigger] live_nodes(
            pool,
        )[k]).health == NodeHealth::Live && pool.contains(live_nodes(pool)[k]) by {
            if k < live_nodes(rest).len() {
                let x = live_nodes(rest)[k];
                assert(live_nodes(pool)[k] == x);
                let j = choose|j: int| 0 <= j < rest.len() && rest[j] == x;
                assert(pool[j] == x);
            } else {
                assert(live_nodes(pool)[k] == pool.last());
                assert(pool[pool.len() - 1] == pool.last());
            }
        }
    }
}

/// Every live node of a pool is among its live nodes.
pub proof fn lemma_live_nodes_complete(pool: Seq<NodeView>, j: int)
    requires
        0 <= j < pool.len(),
        pool[j].health == NodeHealth::Live,
    ensures
        live_nodes(pool).contains(pool[j]),
    decreases pool.len(),
{
    let rest = pool.drop_last();
    if j == pool.len() - 1 {
        assert(live_nodes(pool).last() == pool[j]);
        assert(live_nodes(pool)[live_nodes(pool).len() - 1] == pool[j]);
    } else {
        lemma_live_nodes_complete(rest, j);
        assert(rest[j] == pool[j]);
        let k = choose|k: int| 0 <= k < live_nodes(rest).len() && live_nodes(rest)[k] == pool[j];
        assert(live_nodes(pool)[k] == pool[j]);
    }
}

/// A name is among the expired names at `now` exactly when a sleeping node of that
/// name is ready at `now`.
pub proof fn lemma_expired_names_members(pool: Seq<NodeView>, now: u64, name: Seq<char>)
    ensures
        expired_names(pool, now).contains(name) <==> exists|j: int|
            0 <= j < pool.len() && (#[trigger] pool[j]).name == name && pool[j].health
                == NodeHealth::Sleeping && ready_at(pool[j], now),
    decreases pool.len(),
{
    if pool.len() > 0 {
        let rest = pool.drop_last();
        lemma_expired_names_members(rest, now, name);
        let n = pool.last();
        let e = expired_names(pool, now);
        let er = expired_names(rest, now);
        if exists|j: int|
            0 <= j < pool.len() && (#[trigger] pool[j]).name == name && pool[j].health
                == NodeHealth::Sleeping && ready_at(pool[j], now) {
            let j = choose|j: int|
                0 <= j < pool.len() && (#[trigger] pool[j]).name == name && pool[j].health
                    == NodeHealth::Sleeping && ready_at(pool[j], now);
            if j == pool.len() - 1 {
                assert(e[e.len() - 1] == name);
            } else {
                assert(rest[j] == pool[j]);
                let k = choose|k: int| 0 <= k < er.len() && er[k] == name;
                assert(e[k] == name);
            }
        }
        if e.contains(name) {
            let k = choose|k: int| 0 <= k < e.len() && e[k] == name;
            if k < er.len() {
                assert(er[k] == name);
                let j = choose|j: int|
                    0 <= j < rest.len() && (#[trigger] rest[j]).name == name && rest[j].health
                        == NodeHealth::Sleeping && ready_at(rest[j], now);
                assert(pool[j] == rest[j]);
            } else {
                assert(pool[pool.len() - 1] == n);
            }
        }
    }
}

/// The live, sleeping and dead nodes are never more than the whole pool.
pub proof fn law_stats_within_total(pool: Seq<NodeView>)
    ensures
        count_health(pool, NodeHealth::Live) + count_health(pool, NodeHealth::Sleeping)
            + count_health(pool, NodeHealth::Dead) <= pool.len(),
    decreases pool.len(),
{
    if pool.len() > 0 {
        law_stats_within_total(pool.drop_last());
    }
}

/// A quarantined node leaves the rotation: no live node carries its name, while the
/// pool keeps every node (nothing is dropped) in its place.
pub proof fn law_sleep_excludes_from_rotation(pool: Seq<NodeView>, name: Seq<char>, now: u64, duration_ms: u64)
    ensures
        forall|k: int|
            0 <= k < live_nodes(sleep_named(pool, name, now, duration_ms)).len() ==> (#[trigger] live_nodes(
                sleep_named(pool, name, now, duration_ms),
            )[k]).name != name,
        sleep_named(pool, name, now, duration_ms).len() == pool.len(),
        forall|i: int|
            0 <= i < pool.len() ==> (#[trigger] sleep_named(pool, name, now, duration_ms)[i]).name
                == pool[i].name,
{
    let p = sleep_named(pool, name, now, duration_ms);
    lemma_live_nodes_members(p);
    assert forall|k: int| 0 <= k < live_nodes(p).len() implies (#[trigger] live_nodes(p)[k]).name
        != name by {
        let x = live_nodes(p)[k];
        let j = choose|j: int| 0 <= j < p.len() && p[j] == x;
        if pool[j].name == name {
            assert(p[j].health == NodeHealth::Sleeping);
        }
    }
}

/// A revived node of the pool rejoins the rotation.
pub proof fn law_revival_rejoins_rotation(pool: Seq<NodeView>, name: Seq<char>, latency: u32)
    requires
        has_name(pool, name),
    ensures
        exists|k: int|
            0 <= k < live_nodes(revive_named(pool, name, latency)).len() && (#[trigger] live_nodes(
                revive_named(pool, name, latency),
            )[k]).name == name,
{
    let p = revive_named(pool, name, latency);
    let j = choose|j: int| 0 <= j < pool.len() && #[trigger] pool[j].name == name;
    assert(p[j].health == NodeHealth::Live);
    lemma_live_nodes_complete(p, j);
    let k = choose|k: int| 0 <= k < live_nodes(p).len() && live_nodes(p)[k] == p[j];
    assert(live_nodes(p)[k].name == name);
}

/// A node quarantined at `now` is handed out for a new test exactly from its wake
/// time on, unless something else changed it in between.
pub proof fn law_quarantine_expires_at_wake_time(
    pool: Seq<NodeView>,
    name: Seq<char>,
    now: u64,
    duration_ms: u64,
    t: u64,
)
    requires
        has_name(pool, name),
    ensures
        expired_names(sleep_named(pool, name, now, duration_ms), t).contains(name) <==> t
            >= crate::domain::model::wake_time(now, duration_ms),
{
    let p = sleep_named(pool, name, now, duration_ms);
    lemma_expired_names_members(p, t, name);
    let j = choose|j: int| 0 <= j < pool.len() && #[trigger] pool[j].name == name;
    assert(p[j].name == name);
    if t >= crate::domain::model::wake_time(now, duration_ms) {
        assert(p[j].health == NodeHealth::Sleeping && ready_at(p[j], t));
    }
}

/// A node quarantined at `now` sleeps for the whole span: every node of that name
/// is sleeping until `now + duration_ms` (held at `u64::MAX` past the range), with
/// one more failure (below the counter's limit) and no latency, and is not handed out for a new test at any
/// time before that.
pub proof fn law_quarantine_lasts_its_span(
    pool: Seq<NodeView>,
    name: Seq<char>,
    now: u64,
    duration_ms: u64,
    t: u64,
)
    ensures
        forall|i: int|
            0 <= i < pool.len() && pool[i].name == name ==> {
                let n = #[trigger] sleep_named(pool, name, now, duration_ms)[i];
                &&& n.health == NodeHealth::Sleeping
                &&& n.latency_ms is None
                &&& pool[i].failure_count < u32::MAX ==> n.failure_count == pool[i].failure_count + 1
                &&& n.sleep_until matches Some(w) && w >= now && (now + duration_ms <= u64::MAX ==> w
                    == now + duration_ms)
            },
        t < crate::domain::model::wake_time(now, duration_ms) ==> !expired_names(
            sleep_named(pool, name, now, duration_ms),
            t,
        ).contains(name),
{
    let p = sleep_named(pool, name, now, duration_ms);
    lemma_expired_names_members(p, t, name);
    if t < crate::domain::model::wake_time(now, duration_ms) && expired_names(p, t).contains(name) {
        let j = choose|j: int|
            0 <= j < p.len() && p[j].name == name && p[j].health == NodeHealth::Sleeping && ready_at(
                p[j],
                t,
            );
        assert(pool[j].name == name);
    }
}

/// The node that a selection hands out is a live node of the pool.
pub proof fn law_selection_is_live(pool: Seq<NodeView>, cursor: usize)
    requires
        live_nodes(pool).len() > 0,
    ensures
        ({
            let live = live_nodes(pool);
            let c = ((cursor + 1) % (live.len() as int)) as int;
            &&& 0 <= c < live.len()
            &&& live[c].health == NodeHealth::Live
            &&& pool.contains(live[c])
        }),
{
    lemma_live_nodes_members(pool);
    let live = live_nodes(pool);
    let c = ((cursor + 1) % (live.len() as int)) as int;
    assert(0 <= c < live.len());
    assert(live[c].health == NodeHealth::Live);
}

/// The positions that consecutive round-robin selections hand out are distinct
/// until every one of the `k` live nodes has been handed out once.
pub proof fn law_round_robin_visits_each_once(c: int, k: int, i: int, j: int)
    requires
        k > 0,
        c >= 0,
        1 <= i < j <= k,
    ensures
        (c + i) % k != (c + j) % k,
{
    if (c + i) % k == (c + j) % k {
        vstd::arithmetic::div_mod::lemma_fundamental_div_mod(c + i, k);
        vstd::arithmetic::div_mod::lemma_fundamental_div_mod(c + j, k);
        let qi = (c + i) / k;
        let qj = (c + j) / k;
        assert(j - i == k * (qj - qi)) by (nonlinear_arith)
            requires
                c + i == k * qi + (c + i) % k,
                c + j == k * qj + (c + j) % k,
                (c + i) % k == (c + j) % k,
        ;
        assert(false) by (nonlinear_arith)
            requires
                j - i == k * (qj - qi),
                0 < j - i < k,
                k > 0,
        ;
    }
}

/// Loading nodes never drops or renames a known node, and changes a known node only
/// by giving an untested node a health; every loaded name is known afterwards.
pub proof fn law_loading_keeps_known_nodes(pool: Seq<NodeView>, news: Seq<NodeView>)
    ensures
        merged_all(pool, news).len() >= pool.len(),
        forall|i: int|
            0 <= i < pool.len() ==> {
                let m = #[trigger] merged_all(pool, news)[i];
                &&& m.name == pool[i].name
                &&& pool[i].health != NodeHealth::Untested ==> m == pool[i]
                &&& m == NodeView { health: m.health, ..pool[i] }
            },
        forall|k: int| 0 <= k < news.len() ==> has_name(merged_all(pool, news), (#[trigger] news[k]).name),
    decreases news.len(),
{
    if news.len() > 0 {
        let prev_news = news.drop_last();
        law_loading_keeps_known_nodes(pool, prev_news);
        let prev = merged_all(pool, prev_news);
        let n = news.last();
        let cur = merged_all(pool, news);
        assert(cur == merged(prev, n));
        if has_name(prev, n.name) {
            let i = choose|i: int| 0 <= i < prev.len() && #[trigger] prev[i].name == n.name;
            assert(cur[i].name == n.name);
        } else {
            assert(cur[cur.len() - 1] == n);
        }
        assert forall|i: int| 0 <= i < pool.len() implies {
            let m = #[trigger] merged_all(pool, news)[i];
            &&& m.name == pool[i].name
            &&& pool[i].health != NodeHealth::Untested ==> m == pool[i]
            &&& m == NodeView { health: m.health, ..pool[i] }
        } by {
            assert(prev[i].name == pool[i].name);
        }
        assert forall|k: int| 0 <= k < news.len() implies has_name(cur, (#[trigger] news[k]).name) by {
            if k < news.len() - 1 {
                assert(prev_news[k] == news[k]);
                let j = choose|j: int| 0 <= j < prev.len() && #[trigger] prev[j].name == news[k].name;
                assert(cur[j].name == prev[j].name);
            }
        }
    }
}

} // verus!

verus! {

/// The health that loading `news` in order gives a known node of this name that
/// had health `h`: each loaded node of that name passes on its health while the
/// node is still untested.
pub open spec fn loaded_health(h: NodeHealth, news: Seq<NodeView>, name: Seq<char>) -> NodeHealth
    decreases news.len(),
{
    if news.len() == 0 {
        h
    } else {
        let prev = loaded_health(h, news.drop_last(), name);
        if news.last().name == name && prev == NodeHealth::Untested {
            news.last().health
        } else {
            prev
        }
    }
}

/// A tested health is kept by any loading.
pub proof fn lemma_loaded_health_keeps_tested(h: NodeHealth, news: Seq<NodeView>, name: Seq<char>)
    requires
        h != NodeHealth::Untested,
    ensures
        loaded_health(h, news, name) == h,
    decreases news.len(),
{
    if news.len() > 0 {
        lemma_loaded_health_keeps_tested(h, news.drop_last(), name);
    }
}

/// Loading nodes of other names leaves the health as it is.
pub proof fn lemma_loaded_health_other_names(h: NodeHealth, news: Seq<NodeView>, name: Seq<char>)
    requires
        forall|k: int| 0 <= k < news.len() ==> (#[trigger] news[k]).name != name,
    ensures
        loaded_health(h, news, name) == h,
    decreases news.len(),
{
    if news.len() > 0 {
        assert(news.last() == news[news.len() - 1]);
        lemma_loaded_health_other_names(h, news.drop_last(), name);
    }
}

/// Loading the same nodes again does not change the health they gave.
pub proof fn lemma_loaded_health_idempotent(h: NodeHealth, news: Seq<NodeView>, name: Seq<char>)
    ensures
        loaded_health(loaded_health(h, news, name), news, name) == loaded_health(h, news, name),
{
    let r = loaded_health(h, news, name);
    if r != NodeHealth::Untested {
        lemma_loaded_health_keeps_tested(r, news, name);
    } else if h != NodeHealth::Untested {
        lemma_loaded_health_keeps_tested(h, news, name);
    }
}

/// With exactly one loaded node of this name, a known node takes its health when
/// still untested and keeps its own otherwise.
pub proof fn lemma_loaded_health_single(h: NodeHealth, news: Seq<NodeView>, name: Seq<char>, k: int)
    requires
        0 <= k < news.len(),
        news[k].name == name,
        forall|j: int| 0 <= j < news.len() && j != k ==> (#[trigger] news[j]).name != name,
    ensures
        loaded_health(h, news, name) == if h == NodeHealth::Untested {
            news[k].health
        } else {
            h
        },
    decreases news.len(),
{
    let prev = news.drop_last();
    if k == news.len() - 1 {
        assert forall|j: int| 0 <= j < prev.len() implies (#[trigger] prev[j]).name != name by {
            assert(prev[j] == news[j]);
        }
        lemma_loaded_health_other_names(h, prev, name);
    } else {
        assert forall|j: int| 0 <= j < prev.len() && j != k implies (#[trigger] prev[j]).name != name by {
            assert(prev[j] == news[j]);
        }
        assert(prev[k] == news[k]);
        lemma_loaded_health_single(h, prev, name, k);
        assert(news.last() == news[news.len() - 1]);
        if h != NodeHealth::Untested {
            lemma_loaded_health_keeps_tested(h, news, name);
        }
    }
}

/// What loading does to each node: a known node keeps every field but its health,
/// which `loaded_health` gives; an appended node gets the health that loading gives
/// an untested node; names stay unique; with only known names nothing is appended.
pub proof fn lemma_merged_all_shape(pool: Seq<NodeView>, news: Seq<NodeView>)
    requires
        unique_names(pool),
    ensures
        unique_names(merged_all(pool, news)),
        merged_all(pool, news).len() >= pool.len(),
        forall|i: int|
            0 <= i < pool.len() ==> #[trigger] merged_all(pool, news)[i] == (NodeView {
                health: loaded_health(pool[i].health, news, pool[i].name),
                ..pool[i]
            }),
        forall|i: int|
            pool.len() <= i < merged_all(pool, news).len() ==> (#[trigger] merged_all(pool, news)[i]).health
                == loaded_health(NodeHealth::Untested, news, merged_all(pool, news)[i].name),
        (forall|k: int| 0 <= k < news.len() ==> has_name(pool, (#[trigger] news[k]).name)) ==> merged_all(
            pool,
            news,
        ).len() == pool.len(),
    decreases news.len(),
{
    if news.len() > 0 {
        let pn = news.drop_last();
        let n = news.last();
        lemma_merged_all_shape(pool, pn);
        law_loading_keeps_known_nodes(pool, pn);
        let prev = merged_all(pool, pn);
        let cur = merged_all(pool, news);
        assert(cur == merged(prev, n));
        if has_name(prev, n.name) {
            let j = choose|j: int| 0 <= j < prev.len() && #[trigger] prev[j].name == n.name;
            assert forall|i: int| 0 <= i < prev.len() && i != j implies #[trigger] cur[i] == prev[i]
                && prev[i].name != n.name by {
                assert(prev[i].name != prev[j].name);
            }
            assert(cur.len() == prev.len());
            assert(cur[j] == NodeView {
                health: if prev[j].health == NodeHealth::Untested {
                    n.health
                } else {
                    prev[j].health
                },
                ..prev[j]
            });
            assert forall|a: int, b: int|
                0 <= a < cur.len() && 0 <= b < cur.len() && a != b implies #[trigger] cur[a].name
                != #[trigger] cur[b].name by {
                assert(cur[a].name == prev[a].name);
                assert(cur[b].name == prev[b].name);
            }
            assert forall|i: int| 0 <= i < pool.len() implies #[trigger] cur[i] == (NodeView {
                health: loaded_health(pool[i].health, news, pool[i].name),
                ..pool[i]
            }) by {
                assert(prev[i].name == pool[i].name);
            }
            assert forall|i: int| pool.len() <= i < cur.len() implies (#[trigger] cur[i]).health
                == loaded_health(NodeHealth::Untested, news, cur[i].name) by {
                assert(prev[i].name == cur[i].name);
            }
        } else {
            assert(cur == prev.push(n));
            assert forall|k: int| 0 <= k < pn.len() implies (#[trigger] pn[k]).name != n.name by {
                if pn[k].name == n.name {
                    assert(has_name(prev, pn[k].name));
                }
            }
            lemma_loaded_health_other_names(NodeHealth::Untested, pn, n.name);
            assert forall|i: int| 0 <= i < pool.len() implies #[trigger] cur[i] == (NodeView {
                health: loaded_health(pool[i].health, news, pool[i].name),
                ..pool[i]
            }) by {
                assert(cur[i] == prev[i]);
                assert(prev[i].name == pool[i].name);
                if pool[i].name == n.name {
                    assert(has_name(prev, n.name));
                }
            }
            assert forall|i: int| pool.len() <= i < cur.len() implies (#[trigger] cur[i]).health
                == loaded_health(NodeHealth::Untested, news, cur[i].name) by {
                if i < prev.len() {
                    assert(cur[i] == prev[i]);
                    if prev[i].name == n.name {
                        assert(has_name(prev, n.name));
                    }
                } else {
                    assert(cur[i] == n);
                }
            }
            assert forall|a: int, b: int|
                0 <= a < cur.len() && 0 <= b < cur.len() && a != b implies #[trigger] cur[a].name
                != #[trigger] cur[b].name by {
                if a < prev.len() && b < prev.len() {
                    assert(cur[a] == prev[a]);
                    assert(cur[b] == prev[b]);
                } else if a < prev.len() {
                    assert(cur[a] == prev[a]);
                    assert(cur[b] == n);
                    if prev[a].name == n.name {
                        assert(has_name(prev, n.name));
                    }
                } else if b < prev.len() {
                    assert(cur[b] == prev[b]);
                    assert(cur[a] == n);
                    if prev[b].name == n.name {
                        assert(has_name(prev, n.name));
                    }
                }
            }
            if forall|k: int| 0 <= k < news.len() ==> has_name(pool, (#[trigger] news[k]).name) {
                assert(news[news.len() - 1] == n);
                let j = choose|j: int| 0 <= j < pool.len() && #[trigger] pool[j].name == n.name;
                assert(prev[j].name == n.name);
                assert(false);
            }
        }
    }
}

/// A reload gives a known untested node the loaded health and never overrides the
/// health of a node already found live, sleeping or dead; every other field of a
/// known node stays as it was.
pub proof fn law_reload_sets_only_untested_health(pool: Seq<NodeView>, news: Seq<NodeView>, i: int, k: int)
    requires
        unique_names(pool),
        0 <= i < pool.len(),
        0 <= k < news.len(),
        news[k].name == pool[i].name,
        forall|j: int| 0 <= j < news.len() && j != k ==> (#[trigger] news[j]).name != pool[i].name,
    ensures
        merged_all(pool, news)[i] == (NodeView {
            health: if pool[i].health == NodeHealth::Untested {
                news[k].health
            } else {
                pool[i].health
            },
            ..pool[i]
        }),
{
    lemma_merged_all_shape(pool, news);
    lemma_loaded_health_single(pool[i].health, news, pool[i].name, k);
    assert(merged_all(pool, news)[i] == (NodeView {
        health: loaded_health(pool[i].health, news, pool[i].name),
        ..pool[i]
    }));
}

/// Loading the same nodes twice leaves the pool as loading them once.
pub proof fn law_reload_is_idempotent(pool: Seq<NodeView>, news: Seq<NodeView>)
    requires
        unique_names(pool),
    ensures
        merged_all(merged_all(pool, news), news) == merged_all(pool, news),
{
    let r = merged_all(pool, news);
    lemma_merged_all_shape(pool, news);
    law_loading_keeps_known_nodes(pool, news);
    lemma_merged_all_shape(r, news);
    let r2 = merged_all(r, news);
    assert(r2.len() == r.len());
    assert forall|i: int| 0 <= i < r.len() implies #[trigger] r2[i] == r[i] by {
        assert(r2[i] == NodeView { health: loaded_health(r[i].health, news, r[i].name), ..r[i] });
        if i < pool.len() {
            assert(r[i] == NodeView { health: loaded_health(pool[i].health, news, pool[i].name), ..pool[i] });
            lemma_loaded_health_idempotent(pool[i].health, news, pool[i].name);
        } else {
            assert(r[i].health == loaded_health(NodeHealth::Untested, news, r[i].name));
            lemma_loaded_health_idempotent(NodeHealth::Untested, news, r[i].name);
        }
    }
    assert(r2 =~= r);
}

/// No two live nodes of a pool with unique names share a name.
pub proof fn lemma_live_names_unique(pool: Seq<NodeView>)
    requires
        unique_names(pool),
    ensures
        unique_names(live_nodes(pool)),
    decreases pool.len(),
{
    if pool.len() > 0 {
        let rest = pool.drop_last();
        assert(unique_names(rest)) by {
            assert forall|a: int, b: int|
                0 <= a < rest.len() && 0 <= b < rest.len() && a != b implies #[trigger] rest[a].name
                != #[trigger] rest[b].name by {
                assert(rest[a] == pool[a]);
                assert(rest[b] == pool[b]);
            }
        }
        lemma_live_names_unique(rest);
        lemma_live_nodes_members(rest);
        let lr = live_nodes(rest);
        let l = live_nodes(pool);
        if pool.last().health == NodeHealth::Live {
            assert forall|a: int, b: int|
                0 <= a < l.len() && 0 <= b < l.len() && a != b implies #[trigger] l[a].name
                != #[trigger] l[b].name by {
                if a < lr.len() && b < lr.len() {
                    assert(l[a] == lr[a]);
                    assert(l[b] == lr[b]);
                } else if a < lr.len() {
                    assert(l[a] == lr[a]);
                    let j = choose|j: int| 0 <= j < rest.len() && rest[j] == lr[a];
                    assert(pool[j] == rest[j]);
                    assert(pool[pool.len() - 1] == pool.last());
                } else if b < lr.len() {
                    assert(l[b] == lr[b]);
                    let j = choose|j: int| 0 <= j < rest.len() && rest[j] == lr[b];
                    assert(pool[j] == rest[j]);
                    assert(pool[pool.len() - 1] == pool.last());
                }
            }
        }
    }
}

/// One full round of round-robin selection hands out every live node once: the
/// `k`-th of `L` consecutive selections (cursor advanced `k` times from `cursor`)
/// gives the live node at `(cursor + k) % L`, these `L` nodes carry pairwise
/// different names, and the selection after them repeats the first.
pub proof fn law_round_robin_full_cycle(pool: Seq<NodeView>, cursor: int, i: int, j: int)
    requires
        unique_names(pool),
        live_nodes(pool).len() > 0,
        cursor >= 0,
        1 <= i < j <= live_nodes(pool).len(),
    ensures
        ({
            let live = live_nodes(pool);
            let l = live.len() as int;
            &&& live[(cursor + i) % l].name != live[(cursor + j) % l].name
            &&& (cursor + l + 1) % l == (cursor + 1) % l
            &&& forall|k: int| k >= 0 ==> #[trigger] (((cursor + k) % l + 1) % l) == (cursor + k + 1) % l
        }),
{
    let live = live_nodes(pool);
    let l = live.len() as int;
    lemma_live_names_unique(pool);
    law_round_robin_visits_each_once(cursor, l, i, j);
    vstd::arithmetic::div_mod::lemma_mod_bound(cursor + i, l);
    vstd::arithmetic::div_mod::lemma_mod_bound(cursor + j, l);
    vstd::arithmetic::div_mod::lemma_mod_add_multiples_vanish(cursor + 1, l);
    assert((cursor + l + 1) == l + (cursor + 1));
    assert forall|k: int| k >= 0 implies #[trigger] (((cursor + k) % l + 1) % l) == (cursor + k + 1) % l by {
        vstd::arithmetic::div_mod::lemma_add_mod_noop(cursor + k, 1, l);
        vstd::arithmetic::div_mod::lemma_small_mod(1nat, l as nat);
    }
}

} // verus!

verus! {

/// One selection on an unchanged pool: the node handed out and the cursor after it.
pub open spec fn select_step(pool: Seq<NodeView>, cursor: usize) -> (Option<NodeView>, usize) {
    let live = live_nodes(pool);
    if live.len() == 0 {
        (None, cursor)
    } else {
        let c = ((cursor + 1) % (live.len() as int)) as usize;
        (Some(live[c as int]), c)
    }
}

/// The cursor after `k` consecutive selections on an unchanged pool.
pub open spec fn cursor_after(pool: Seq<NodeView>, cursor: usize, k: nat) -> usize
    decreases k,
{
    if k == 0 {
        cursor
    } else {
        select_step(pool, cursor_after(pool, cursor, (k - 1) as nat)).1
    }
}

/// The nodes handed out by `k` consecutive selections on an unchanged pool with a
/// live node.
pub open spec fn selections(pool: Seq<NodeView>, cursor: usize, k: nat) -> Seq<NodeView>
    decreases k,
{
    if k == 0 {
        Seq::empty()
    } else {
        selections(pool, cursor, (k - 1) as nat).push(
            select_step(pool, cursor_after(pool, cursor, (k - 1) as nat)).0->0,
        )
    }
}

proof fn lemma_selections_positions(pool: Seq<NodeView>, cursor: usize, k: nat)
    requires
        live_nodes(pool).len() > 0,
        pool.len() <= usize::MAX,
    ensures
        k >= 1 ==> cursor_after(pool, cursor, k) as int == (cursor + k) % (live_nodes(pool).len() as int),
        selections(pool, cursor, k).len() == k,
        forall|j: int|
            0 <= j < k ==> #[trigger] selections(pool, cursor, k)[j] == live_nodes(pool)[(cursor + j
                + 1) % (live_nodes(pool).len() as int)],
    decreases k,
{
    let l = live_nodes(pool).len() as int;
    lemma_live_nodes_members(pool);
    if k > 0 {
        let km = (k - 1) as nat;
        lemma_selections_positions(pool, cursor, km);
        let c = cursor_after(pool, cursor, km);
        if km >= 1 {
            vstd::arithmetic::div_mod::lemma_add_mod_noop_right(1, cursor + km, l);
            assert((c + 1) % l == (cursor + k) % l);
        }
        assert(cursor_after(pool, cursor, k) as int == (cursor + k) % l);
        let s = selections(pool, cursor, k);
        let sp = selections(pool, cursor, km);
        assert forall|j: int| 0 <= j < k implies #[trigger] s[j] == live_nodes(pool)[(cursor + j + 1)
            % l] by {
            if j < km {
                assert(s[j] == sp[j]);
            } else {
                assert(s[j] == select_step(pool, c).0->0);
                if km >= 1 {
                    vstd::arithmetic::div_mod::lemma_add_mod_noop_right(1, cursor + km, l);
                }
            }
        }
    }
}

/// One full round of selections on an unchanged pool hands out every live node
/// exactly once: `L` consecutive selections (`L` the number of live nodes) give
/// pairwise different names, each live node among them, and the selection after
/// them gives the same node as the first.
pub proof fn law_full_round_hands_out_each_live_node_once(pool: Seq<NodeView>, cursor: usize)
    requires
        unique_names(pool),
        live_nodes(pool).len() > 0,
        pool.len() <= usize::MAX,
    ensures
        ({
            let live = live_nodes(pool);
            let l = live.len();
            let round = selections(pool, cursor, (l + 1) as nat);
            &&& round.len() == l + 1
            &&& forall|a: int, b: int|
                0 <= a < l && 0 <= b < l && a != b ==> #[trigger] round[a].name != #[trigger] round[b].name
            &&& forall|p: int| 0 <= p < l ==> round.take(l as int).contains(#[trigger] live[p])
            &&& round[l as int] == round[0]
        }),
{
    let live = live_nodes(pool);
    let l = live.len() as int;
    let round = selections(pool, cursor, (l + 1) as nat);
    lemma_selections_positions(pool, cursor, (l + 1) as nat);
    lemma_live_names_unique(pool);
    assert forall|a: int, b: int|
        0 <= a < l && 0 <= b < l && a != b implies #[trigger] round[a].name != #[trigger] round[b].name by {
        let pa = (cursor + a + 1) % l;
        let pb = (cursor + b + 1) % l;
        if a < b {
            law_round_robin_visits_each_once(cursor as int, l, a + 1, b + 1);
        } else {
            law_round_robin_visits_each_once(cursor as int, l, b + 1, a + 1);
        }
        assert(round[a] == live[pa]);
        assert(round[b] == live[pb]);
    }
    assert forall|p: int| 0 <= p < l implies round.take(l as int).contains(#[trigger] live[p]) by {
        let j = (p - cursor - 1) % l;
        vstd::arithmetic::div_mod::lemma_add_mod_noop_right(cursor + 1, p - cursor - 1, l);
        vstd::arithmetic::div_mod::lemma_small_mod(p as nat, l as nat);
        assert((cursor + j + 1) % l == p);
        assert(round[j] == live[p]);
        assert(round.take(l as int)[j] == live[p]);
    }
    vstd::arithmetic::div_mod::lemma_mod_add_multiples_vanish(cursor + 1, l);
    assert(cursor + l + 1 == l + (cursor + 1));
    assert(round[l] == live[(cursor + l + 1) % l]);
    assert(round[0] == live[(cursor + 0 + 1) % l]);
}

} // verus!
