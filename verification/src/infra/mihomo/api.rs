//! The request and response logic of the proxy core's REST API (the external
//! controller): the addresses of the calls, the authorization header, the reading
//! of the proxy list and of the public-address lookups. The HTTP traffic itself is
//! done by the runtime.
use vstd::prelude::*;

use crate::app::quarantine::views;
use crate::codec::{lowercased, percent_encode, percent_encoded, to_lowercase};
use crate::domain::model::{NodeView, ProxyNode, PublicIpInfo, fresh_node, revived};
use crate::text::{decimal, decimal_chars, push_chars, push_str, string_from_chars, text_is};

verus! {

/// The address of the core's REST controller.
pub const DEFAULT_API_URL: &'static str = "http://127.0.0.1:9090";

/// The proxy group in which the rotation selects nodes.
pub const ROTATION_GROUP: &'static str = "ROTATOR";

/// The address that delay tests fetch.
pub const DELAY_TEST_URL: &'static str = "http://cp.cloudflare.com/generate_204";

/// The time limit of a delay test, in milliseconds.
pub const DELAY_TEST_TIMEOUT_MS: u32 = 2500;

/// How long the core's REST controller may take to come up, in nanoseconds: up to
/// five seconds.
pub const STARTUP_LIMIT_NS: u64 = 5_000_000_000;

/// The value of the `Authorization` header: a bearer token for a non-empty secret.
pub open spec fn auth_value(secret: Option<Seq<char>>) -> Option<Seq<char>> {
    match secret {
        Some(s) => if s.len() > 0 {
            Some("Bearer "@ + s)
        } else {
            None
        },
        None => None,
    }
}

/// The address of the version call, which tells whether the controller is up.
pub open spec fn version_address(api: Seq<char>) -> Seq<char> {
    api + "/version"@
}

/// The address of the proxy list.
pub open spec fn proxies_address(api: Seq<char>) -> Seq<char> {
    api + "/proxies"@
}

/// The address at which a group's selected proxy is set.
pub open spec fn group_address(api: Seq<char>, group: Seq<char>) -> Seq<char> {
    api + "/proxies/"@ + percent_encoded(group)
}

/// The address of a node's delay test.
pub open spec fn delay_address(api: Seq<char>, node: Seq<char>, test_url: Seq<char>, timeout_ms: u32) -> Seq<char> {
    api + "/proxies/"@ + percent_encoded(node) + "/delay?url="@ + percent_encoded(test_url)
        + "&timeout="@ + decimal(timeout_ms as nat)
}

/// One entry of the core's proxy list.
pub struct ProxyItem {
    pub name: String,
    pub proxy_type: String,
    /// The delays of past tests, oldest first.
    pub history: Option<Vec<u32>>,
}

pub struct ProxyItemView {
    pub name: Seq<char>,
    pub proxy_type: Seq<char>,
    pub history: Option<Seq<u32>>,
}

impl View for ProxyItem {
    type V = ProxyItemView;

    open spec fn view(&self) -> ProxyItemView {
        ProxyItemView {
            name: self.name@,
            proxy_type: self.proxy_type@,
            history: match self.history {
                Some(h) => Some(h@),
                None => None,
            },
        }
    }
}

/// Entries of these types (compared in lower case) are groups or built-ins, not
/// proxy nodes.
pub open spec fn is_group_type(lower: Seq<char>) -> bool {
    ||| lower == "selector"@
    ||| lower == "urltest"@
    ||| lower == "fallback"@
    ||| lower == "loadbalance"@
    ||| lower == "direct"@
    ||| lower == "reject"@
    ||| lower == "compatible"@
}

/// The latest delay of an entry's history.
pub open spec fn last_delay(history: Option<Seq<u32>>) -> Option<u32> {
    match history {
        Some(h) => if h.len() > 0 {
            Some(h.last())
        } else {
            None
        },
        None => None,
    }
}

/// The node of a proxy entry: untested without a delay history, else revived with
/// its latest delay.
pub open spec fn item_node(item: ProxyItemView) -> NodeView {
    let n = fresh_node(item.name, item.proxy_type, Seq::empty(), 0);
    match last_delay(item.history) {
        Some(d) => revived(n, d),
        None => n,
    }
}

/// The nodes of a proxy list, in order, without groups and built-ins.
pub open spec fn proxy_list_nodes(items: Seq<ProxyItemView>) -> Seq<NodeView>
    decreases items.len(),
{
    if items.len() == 0 {
        Seq::empty()
    } else {
        let rest = proxy_list_nodes(items.drop_last());
        let item = items.last();
        if is_group_type(lowercased(item.proxy_type)) {
            rest
        } else {
            rest.push(item_node(item))
        }
    }
}

/// The fields that public-address lookup services answer with; each is present
/// when the answer holds it as a string.
pub struct IpLookupFields {
    pub ip: Option<String>,
    pub query: Option<String>,
    pub country_name: Option<String>,
    pub country: Option<String>,
    pub country_code: Option<String>,
    pub country_code_camel: Option<String>,
    pub city: Option<String>,
    pub org: Option<String>,
    pub isp: Option<String>,
}

/// The first present field, else the default.
pub open spec fn first_of(a: Option<String>, b: Option<String>, default: Seq<char>) -> Seq<char> {
    match a {
        Some(s) => s@,
        None => match b {
            Some(s) => s@,
            None => default,
        },
    }
}

/// What the outcome of one poll of the starting core leads to.
#[derive(Debug, Clone, Copy, PartialEq, Eq, Structural)]
pub enum StartupPoll {
    /// The controller answered with success.
    Ready,
    /// The controller did not come up in time.
    TimedOut,
    /// Poll again.
    Retry,
}

/// The decision after a poll of the starting core, `elapsed_ns` nanoseconds after the start.
pub open spec fn startup_decision(healthy: bool, elapsed_ns: u64) -> StartupPoll {
    if healthy {
        StartupPoll::Ready
    } else if elapsed_ns > STARTUP_LIMIT_NS {
        StartupPoll::TimedOut
    } else {
        StartupPoll::Retry
    }
}

/// The value of the `Authorization` header for the REST secret, if any.
pub fn auth_header_value(secret: &Option<String>) -> (r: Option<String>)
    ensures
        match r {
            Some(v) => auth_value(match secret {
                Some(s) => Some(s@),
                None => None,
            }) == Some(v@),
            None => auth_value(match secret {
                Some(s) => Some(s@),
                None => None,
            }) is None,
        },
{
    match secret {
        Some(sec) => {
            if sec.as_str().unicode_len() > 0 {
                let mut out: Vec<char> = Vec::new();
                push_str(&mut out, "Bearer ");
                push_str(&mut out, sec.as_str());
                Some(string_from_chars(&out))
            } else {
                None
            }
        },
        None => None,
    }
}

/// The address of the version call.
pub fn version_url(api_url: &str) -> (r: String)
    ensures
        r@ == version_address(api_url@),
{
    let mut out: Vec<char> = Vec::new();
    push_str(&mut out, api_url);
    push_str(&mut out, "/version");
    string_from_chars(&out)
}

/// The address of the proxy list.
pub fn proxies_url(api_url: &str) -> (r: String)
    ensures
        r@ == proxies_address(api_url@),
{
    let mut out: Vec<char> = Vec::new();
    push_str(&mut out, api_url);
    push_str(&mut out, "/proxies");
    string_from_chars(&out)
}

/// The address at which a group's selected proxy is set.
pub fn select_proxy_url(api_url: &str, group: &str) -> (r: String)
    ensures
        r@ == group_address(api_url@, group@),
{
    let mut out: Vec<char> = Vec::new();
    push_str(&mut out, api_url);
    push_str(&mut out, "/proxies/");
    let g = percent_encode(group);
    push_str(&mut out, g.as_str());
    string_from_chars(&out)
}

/// The address of a node's delay test.
pub fn delay_url(api_url: &str, node: &str, test_url: &str, timeout_ms: u32) -> (r: String)
    ensures
        r@ == delay_address(api_url@, node@, test_url@, timeout_ms),
{
    let mut out: Vec<char> = Vec::new();
    push_str(&mut out, api_url);
    push_str(&mut out, "/proxies/");
    let n = percent_encode(node);
    push_str(&mut out, n.as_str());
    push_str(&mut out, "/delay?url=");
    let t = percent_encode(test_url);
    push_str(&mut out, t.as_str());
    push_str(&mut out, "&timeout=");
    let digits = decimal_chars(timeout_ms as u64);
    push_chars(&mut out, &digits);
    string_from_chars(&out)
}

/// Whether a lower-case entry type names a group or a built-in.
pub fn is_group_type_name(lower: &String) -> (r: bool)
    ensures
        r == is_group_type(lower@),
{
    text_is(lower, "selector") || text_is(lower, "urltest") || text_is(lower, "fallback")
        || text_is(lower, "loadbalance") || text_is(lower, "direct") || text_is(lower, "reject")
        || text_is(lower, "compatible")
}

/// Whether an entry's type names a group or a built-in.
pub fn is_group_proxy_type(proxy_type: &str) -> (r: bool)
    ensures
        r == is_group_type(lowercased(proxy_type@)),
{
    let lower = to_lowercase(proxy_type);
    is_group_type_name(&lower)
}

/// The node of a proxy entry.
pub fn node_from_item(item: &ProxyItem) -> (r: ProxyNode)
    ensures
        r@ == item_node(item@),
{
    let mut node = ProxyNode::new(item.name.clone(), item.proxy_type.clone(), String::new(), 0);
    match &item.history {
        Some(h) => {
            if h.len() > 0 {
                node.mark_alive(h[h.len() - 1]);
            }
        },
        None => {},
    }
    node
}

/// The nodes of the core's proxy list, in order, without groups and built-ins.
pub fn nodes_from_proxy_list(items: &Vec<ProxyItem>) -> (r: Vec<ProxyNode>)
    ensures
        views(r@) == proxy_list_nodes(items@.map_values(|i: ProxyItem| i@)),
{
    let ghost all = items@.map_values(|i: ProxyItem| i@);
    let mut out: Vec<ProxyNode> = Vec::new();
    let mut k: usize = 0;
    while k < items.len()
        invariant
            k <= items.len(),
            all == items@.map_values(|i: ProxyItem| i@),
            views(out@) == proxy_list_nodes(all.take(k as int)),
        decreases items.len() - k,
    {
        assert(all.take(k + 1).drop_last() =~= all.take(k as int));
        assert(all.take(k + 1).last() == items@[k as int]@);
        let item = &items[k];
        if !is_group_proxy_type(item.proxy_type.as_str()) {
            let ghost before = out@;
            out.push(node_from_item(item));
            assert(views(out@) =~= views(before).push(item_node(item@)));
        }
        k = k + 1;
    }
    assert(all.take(items.len() as int) =~= all);
    out
}

fn field_or(a: &Option<String>, b: &Option<String>, default: &str) -> (r: String)
    ensures
        r@ == first_of(*a, *b, default@),
{
    match a {
        Some(s) => s.clone(),
        None => match b {
            Some(s) => s.clone(),
            None => {
                let d = default.to_string();
                proof {
                    vstd::string::to_string_from_display_ensures_for_str(default, d);
                }
                d
            },
        },
    }
}

/// The public-address report of a lookup answer: the address from `ip` or
/// `query`, the country from `country_name` or `country`, its code from
/// `country_code` or `countryCode`, the city, and the organization from `org` or
/// `isp`; what is missing is `Unknown`, `UN` or empty.
pub fn public_ip_from_fields(f: &IpLookupFields) -> (r: PublicIpInfo)
    ensures
        r.ip@ == first_of(f.ip, f.query, "Unknown"@),
        r.country@ == first_of(f.country_name, f.country, "Unknown"@),
        r.country_code@ == first_of(f.country_code, f.country_code_camel, "UN"@),
        r.city@ == first_of(f.city, None, ""@),
        r.org@ == first_of(f.org, f.isp, ""@),
{
    PublicIpInfo {
        ip: field_or(&f.ip, &f.query, "Unknown"),
        country: field_or(&f.country_name, &f.country, "Unknown"),
        country_code: field_or(&f.country_code, &f.country_code_camel, "UN"),
        city: field_or(&f.city, &None, ""),
        org: field_or(&f.org, &f.isp, ""),
    }
}

/// The decision after a poll of the starting core: ready on success, timed out past
/// the limit, else poll again.
pub fn startup_poll_outcome(healthy: bool, elapsed_ns: u64) -> (r: StartupPoll)
    ensures
        r == startup_decision(healthy, elapsed_ns),
{
    if healthy {
        StartupPoll::Ready
    } else if elapsed_ns > STARTUP_LIMIT_NS {
        StartupPoll::TimedOut
    } else {
        StartupPoll::Retry
    }
}

} // verus!

verus! {

/// The nodes read from the core's proxy list hold no group or built-in, and a node
/// is live exactly when its entry has a delay history.
pub proof fn law_proxy_list_holds_only_proxies(items: Seq<ProxyItemView>)
    ensures
        proxy_list_nodes(items).len() <= items.len(),
        forall|k: int|
            0 <= k < proxy_list_nodes(items).len() ==> !is_group_type(
                lowercased((#[trigger] proxy_list_nodes(items)[k]).protocol),
            ),
        forall|k: int|
            0 <= k < proxy_list_nodes(items).len() ==> {
                let n = #[trigger] proxy_list_nodes(items)[k];
                n.health == crate::domain::model::NodeHealth::Live || n.health
                    == crate::domain::model::NodeHealth::Untested
            },
    decreases items.len(),
{
    if items.len() > 0 {
        law_proxy_list_holds_only_proxies(items.drop_last());
    }
}

/// A proxy entry whose delay history is not empty gives a live node whose latency is
/// the last (latest) delay of the history, with one success and no failure; an entry
/// without a history, or with an empty one, gives an untested node with no latency.
/// Either way the node keeps the entry's name and type, has no server address or
/// port, and is not quarantined.
pub proof fn law_entry_is_live_by_latest_delay(item: ProxyItemView)
    ensures
        item_node(item).name == item.name,
        item_node(item).protocol == item.proxy_type,
        item_node(item).sleep_until is None,
        item_node(item).failure_count == 0,
        item_node(item).server.len() == 0,
        item_node(item).port == 0,
        item.history matches Some(h) ==> (h.len() > 0 ==> {
            &&& item_node(item).health == crate::domain::model::NodeHealth::Live
            &&& item_node(item).latency_ms == Some(h[h.len() - 1])
            &&& item_node(item).success_count == 1
        }),
        item.history matches Some(h) ==> (h.len() == 0 ==> {
            &&& item_node(item).health == crate::domain::model::NodeHealth::Untested
            &&& item_node(item).latency_ms is None
            &&& item_node(item).success_count == 0
        }),
        item.history is None ==> {
            &&& item_node(item).health == crate::domain::model::NodeHealth::Untested
            &&& item_node(item).latency_ms is None
            &&& item_node(item).success_count == 0
        },
{
}

/// The entry of the proxy list from which a node comes: an entry that is no group
/// or built-in and whose node it is.
pub open spec fn node_of_entry(items: Seq<ProxyItemView>, j: int, n: NodeView) -> bool {
    &&& 0 <= j < items.len()
    &&& !is_group_type(lowercased(items[j].proxy_type))
    &&& n == item_node(items[j])
}

/// The proxy list after one more entry: the nodes before it, and the entry's node
/// unless it is a group or a built-in.
proof fn lemma_proxy_list_step(items: Seq<ProxyItemView>)
    requires
        items.len() > 0,
    ensures
        proxy_list_nodes(items) == (if is_group_type(lowercased(items.last().proxy_type)) {
            proxy_list_nodes(items.drop_last())
        } else {
            proxy_list_nodes(items.drop_last()).push(item_node(items.last()))
        }),
{
}

/// Whether a node is the node of some entry of the proxy list that is no group or
/// built-in.
pub open spec fn from_some_entry(items: Seq<ProxyItemView>, n: NodeView) -> bool {
    exists|j: int| node_of_entry(items, j, n)
}

/// Every node read from the proxy list is the node of one of its entries that is
/// no group or built-in.
pub proof fn law_proxy_list_nodes_come_from_entries(items: Seq<ProxyItemView>)
    ensures
        forall|k: int|
            0 <= k < proxy_list_nodes(items).len() ==> from_some_entry(
                items,
                #[trigger] proxy_list_nodes(items)[k],
            ),
    decreases items.len(),
{
    if items.len() > 0 {
        let front = items.drop_last();
        law_proxy_list_nodes_come_from_entries(front);
        lemma_proxy_list_step(items);
        let rest = proxy_list_nodes(front);
        let all = proxy_list_nodes(items);
        assert forall|k: int| 0 <= k < all.len() implies from_some_entry(items, #[trigger] all[k]) by {
            if k < rest.len() {
                assert(all[k] == rest[k]);
                assert(from_some_entry(front, rest[k]));
                let j = choose|j: int| node_of_entry(front, j, rest[k]);
                assert(items[j] == front[j]);
                assert(node_of_entry(items, j, all[k]));
            } else {
                assert(node_of_entry(items, items.len() - 1, all[k]));
            }
        }
    }
}

/// Every entry of the proxy list that is no group or built-in gives a node of the
/// list.
pub proof fn law_proxy_list_keeps_every_proxy(items: Seq<ProxyItemView>)
    ensures
        forall|j: int|
            0 <= j < items.len() && !is_group_type(lowercased(items[j].proxy_type)) ==> exists|k: int|
                0 <= k < proxy_list_nodes(items).len() && #[trigger] node_of_entry(
                    items,
                    j,
                    proxy_list_nodes(items)[k],
                ),
    decreases items.len(),
{
    if items.len() > 0 {
        let front = items.drop_last();
        law_proxy_list_keeps_every_proxy(front);
        lemma_proxy_list_step(items);
        let rest = proxy_list_nodes(front);
        let all = proxy_list_nodes(items);
        assert forall|j: int| 0 <= j < items.len() && !is_group_type(lowercased(items[j].proxy_type))
            implies exists|k: int| 0 <= k < all.len() && #[trigger] node_of_entry(items, j, all[k]) by {
            if j < front.len() {
                assert(front[j] == items[j]);
                assert(!is_group_type(lowercased(front[j].proxy_type)));
                let k = choose|k: int| 0 <= k < rest.len() && #[trigger] node_of_entry(front, j, rest[k]);
                assert(all[k] == rest[k]);
                assert(node_of_entry(items, j, all[k]));
            } else {
                assert(node_of_entry(items, j, all[rest.len() as int]));
            }
        }
    }
}

/// The authorization header is sent exactly when the secret is set and not empty.
pub proof fn law_auth_only_with_secret(secret: Option<Seq<char>>)
    ensures
        auth_value(secret) is Some <==> (secret matches Some(s) && s.len() > 0),
{
}

} // verus!
