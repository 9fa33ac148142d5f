//! The configuration document of the proxy core: ports, the REST controller,
//! fake-IP DNS, the TUN device, the subscription provider, the `ROTATOR` group and
//! the rule that sends all traffic through it. The document is built as a
//! `serde_yaml` value and emitted as YAML text.
use serde_yaml::{Mapping, Value};
use vstd::prelude::*;

use crate::domain::error::AppError;

verus! {

#[verifier::external_type_specification]
#[verifier::external_body]
pub struct ExYamlValue(Value);

#[verifier::external_type_specification]
#[verifier::external_body]
pub struct ExYamlError(serde_yaml::Error);

/// What `Value::from(&str)` gives: the YAML string.
pub uninterp spec fn yaml_string(s: Seq<char>) -> Value;

/// What `Value::from(i64)` gives: the YAML number.
pub uninterp spec fn yaml_number(n: i64) -> Value;

/// What `Value::from(bool)` gives: the YAML boolean.
pub uninterp spec fn yaml_bool(b: bool) -> Value;

/// What `Value::from(Vec<Value>)` gives: the YAML sequence of the items, in order.
pub uninterp spec fn yaml_sequence(items: Seq<Value>) -> Value;

/// What `Value::Mapping` of the `Mapping` collected from key-value pairs gives: the
/// YAML mapping of the pairs, in order.
pub uninterp spec fn yaml_mapping(entries: Seq<(Value, Value)>) -> Value;

/// What `serde_yaml::to_string` gives for a value: the YAML text, or for an error
/// the text that the error's `Display` writes.
pub uninterp spec fn yaml_emitted(v: Value) -> Result<Seq<char>, Seq<char>>;

/// What the `Display` of a `serde_yaml::Error` writes.
pub uninterp spec fn yaml_error_text(e: serde_yaml::Error) -> Seq<char>;

/// Calls `Value::from(&str)`. The result is named by `yaml_string`.
#[verifier::external_body]
fn yaml_string_value(s: &str) -> (v: Value)
    ensures
        v == yaml_string(s@),
{
    Value::from(s)
}

/// Calls `Value::from(i64)`. The result is named by `yaml_number`.
#[verifier::external_body]
fn yaml_number_value(n: i64) -> (v: Value)
    ensures
        v == yaml_number(n),
{
    Value::from(n)
}

/// Calls `Value::from(bool)`. The result is named by `yaml_bool`.
#[verifier::external_body]
fn yaml_bool_value(b: bool) -> (v: Value)
    ensures
        v == yaml_bool(b),
{
    Value::from(b)
}

/// Calls `Value::from(Vec<Value>)`. The result is named by `yaml_sequence`.
#[verifier::external_body]
fn yaml_sequence_value(items: Vec<Value>) -> (v: Value)
    ensures
        v == yaml_sequence(items@),
{
    Value::from(items)
}

/// Collects the pairs into a `Mapping` (`FromIterator`) and wraps it in
/// `Value::Mapping`. The result is named by `yaml_mapping`.
#[verifier::external_body]
fn yaml_mapping_value(entries: Vec<(Value, Value)>) -> (v: Value)
    ensures
        v == yaml_mapping(entries@),
{
    Value::Mapping(entries.into_iter().collect::<Mapping>())
}

/// Calls `serde_yaml::to_string`. Whether it succeeds, the text it gives and the
/// message of its error are named by `yaml_emitted`.
#[verifier::external_body]
fn emit_yaml(v: &Value) -> (r: Result<String, serde_yaml::Error>)
    ensures
        match r {
            Ok(s) => yaml_emitted(*v) == Ok::<Seq<char>, Seq<char>>(s@),
            Err(e) => yaml_emitted(*v) == Err::<Seq<char>, Seq<char>>(yaml_error_text(e)),
        },
{
    serde_yaml::to_string(v)
}

/// Writes the `Display` of a `serde_yaml::Error` into a string (`ToString`).
#[verifier::external_body]
fn yaml_error_message(e: &serde_yaml::Error) -> (s: String)
    ensures
        s@ == yaml_error_text(*e),
{
    e.to_string()
}

/// A key-value pair with a string key.
pub open spec fn entry(key: Seq<char>, v: Value) -> (Value, Value) {
    (yaml_string(key), v)
}

/// The `dns` section: fake-IP resolution through DoH and a plain resolver.
pub open spec fn dns_section() -> Value {
    yaml_mapping(
        seq![
            entry("enable"@, yaml_bool(true)),
            entry("enhanced-mode"@, yaml_string("fake-ip"@)),
            entry("fake-ip-range"@, yaml_string("198.18.0.1/16"@)),
            entry(
                "nameserver"@,
                yaml_sequence(
                    seq![
                        yaml_string("https://dns.cloudflare.com/dns-query"@),
                        yaml_string("https://dns.google/dns-query"@),
                        yaml_string("1.1.1.1"@),
                    ],
                ),
            ),
        ],
    )
}

/// The `tun` section, enabled as asked.
pub open spec fn tun_section(enable_tun: bool) -> Value {
    yaml_mapping(
        seq![
            entry("enable"@, yaml_bool(enable_tun)),
            entry("stack"@, yaml_string("mixed"@)),
            entry("auto-route"@, yaml_bool(true)),
            entry("auto-detect-interface"@, yaml_bool(true)),
            entry(
                "dns-hijack"@,
                yaml_sequence(seq![yaml_string("any:53"@), yaml_string("tcp://any:53"@)]),
            ),
        ],
    )
}

/// The `proxy-providers` section: the subscription, refreshed hourly and
/// health-checked every five minutes.
pub open spec fn providers_section(sub_url: Seq<char>) -> Value {
    yaml_mapping(
        seq![
            entry(
                "default_sub"@,
                yaml_mapping(
                    seq![
                        entry("type"@, yaml_string("http"@)),
                        entry("url"@, yaml_string(sub_url)),
                        entry("interval"@, yaml_number(3600)),
                        entry("path"@, yaml_string("./sub_provider.yaml"@)),
                        entry(
                            "health-check"@,
                            yaml_mapping(
                                seq![
                                    entry("enable"@, yaml_bool(true)),
                                    entry("interval"@, yaml_number(300)),
                                    entry("url"@, yaml_string("http://cp.cloudflare.com/generate_204"@)),
                                ],
                            ),
                        ),
                    ],
                ),
            ),
        ],
    )
}

/// The `proxy-groups` section: the `ROTATOR` selector over the subscription.
pub open spec fn groups_section() -> Value {
    yaml_sequence(
        seq![
            yaml_mapping(
                seq![
                    entry("name"@, yaml_string("ROTATOR"@)),
                    entry("type"@, yaml_string("select"@)),
                    entry("use"@, yaml_sequence(seq![yaml_string("default_sub"@)])),
                ],
            ),
        ],
    )
}

/// The entries of the document before the DNS section: the secret appears only
/// when it is not empty.
pub open spec fn head_entries(secret: Seq<char>) -> Seq<(Value, Value)> {
    let base = seq![
        entry("mixed-port"@, yaml_number(7890)),
        entry("allow-lan"@, yaml_bool(false)),
        entry("mode"@, yaml_string("rule"@)),
        entry("log-level"@, yaml_string("info"@)),
        entry("ipv6"@, yaml_bool(false)),
        entry("external-controller"@, yaml_string("127.0.0.1:9090"@)),
    ];
    if secret.len() > 0 {
        base.push(entry("secret"@, yaml_string(secret)))
    } else {
        base
    }
}

/// The whole configuration document.
pub open spec fn config_document(sub_url: Seq<char>, enable_tun: bool, secret: Seq<char>) -> Value {
    yaml_mapping(
        head_entries(secret) + seq![
            entry("dns"@, dns_section()),
            entry("tun"@, tun_section(enable_tun)),
            entry("proxy-providers"@, providers_section(sub_url)),
            entry("proxy-groups"@, groups_section()),
            entry("rules"@, yaml_sequence(seq![yaml_string("MATCH,ROTATOR"@)])),
        ],
    )
}

fn kv(key: &str, v: Value) -> (r: (Value, Value))
    ensures
        r == entry(key@, v),
{
    (yaml_string_value(key), v)
}

fn dns_value() -> (v: Value)
    ensures
        v == dns_section(),
{
    let mut servers: Vec<Value> = Vec::new();
    servers.push(yaml_string_value("https://dns.cloudflare.com/dns-query"));
    servers.push(yaml_string_value("https://dns.google/dns-query"));
    servers.push(yaml_string_value("1.1.1.1"));
    let mut dns: Vec<(Value, Value)> = Vec::new();
    dns.push(kv("enable", yaml_bool_value(true)));
    dns.push(kv("enhanced-mode", yaml_string_value("fake-ip")));
    dns.push(kv("fake-ip-range", yaml_string_value("198.18.0.1/16")));
    assert(servers@ =~= seq![
        yaml_string("https://dns.cloudflare.com/dns-query"@),
        yaml_string("https://dns.google/dns-query"@),
        yaml_string("1.1.1.1"@),
    ]);
    dns.push(kv("nameserver", yaml_sequence_value(servers)));
    assert(dns@ =~= seq![
        entry("enable"@, yaml_bool(true)),
        entry("enhanced-mode"@, yaml_string("fake-ip"@)),
        entry("fake-ip-range"@, yaml_string("198.18.0.1/16"@)),
        entry(
            "nameserver"@,
            yaml_sequence(
                seq![
                    yaml_string("https://dns.cloudflare.com/dns-query"@),
                    yaml_string("https://dns.google/dns-query"@),
                    yaml_string("1.1.1.1"@),
                ],
            ),
        ),
    ]);
    yaml_mapping_value(dns)
}

fn tun_value(enable_tun: bool) -> (v: Value)
    ensures
        v == tun_section(enable_tun),
{
    let mut hijack: Vec<Value> = Vec::new();
    hijack.push(yaml_string_value("any:53"));
    hijack.push(yaml_string_value("tcp://any:53"));
    assert(hijack@ =~= seq![yaml_string("any:53"@), yaml_string("tcp://any:53"@)]);
    let mut tun: Vec<(Value, Value)> = Vec::new();
    tun.push(kv("enable", yaml_bool_value(enable_tun)));
    tun.push(kv("stack", yaml_string_value("mixed")));
    tun.push(kv("auto-route", yaml_bool_value(true)));
    tun.push(kv("auto-detect-interface", yaml_bool_value(true)));
    tun.push(kv("dns-hijack", yaml_sequence_value(hijack)));
    assert(tun@ =~= seq![
        entry("enable"@, yaml_bool(enable_tun)),
        entry("stack"@, yaml_string("mixed"@)),
        entry("auto-route"@, yaml_bool(true)),
        entry("auto-detect-interface"@, yaml_bool(true)),
        entry("dns-hijack"@, yaml_sequence(seq![yaml_string("any:53"@), yaml_string("tcp://any:53"@)])),
    ]);
    yaml_mapping_value(tun)
}

fn providers_value(sub_url: &str) -> (v: Value)
    ensures
        v == providers_section(sub_url@),
{
    let mut health: Vec<(Value, Value)> = Vec::new();
    health.push(kv("enable", yaml_bool_value(true)));
    health.push(kv("interval", yaml_number_value(300)));
    health.push(kv("url", yaml_string_value("http://cp.cloudflare.com/generate_204")));
    let ghost health_v = seq![
        entry("enable"@, yaml_bool(true)),
        entry("interval"@, yaml_number(300)),
        entry("url"@, yaml_string("http://cp.cloudflare.com/generate_204"@)),
    ];
    assert(health@ =~= health_v);
    let mut sub: Vec<(Value, Value)> = Vec::new();
    sub.push(kv("type", yaml_string_value("http")));
    sub.push(kv("url", yaml_string_value(sub_url)));
    sub.push(kv("interval", yaml_number_value(3600)));
    sub.push(kv("path", yaml_string_value("./sub_provider.yaml")));
    sub.push(kv("health-check", yaml_mapping_value(health)));
    let ghost sub_v = seq![
        entry("type"@, yaml_string("http"@)),
        entry("url"@, yaml_string(sub_url@)),
        entry("interval"@, yaml_number(3600)),
        entry("path"@, yaml_string("./sub_provider.yaml"@)),
        entry("health-check"@, yaml_mapping(health_v)),
    ];
    assert(sub@ =~= sub_v);
    let mut providers: Vec<(Value, Value)> = Vec::new();
    providers.push(kv("default_sub", yaml_mapping_value(sub)));
    assert(providers@ =~= seq![entry("default_sub"@, yaml_mapping(sub_v))]);
    yaml_mapping_value(providers)
}

fn groups_value() -> (v: Value)
    ensures
        v == groups_section(),
{
    let mut uses: Vec<Value> = Vec::new();
    uses.push(yaml_string_value("default_sub"));
    assert(uses@ =~= seq![yaml_string("default_sub"@)]);
    let mut rotator: Vec<(Value, Value)> = Vec::new();
    rotator.push(kv("name", yaml_string_value("ROTATOR")));
    rotator.push(kv("type", yaml_string_value("select")));
    rotator.push(kv("use", yaml_sequence_value(uses)));
    let ghost rotator_v = seq![
        entry("name"@, yaml_string("ROTATOR"@)),
        entry("type"@, yaml_string("select"@)),
        entry("use"@, yaml_sequence(seq![yaml_string("default_sub"@)])),
    ];
    assert(rotator@ =~= rotator_v);
    let mut groups: Vec<Value> = Vec::new();
    groups.push(yaml_mapping_value(rotator));
    assert(groups@ =~= seq![yaml_mapping(rotator_v)]);
    yaml_sequence_value(groups)
}

/// The configuration document as a `serde_yaml` value.
pub fn config_value(sub_url: &str, enable_tun: bool, secret_token: &str) -> (v: Value)
    ensures
        v == config_document(sub_url@, enable_tun, secret_token@),
{
    let mut doc: Vec<(Value, Value)> = Vec::new();
    doc.push(kv("mixed-port", yaml_number_value(7890)));
    doc.push(kv("allow-lan", yaml_bool_value(false)));
    doc.push(kv("mode", yaml_string_value("rule")));
    doc.push(kv("log-level", yaml_string_value("info")));
    doc.push(kv("ipv6", yaml_bool_value(false)));
    doc.push(kv("external-controller", yaml_string_value("127.0.0.1:9090")));
    if secret_token.unicode_len() > 0 {
        doc.push(kv("secret", yaml_string_value(secret_token)));
    }
    assert(doc@ =~= head_entries(secret_token@));
    let ghost head = doc@;
    doc.push(kv("dns", dns_value()));
    doc.push(kv("tun", tun_value(enable_tun)));
    doc.push(kv("proxy-providers", providers_value(sub_url)));
    doc.push(kv("proxy-groups", groups_value()));
    let mut rules: Vec<Value> = Vec::new();
    rules.push(yaml_string_value("MATCH,ROTATOR"));
    assert(rules@ =~= seq![yaml_string("MATCH,ROTATOR"@)]);
    doc.push(kv("rules", yaml_sequence_value(rules)));
    assert(doc@ =~= head + seq![
        entry("dns"@, dns_section()),
        entry("tun"@, tun_section(enable_tun)),
        entry("proxy-providers"@, providers_section(sub_url@)),
        entry("proxy-groups"@, groups_section()),
        entry("rules"@, yaml_sequence(seq![yaml_string("MATCH,ROTATOR"@)])),
    ]);
    yaml_mapping_value(doc)
}

} // verus!

verus! {

/// Whatever the subscription address, the TUN setting and the secret, the document
/// is one mapping that opens with the mixed port 7890, LAN access off, `mode: rule`,
/// log level `info`, IPv6 off and the controller on `127.0.0.1:9090`, then the
/// secret where it is not empty; it closes with the DNS section, the TUN section
/// enabled as asked, the provider of the subscription address, the `ROTATOR` group
/// and the one rule `MATCH,ROTATOR` that sends all traffic through that group.
pub proof fn law_document_routes_all_traffic_through_rotator(sub_url: Seq<char>, enable_tun: bool, secret: Seq<char>)
    ensures
        exists|e: Seq<(Value, Value)>|
            #![trigger yaml_mapping(e)]
            {
                &&& config_document(sub_url, enable_tun, secret) == yaml_mapping(e)
                &&& e.len() == (if secret.len() > 0 {
                    12int
                } else {
                    11int
                })
                &&& e[0] == entry("mixed-port"@, yaml_number(7890))
                &&& e[1] == entry("allow-lan"@, yaml_bool(false))
                &&& e[2] == entry("mode"@, yaml_string("rule"@))
                &&& e[3] == entry("log-level"@, yaml_string("info"@))
                &&& e[4] == entry("ipv6"@, yaml_bool(false))
                &&& e[5] == entry("external-controller"@, yaml_string("127.0.0.1:9090"@))
                &&& secret.len() > 0 ==> e[6] == entry("secret"@, yaml_string(secret))
                &&& e[e.len() - 5] == entry("dns"@, dns_section())
                &&& e[e.len() - 4] == entry("tun"@, tun_section(enable_tun))
                &&& e[e.len() - 3] == entry("proxy-providers"@, providers_section(sub_url))
                &&& e[e.len() - 2] == entry("proxy-groups"@, groups_section())
                &&& e[e.len() - 1] == entry("rules"@, yaml_sequence(seq![yaml_string("MATCH,ROTATOR"@)]))
            },
{
    let e = head_entries(secret) + seq![
        entry("dns"@, dns_section()),
        entry("tun"@, tun_section(enable_tun)),
        entry("proxy-providers"@, providers_section(sub_url)),
        entry("proxy-groups"@, groups_section()),
        entry("rules"@, yaml_sequence(seq![yaml_string("MATCH,ROTATOR"@)])),
    ];
    assert(config_document(sub_url, enable_tun, secret) == yaml_mapping(e));
}

/// The TUN section is enabled exactly as asked, and the provider fetches exactly
/// the subscription address: `tun.enable` carries the setting and `url` the address.
pub proof fn law_tun_and_provider_follow_arguments(sub_url: Seq<char>, enable_tun: bool)
    ensures
        exists|t: Seq<(Value, Value)>|
            #![trigger yaml_mapping(t)]
            tun_section(enable_tun) == yaml_mapping(t) && t.len() == 5 && t[0] == entry(
                "enable"@,
                yaml_bool(enable_tun),
            ),
        exists|p: Seq<(Value, Value)>|
            #![trigger yaml_mapping(p)]
            {
                &&& providers_section(sub_url) == yaml_mapping(seq![entry("default_sub"@, yaml_mapping(p))])
                &&& p.len() == 5
                &&& p[0] == entry("type"@, yaml_string("http"@))
                &&& p[1] == entry("url"@, yaml_string(sub_url))
            },
{
    let t = seq![
        entry("enable"@, yaml_bool(enable_tun)),
        entry("stack"@, yaml_string("mixed"@)),
        entry("auto-route"@, yaml_bool(true)),
        entry("auto-detect-interface"@, yaml_bool(true)),
        entry("dns-hijack"@, yaml_sequence(seq![yaml_string("any:53"@), yaml_string("tcp://any:53"@)])),
    ];
    assert(tun_section(enable_tun) == yaml_mapping(t));
    let p = seq![
        entry("type"@, yaml_string("http"@)),
        entry("url"@, yaml_string(sub_url)),
        entry("interval"@, yaml_number(3600)),
        entry("path"@, yaml_string("./sub_provider.yaml"@)),
        entry(
            "health-check"@,
            yaml_mapping(
                seq![
                    entry("enable"@, yaml_bool(true)),
                    entry("interval"@, yaml_number(300)),
                    entry("url"@, yaml_string("http://cp.cloudflare.com/generate_204"@)),
                ],
            ),
        ),
    ];
    assert(providers_section(sub_url) == yaml_mapping(seq![entry("default_sub"@, yaml_mapping(p))]));
}

/// The document holds one proxy group, `ROTATOR`, a selector over the subscription
/// provider `default_sub`, and resolves names through fake-IP DNS.
pub proof fn law_rotator_selects_from_subscription()
    ensures
        exists|g: Seq<(Value, Value)>|
            #![trigger yaml_mapping(g)]
            {
                &&& groups_section() == yaml_sequence(seq![yaml_mapping(g)])
                &&& g.len() == 3
                &&& g[0] == entry("name"@, yaml_string("ROTATOR"@))
                &&& g[1] == entry("type"@, yaml_string("select"@))
                &&& g[2] == entry("use"@, yaml_sequence(seq![yaml_string("default_sub"@)]))
            },
        exists|d: Seq<(Value, Value)>|
            #![trigger yaml_mapping(d)]
            {
                &&& dns_section() == yaml_mapping(d)
                &&& d.len() == 4
                &&& d[0] == entry("enable"@, yaml_bool(true))
                &&& d[1] == entry("enhanced-mode"@, yaml_string("fake-ip"@))
            },
{
    let g = seq![
        entry("name"@, yaml_string("ROTATOR"@)),
        entry("type"@, yaml_string("select"@)),
        entry("use"@, yaml_sequence(seq![yaml_string("default_sub"@)])),
    ];
    assert(groups_section() == yaml_sequence(seq![yaml_mapping(g)]));
    let d = seq![
        entry("enable"@, yaml_bool(true)),
        entry("enhanced-mode"@, yaml_string("fake-ip"@)),
        entry("fake-ip-range"@, yaml_string("198.18.0.1/16"@)),
        entry(
            "nameserver"@,
            yaml_sequence(
                seq![
                    yaml_string("https://dns.cloudflare.com/dns-query"@),
                    yaml_string("https://dns.google/dns-query"@),
                    yaml_string("1.1.1.1"@),
                ],
            ),
        ),
    ];
    assert(dns_section() == yaml_mapping(d));
}

} // verus!

verus! {

/// The YAML emission of a document: its text, or a generic error carrying the
/// emitter's message.
pub open spec fn emitted_or_error(v: Value, r: Result<String, AppError>) -> bool {
    match yaml_emitted(v) {
        Ok(t) => r matches Ok(s) && s@ == t,
        Err(m) => r matches Err(AppError::Generic(g)) && g@ == m,
    }
}

/// The configuration generator of the proxy core.
pub struct ConfigGenerator;

impl ConfigGenerator {
    /// The YAML text of the configuration document for a subscription address,
    /// with the TUN device on or off and the REST secret (left out when empty). An
    /// error of the YAML emitter becomes a generic error carrying its message.
    pub fn generate_yaml(sub_url: &str, enable_tun: bool, secret_token: &str) -> (r: Result<String, AppError>)
        ensures
            emitted_or_error(config_document(sub_url@, enable_tun, secret_token@), r),
    {
        let doc = config_value(sub_url, enable_tun, secret_token);
        match emit_yaml(&doc) {
            Ok(s) => Ok(s),
            Err(e) => Err(AppError::Generic(yaml_error_message(&e))),
        }
    }
}

} // verus!
