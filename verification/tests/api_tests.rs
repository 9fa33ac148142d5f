use nexuflux::infra::mihomo::api::{
    IpLookupFields, ProxyItem, StartupPoll, auth_header_value, delay_url, is_group_proxy_type,
    nodes_from_proxy_list, proxies_url, public_ip_from_fields, select_proxy_url,
    startup_poll_outcome, version_url, DEFAULT_API_URL, DELAY_TEST_TIMEOUT_MS, DELAY_TEST_URL,
    ROTATION_GROUP,
};
use nexuflux::domain::model::NodeHealth;

#[test]
fn request_addresses() {
    assert_eq!(version_url(DEFAULT_API_URL), "http://127.0.0.1:9090/version");
    assert_eq!(proxies_url(DEFAULT_API_URL), "http://127.0.0.1:9090/proxies");
    assert_eq!(
        select_proxy_url(DEFAULT_API_URL, ROTATION_GROUP),
        "http://127.0.0.1:9090/proxies/ROTATOR"
    );
    assert_eq!(
        select_proxy_url("http://h:1", "My Group/1"),
        "http://h:1/proxies/My%20Group%2F1"
    );
}

#[test]
fn delay_test_address_encodes_parts() {
    assert_eq!(
        delay_url(DEFAULT_API_URL, "US - Node #1", DELAY_TEST_URL, DELAY_TEST_TIMEOUT_MS),
        "http://127.0.0.1:9090/proxies/US%20-%20Node%20%231/delay?url=http%3A%2F%2Fcp.cloudflare.com%2Fgenerate_204&timeout=2500"
    );
    assert_eq!(
        delay_url("x", "é", "u", 0),
        "x/proxies/%C3%A9/delay?url=u&timeout=0"
    );
}

#[test]
fn auth_header() {
    assert_eq!(auth_header_value(&None), None);
    assert_eq!(auth_header_value(&Some(String::new())), None);
    assert_eq!(
        auth_header_value(&Some("abc".to_string())),
        Some("Bearer abc".to_string())
    );
}

fn item(name: &str, t: &str, history: Option<Vec<u32>>) -> ProxyItem {
    ProxyItem { name: name.to_string(), proxy_type: t.to_string(), history }
}

#[test]
fn proxy_list_skips_groups_and_builtins() {
    let items = vec![
        item("GLOBAL", "Selector", None),
        item("DIRECT", "Direct", None),
        item("REJECT", "Reject", None),
        item("auto", "URLTest", Some(vec![10])),
        item("fb", "Fallback", None),
        item("lb", "LoadBalance", None),
        item("c", "Compatible", None),
        item("US 1", "Vless", Some(vec![120, 80])),
        item("JP 2", "Trojan", Some(vec![])),
        item("SG 3", "Shadowsocks", None),
    ];
    let nodes = nodes_from_proxy_list(&items);
    assert_eq!(nodes.len(), 3);
    assert_eq!(nodes[0].name, "US 1");
    assert_eq!(nodes[0].protocol, "Vless");
    assert_eq!(nodes[0].health, NodeHealth::Live);
    assert_eq!(nodes[0].latency_ms, Some(80));
    assert_eq!(nodes[0].success_count, 1);
    assert_eq!(nodes[0].server, "");
    assert_eq!(nodes[0].port, 0);
    assert_eq!(nodes[1].health, NodeHealth::Untested);
    assert_eq!(nodes[1].latency_ms, None);
    assert_eq!(nodes[2].name, "SG 3");
}

#[test]
fn group_types_are_case_insensitive() {
    assert!(is_group_proxy_type("SELECTOR"));
    assert!(is_group_proxy_type("urltest"));
    assert!(!is_group_proxy_type("Vmess"));
    assert!(!is_group_proxy_type("select"));
}

fn fields() -> IpLookupFields {
    IpLookupFields {
        ip: None,
        query: None,
        country_name: None,
        country: None,
        country_code: None,
        country_code_camel: None,
        city: None,
        org: None,
        isp: None,
    }
}

#[test]
fn public_ip_first_service_shape() {
    let mut f = fields();
    f.ip = Some("203.0.113.7".to_string());
    f.country_name = Some("Netherlands".to_string());
    f.country = Some("NL".to_string());
    f.country_code = Some("NL".to_string());
    f.city = Some("Amsterdam".to_string());
    f.org = Some("AS1 Example".to_string());
    let info = public_ip_from_fields(&f);
    assert_eq!(info.ip, "203.0.113.7");
    assert_eq!(info.country, "Netherlands");
    assert_eq!(info.country_code, "NL");
    assert_eq!(info.city, "Amsterdam");
    assert_eq!(info.org, "AS1 Example");
}

#[test]
fn public_ip_fallback_fields_and_defaults() {
    let mut f = fields();
    f.query = Some("198.51.100.2".to_string());
    f.country = Some("Japan".to_string());
    f.country_code_camel = Some("JP".to_string());
    f.isp = Some("ISP".to_string());
    let info = public_ip_from_fields(&f);
    assert_eq!(info.ip, "198.51.100.2");
    assert_eq!(info.country, "Japan");
    assert_eq!(info.country_code, "JP");
    assert_eq!(info.city, "");
    assert_eq!(info.org, "ISP");
    let empty = public_ip_from_fields(&fields());
    assert_eq!(empty.ip, "Unknown");
    assert_eq!(empty.country, "Unknown");
    assert_eq!(empty.country_code, "UN");
    assert_eq!(empty.org, "");
}

#[test]
fn startup_polling() {
    assert_eq!(startup_poll_outcome(true, 10_000_000_000), StartupPoll::Ready);
    assert_eq!(startup_poll_outcome(false, 4_800_000_000), StartupPoll::Retry);
    assert_eq!(startup_poll_outcome(false, 5_000_000_000), StartupPoll::Retry);
    assert_eq!(startup_poll_outcome(false, 5_000_000_001), StartupPoll::TimedOut);
    assert_eq!(startup_poll_outcome(false, 5_900_000_000), StartupPoll::TimedOut);
}

#[test]
fn percent_encoding_of_group_names() {
    assert_eq!(select_proxy_url("h", "a b/~_.-Z9"), "h/proxies/a%20b%2F~_.-Z9");
}

#[test]
fn group_type_names_in_lower_case() {
    assert!(nexuflux::infra::mihomo::api::is_group_type_name(&"loadbalance".to_string()));
    assert!(!nexuflux::infra::mihomo::api::is_group_type_name(&"LoadBalance".to_string()));
}
