use nexuflux::infra::mihomo::config_gen::ConfigGenerator;
use serde_yaml::{Mapping, Value};

/// The expected document, assembled step by step with `serde_yaml` directly.
fn expected(sub_url: &str, enable_tun: bool, secret: &str) -> String {
    let mut doc = Mapping::new();
    doc.insert(Value::from("mixed-port"), Value::from(7890));
    doc.insert(Value::from("allow-lan"), Value::from(false));
    doc.insert(Value::from("mode"), Value::from("rule"));
    doc.insert(Value::from("log-level"), Value::from("info"));
    doc.insert(Value::from("ipv6"), Value::from(false));
    doc.insert(Value::from("external-controller"), Value::from("127.0.0.1:9090"));
    if !secret.is_empty() {
        doc.insert(Value::from("secret"), Value::from(secret));
    }
    let mut dns = Mapping::new();
    dns.insert(Value::from("enable"), Value::from(true));
    dns.insert(Value::from("enhanced-mode"), Value::from("fake-ip"));
    dns.insert(Value::from("fake-ip-range"), Value::from("198.18.0.1/16"));
    dns.insert(
        Value::from("nameserver"),
        Value::from(vec![
            Value::from("https://dns.cloudflare.com/dns-query"),
            Value::from("https://dns.google/dns-query"),
            Value::from("1.1.1.1"),
        ]),
    );
    doc.insert(Value::from("dns"), Value::from(dns));
    let mut tun = Mapping::new();
    tun.insert(Value::from("enable"), Value::from(enable_tun));
    tun.insert(Value::from("stack"), Value::from("mixed"));
    tun.insert(Value::from("auto-route"), Value::from(true));
    tun.insert(Value::from("auto-detect-interface"), Value::from(true));
    tun.insert(
        Value::from("dns-hijack"),
        Value::from(vec![Value::from("any:53"), Value::from("tcp://any:53")]),
    );
    doc.insert(Value::from("tun"), Value::from(tun));
    let mut sub = Mapping::new();
    sub.insert(Value::from("type"), Value::from("http"));
    sub.insert(Value::from("url"), Value::from(sub_url));
    sub.insert(Value::from("interval"), Value::from(3600));
    sub.insert(Value::from("path"), Value::from("./sub_provider.yaml"));
    let mut health = Mapping::new();
    health.insert(Value::from("enable"), Value::from(true));
    health.insert(Value::from("interval"), Value::from(300));
    health.insert(Value::from("url"), Value::from("http://cp.cloudflare.com/generate_204"));
    sub.insert(Value::from("health-check"), Value::from(health));
    let mut providers = Mapping::new();
    providers.insert(Value::from("default_sub"), Value::from(sub));
    doc.insert(Value::from("proxy-providers"), Value::from(providers));
    let mut group = Mapping::new();
    group.insert(Value::from("name"), Value::from("ROTATOR"));
    group.insert(Value::from("type"), Value::from("select"));
    group.insert(Value::from("use"), Value::from(vec![Value::from("default_sub")]));
    doc.insert(Value::from("proxy-groups"), Value::from(vec![Value::from(group)]));
    doc.insert(Value::from("rules"), Value::from(vec![Value::from("MATCH,ROTATOR")]));
    serde_yaml::to_string(&doc).unwrap()
}

#[test]
fn generated_yaml_matches_document() {
    let url = "https://sub.example.com/api?token=abc";
    assert_eq!(ConfigGenerator::generate_yaml(url, true, "").unwrap(), expected(url, true, ""));
    assert_eq!(
        ConfigGenerator::generate_yaml(url, false, "s3cret").unwrap(),
        expected(url, false, "s3cret")
    );
}

#[test]
fn secret_is_written_only_when_set() {
    let without = ConfigGenerator::generate_yaml("u", true, "").unwrap();
    let with = ConfigGenerator::generate_yaml("u", true, "tok").unwrap();
    let a: Value = serde_yaml::from_str(&without).unwrap();
    let b: Value = serde_yaml::from_str(&with).unwrap();
    assert!(a.get("secret").is_none());
    assert_eq!(b.get("secret").and_then(|v| v.as_str()), Some("tok"));
}

#[test]
fn tun_and_subscription_are_carried() {
    let text = ConfigGenerator::generate_yaml("https://s.example/sub", false, "").unwrap();
    let v: Value = serde_yaml::from_str(&text).unwrap();
    assert_eq!(v["tun"]["enable"].as_bool(), Some(false));
    assert_eq!(v["mixed-port"].as_i64(), Some(7890));
    assert_eq!(
        v["proxy-providers"]["default_sub"]["url"].as_str(),
        Some("https://s.example/sub")
    );
    assert_eq!(v["proxy-groups"][0]["name"].as_str(), Some("ROTATOR"));
    assert_eq!(v["rules"][0].as_str(), Some("MATCH,ROTATOR"));
    assert!(text.starts_with("mixed-port: 7890\n"));
}
