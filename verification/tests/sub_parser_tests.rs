use base64::Engine;
use nexuflux::app::sub_parser::SubParser;
use nexuflux::codec::UriParts;
use nexuflux::domain::model::{NodeHealth, ProxyNode};

fn parse(s: &str) -> Vec<ProxyNode> {
    SubParser::parse_content(s).expect("content is always accepted")
}

const LIST: &str = "vless://uuid@de.example.com:8443?security=reality#DE%20Reality%2001\n\
vmess://abc@1.2.3.4:443\n\
\n\
trojan://pw@tr.example.org#Trojan-JP\n\
http://not-a-proxy.example.com/\n\
hy2://pw@hy.example.net:9000#%F0%9F%87%BA%F0%9F%87%B8%20US\n";

#[test]
fn plain_uri_list() {
    let nodes = parse(LIST);
    assert_eq!(nodes.len(), 4);
    assert_eq!(nodes[0].name, "DE Reality 01");
    assert_eq!(nodes[0].protocol, "VLESS");
    assert_eq!(nodes[0].server, "de.example.com");
    assert_eq!(nodes[0].port, 8443);
    assert_eq!(nodes[1].name, "VMESS-node-2");
    assert_eq!(nodes[1].server, "1.2.3.4");
    assert_eq!(nodes[1].port, 443);
    assert_eq!(nodes[2].name, "Trojan-JP");
    assert_eq!(nodes[2].protocol, "TROJAN");
    assert_eq!(nodes[2].port, 443);
    assert_eq!(nodes[3].name, "\u{1F1FA}\u{1F1F8} US");
    assert_eq!(nodes[3].protocol, "HY2");
    assert_eq!(nodes[3].port, 9000);
    for n in &nodes {
        assert_eq!(n.health, NodeHealth::Untested);
        assert_eq!(n.latency_ms, None);
        assert_eq!(n.failure_count, 0);
    }
}

#[test]
fn base64_standard_subscription() {
    let encoded = base64::engine::general_purpose::STANDARD.encode(LIST);
    let nodes = parse(&encoded);
    assert_eq!(nodes.len(), 4);
    assert_eq!(nodes[0].name, "DE Reality 01");
    assert_eq!(nodes[1].name, "VMESS-node-2");
}

#[test]
fn base64_with_line_breaks_inside() {
    let encoded = base64::engine::general_purpose::STANDARD.encode(LIST);
    let (a, b) = encoded.split_at(20);
    let wrapped = format!("  {}\r\n{}\n  ", a, b);
    let nodes = parse(&wrapped);
    assert_eq!(nodes.len(), 4);
}

#[test]
fn base64_url_safe_subscription() {
    let text = "ss://YWVzLTI1Ni1nY206cGFzcw@ss.example.com:8388#SS~one?\n";
    let encoded = base64::engine::general_purpose::URL_SAFE.encode(text);
    assert!(base64::engine::general_purpose::STANDARD.decode(&encoded).is_err());
    let nodes = parse(&encoded);
    assert_eq!(nodes.len(), 1);
    assert_eq!(nodes[0].protocol, "SS");
    assert_eq!(nodes[0].port, 8388);
}

#[test]
fn undecodable_content_is_read_as_text() {
    let nodes = parse("tuic://u:p@t.example.com:443#T1\n@@@");
    assert_eq!(nodes.len(), 1);
    assert_eq!(nodes[0].name, "T1");
    assert_eq!(nodes[0].protocol, "TUIC");
}

#[test]
fn invalid_utf8_after_base64_falls_back() {
    let encoded = base64::engine::general_purpose::STANDARD.encode([0xff, 0xfe, 0xfd]);
    let nodes = parse(&encoded);
    assert!(nodes.is_empty());
}

#[test]
fn empty_and_blank_content() {
    assert!(parse("").is_empty());
    assert!(parse("   \n\t \n").is_empty());
}

#[test]
fn line_numbers_count_blank_lines() {
    // the content is trimmed first, so leading blank lines are not counted
    let nodes = parse("\n\nvless://a@h:1\n\nvmess://b@h:2");
    assert_eq!(nodes.len(), 2);
    assert_eq!(nodes[0].name, "VLESS-node-1");
    assert_eq!(nodes[1].name, "VMESS-node-3");
}

#[test]
fn scheme_case_is_normalized() {
    let nodes = parse("VLESS://x@h.example:10#N");
    assert_eq!(nodes.len(), 1);
    assert_eq!(nodes[0].protocol, "VLESS");
}

#[test]
fn undecodable_fragment_is_kept_raw() {
    let nodes = parse("vless://x@h.example:10#bad%FFname");
    assert_eq!(nodes.len(), 1);
    assert_eq!(nodes[0].name, "bad%FFname");
}

#[test]
fn parse_single_uri_cases() {
    let n = SubParser::parse_single_uri("trojan://p@h.example:77", 12).unwrap();
    assert_eq!(n.name, "TROJAN-node-12");
    assert_eq!(n.port, 77);
    assert!(SubParser::parse_single_uri("not a uri", 1).is_none());
    assert!(SubParser::parse_single_uri("https://example.com/", 1).is_none());
}

#[test]
fn node_from_uri_parts_defaults() {
    let parts = UriParts {
        scheme: "hysteria2".to_string(),
        host: None,
        port: None,
        fragment: Some(String::new()),
    };
    let n = SubParser::node_from_uri_parts(&parts, 7).unwrap();
    assert_eq!(n.name, "HYSTERIA2-node-7");
    assert_eq!(n.server, "");
    assert_eq!(n.port, 443);
    let other = UriParts {
        scheme: "socks5".to_string(),
        host: Some("h".to_string()),
        port: Some(1),
        fragment: None,
    };
    assert!(SubParser::node_from_uri_parts(&other, 1).is_none());
}

#[test]
fn remote_sources() {
    assert!(SubParser::is_remote_source("https://sub.example.com/x"));
    assert!(SubParser::is_remote_source("http://sub.example.com/x"));
    assert!(!SubParser::is_remote_source("vless://a@b:1"));
    assert!(!SubParser::is_remote_source("ftp://x"));
    assert!(!SubParser::is_remote_source(" https://x"));
}

#[test]
fn fragment_percent_decoding_details() {
    // a `+` stays a `+`, a lone `%` and malformed escapes stay as they are
    let nodes = parse("vless://x@h.example:1#a+b%20c%zz%4");
    assert_eq!(nodes.len(), 1);
    assert_eq!(nodes[0].name, "a+b c%zz%4");
}

#[test]
fn scheme_decisions_on_lower_case_text() {
    assert!(SubParser::is_supported_scheme(&"vless".to_string()));
    assert!(SubParser::is_supported_scheme(&"tuic".to_string()));
    assert!(!SubParser::is_supported_scheme(&"http".to_string()));
    assert!(!SubParser::is_supported_scheme(&"VLESS".to_string()));
    assert_eq!(SubParser::generated_node_name("SS", 40), "SS-node-40");
    let fallback: Vec<char> = "raw".chars().collect();
    assert_eq!(SubParser::utf8_or_fallback(vec![0x6f, 0x6b], &fallback), vec!['o', 'k']);
    assert_eq!(SubParser::utf8_or_fallback(vec![0xff], &fallback), fallback);
}
