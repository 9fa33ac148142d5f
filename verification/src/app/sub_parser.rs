//! Subscription parsing: a subscription is a list of proxy URIs, one per line,
//! either as plain text or encoded in Base64 (standard or URL-safe alphabet).
use vstd::prelude::*;
use vstd::utf8::{decode_utf8, valid_utf8};

use crate::app::quarantine::views;
use crate::codec::{
    UriParts, UriPartsView, base64_standard_decoded, base64_url_safe_decoded, decode_base64_standard,
    decode_base64_url_safe, lowercased, parse_url, percent_decode, percent_decoded, to_lowercase,
    to_uppercase, uppercased, url_components, utf8_to_string,
};
use crate::domain::error::AppError;
use crate::domain::model::{NodeView, ProxyNode, fresh_node};
use crate::text::{
    chars_of, decimal, decimal_chars, has_prefix, push_chars, push_str, remove_whitespace,
    split_lines, split_on_newlines, starts_with, string_from_chars, text_is, trim_chars, trimmed,
    without_ws,
};

verus! {

/// The port a node gets when its URI names none.
pub const DEFAULT_PORT: u16 = 443;

/// Whether a text begins with the scheme of a proxy URI, so that it is read as
/// plain text rather than as Base64.
pub open spec fn known_prefix(s: Seq<char>) -> bool {
    ||| starts_with(s, "vless://"@)
    ||| starts_with(s, "vmess://"@)
    ||| starts_with(s, "ss://"@)
    ||| starts_with(s, "trojan://"@)
    ||| starts_with(s, "hysteria2://"@)
    ||| starts_with(s, "hy2://"@)
}

/// Decoded bytes as text, or the fallback where they are not valid UTF-8.
pub open spec fn utf8_or(b: Seq<u8>, fallback: Seq<char>) -> Seq<char> {
    if valid_utf8(b) {
        decode_utf8(b)
    } else {
        fallback
    }
}

/// The text of a trimmed subscription: as it is when it begins with a proxy scheme;
/// else, with white space removed, decoded as standard Base64, failing that as
/// URL-safe Base64, failing that left as it is.
pub open spec fn payload_text(cleaned: Seq<char>) -> Seq<char> {
    if known_prefix(cleaned) {
        cleaned
    } else {
        let stripped = without_ws(cleaned);
        match base64_standard_decoded(stripped) {
            Some(b) => utf8_or(b, cleaned),
            None => match base64_url_safe_decoded(stripped) {
                Some(b) => utf8_or(b, cleaned),
                None => cleaned,
            },
        }
    }
}

/// The schemes of the proxy protocols that become nodes.
pub open spec fn supported_scheme(s: Seq<char>) -> bool {
    ||| s == "vless"@
    ||| s == "vmess"@
    ||| s == "ss"@
    ||| s == "trojan"@
    ||| s == "hysteria2"@
    ||| s == "hy2"@
    ||| s == "tuic"@
}

/// The name of a node: its URI's fragment, percent-decoded where that succeeds,
/// or, without a fragment, `<SCHEME>-node-<index>`.
pub open spec fn node_name(p: UriPartsView, index: nat) -> Seq<char> {
    let raw = match p.fragment {
        Some(f) => f,
        None => Seq::<char>::empty(),
    };
    if raw.len() > 0 {
        match percent_decoded(raw) {
            Some(d) => d,
            None => raw,
        }
    } else {
        uppercased(lowercased(p.scheme)) + "-node-"@ + decimal(index)
    }
}

/// The node that the parts of a URI on line `index` describe, if its scheme is a
/// supported proxy protocol.
pub open spec fn node_from_parts(p: UriPartsView, index: nat) -> Option<NodeView> {
    let scheme = lowercased(p.scheme);
    if supported_scheme(scheme) {
        Some(
            fresh_node(
                node_name(p, index),
                uppercased(scheme),
                match p.host {
                    Some(h) => h,
                    None => Seq::<char>::empty(),
                },
                match p.port {
                    Some(port) => port,
                    None => DEFAULT_PORT,
                },
            ),
        )
    } else {
        None
    }
}

/// The node that a URI on line `index` describes, if it parses as a URL of a
/// supported scheme.
pub open spec fn uri_node(uri: Seq<char>, index: nat) -> Option<NodeView> {
    match url_components(uri) {
        Some(p) => node_from_parts(p, index),
        None => None,
    }
}

/// The node of a line (numbered from 1): none for a blank line.
pub open spec fn line_node(line: Seq<char>, index: nat) -> Option<NodeView> {
    let t = trimmed(line);
    if t.len() == 0 {
        None
    } else {
        uri_node(t, index)
    }
}

/// The nodes of a sequence of lines, in order.
pub open spec fn lines_nodes(lines: Seq<Seq<char>>) -> Seq<NodeView>
    decreases lines.len(),
{
    if lines.len() == 0 {
        Seq::empty()
    } else {
        let rest = lines_nodes(lines.drop_last());
        match line_node(lines.last(), lines.len()) {
            Some(n) => rest.push(n),
            None => rest,
        }
    }
}

/// The nodes of a subscription's content.
pub open spec fn subscription_nodes(content: Seq<char>) -> Seq<NodeView> {
    lines_nodes(split_lines(payload_text(trimmed(content))))
}

/// Whether a subscription source is a remote address (`http://` or `https://`)
/// to be fetched, rather than the content itself.
pub open spec fn remote_source(s: Seq<char>) -> bool {
    starts_with(s, "http://"@) || starts_with(s, "https://"@)
}

/// The subscription parser.
pub struct SubParser;

impl SubParser {
    /// Whether a subscription source is an address to fetch.
    pub fn is_remote_source(url_or_raw: &str) -> (r: bool)
        ensures
            r == remote_source(url_or_raw@),
    {
        let v = chars_of(url_or_raw);
        has_prefix(&v, "http://") || has_prefix(&v, "https://")
    }

    /// The text of a trimmed subscription, decoded from Base64 where it does not
    /// begin with a proxy scheme.
    pub fn decode_payload(cleaned: &Vec<char>) -> (r: Vec<char>)
        ensures
            r@ == payload_text(cleaned@),
    {
        if has_prefix(cleaned, "vless://") || has_prefix(cleaned, "vmess://") || has_prefix(
            cleaned,
            "ss://",
        ) || has_prefix(cleaned, "trojan://") || has_prefix(cleaned, "hysteria2://") || has_prefix(
            cleaned,
            "hy2://",
        ) {
            return Self::copy_chars(cleaned);
        }
        let stripped_chars = remove_whitespace(cleaned);
        let stripped = string_from_chars(&stripped_chars);
        match decode_base64_standard(stripped.as_str()) {
            Some(bytes) => Self::utf8_or_fallback(bytes, cleaned),
            None => match decode_base64_url_safe(stripped.as_str()) {
                Some(bytes) => Self::utf8_or_fallback(bytes, cleaned),
                None => Self::copy_chars(cleaned),
            },
        }
    }

    fn copy_chars(v: &Vec<char>) -> (r: Vec<char>)
        ensures
            r@ == v@,
    {
        let mut r: Vec<char> = Vec::new();
        push_chars(&mut r, v);
        assert(r@ =~= v@);
        r
    }

    /// Decoded bytes as text, or the fallback where they are not valid UTF-8.
    pub fn utf8_or_fallback(bytes: Vec<u8>, fallback: &Vec<char>) -> (r: Vec<char>)
        ensures
            r@ == utf8_or(bytes@, fallback@),
    {
        let ghost b = bytes@;
        match utf8_to_string(bytes) {
            Some(s) => chars_of(s.as_str()),
            None => Self::copy_chars(fallback),
        }
    }

    /// Whether a lower-case scheme is that of a supported proxy protocol.
    pub fn is_supported_scheme(scheme_lower: &String) -> (r: bool)
        ensures
            r == supported_scheme(scheme_lower@),
    {
        text_is(scheme_lower, "vless") || text_is(scheme_lower, "vmess") || text_is(scheme_lower, "ss")
            || text_is(scheme_lower, "trojan") || text_is(scheme_lower, "hysteria2") || text_is(
            scheme_lower,
            "hy2",
        ) || text_is(scheme_lower, "tuic")
    }

    /// The name of a node whose URI has no fragment: `<SCHEME>-node-<index>`.
    pub fn generated_node_name(scheme_upper: &str, index: usize) -> (r: String)
        ensures
            r@ == scheme_upper@ + "-node-"@ + decimal(index as nat),
    {
        let mut out: Vec<char> = Vec::new();
        push_str(&mut out, scheme_upper);
        push_str(&mut out, "-node-");
        let digits = decimal_chars(index as u64);
        push_chars(&mut out, &digits);
        string_from_chars(&out)
    }

    /// The node that the parts of a URI on line `index` describe, if its scheme is a
    /// supported proxy protocol.
    pub fn node_from_uri_parts(parts: &UriParts, index: usize) -> (r: Option<ProxyNode>)
        ensures
            match r {
                Some(n) => node_from_parts(parts@, index as nat) == Some(n@),
                None => node_from_parts(parts@, index as nat) is None,
            },
    {
        let scheme = to_lowercase(parts.scheme.as_str());
        let server = match &parts.host {
            Some(h) => h.clone(),
            None => String::new(),
        };
        let port = match parts.port {
            Some(p) => p,
            None => DEFAULT_PORT,
        };
        let upper = to_uppercase(scheme.as_str());
        let name = match &parts.fragment {
            Some(f) if f.as_str().unicode_len() > 0 => match percent_decode(f.as_str()) {
                Some(d) => d,
                None => f.clone(),
            },
            _ => Self::generated_node_name(upper.as_str(), index),
        };
        if Self::is_supported_scheme(&scheme) {
            Some(ProxyNode::new(name, upper, server, port))
        } else {
            None
        }
    }

    /// The node that a URI on line `index` describes, if it parses as a URL of a
    /// supported scheme.
    pub fn parse_single_uri(uri: &str, index: usize) -> (r: Option<ProxyNode>)
        ensures
            match r {
                Some(n) => uri_node(uri@, index as nat) == Some(n@),
                None => uri_node(uri@, index as nat) is None,
            },
    {
        match parse_url(uri) {
            Some(parts) => Self::node_from_uri_parts(&parts, index),
            None => None,
        }
    }

    /// Parses subscription content: trims it, decodes it from Base64 where it does
    /// not begin with a proxy scheme, and reads one proxy URI per line (lines
    /// numbered from 1; blank lines and lines that are no supported proxy URI are
    /// skipped). The content is always accepted.
    pub fn parse_content(content: &str) -> (r: Result<Vec<ProxyNode>, AppError>)
        ensures
            r matches Ok(v) && views(v@) == subscription_nodes(content@),
    {
        let raw = chars_of(content);
        let cleaned = trim_chars(&raw);
        let text = Self::decode_payload(&cleaned);
        let lines = split_on_newlines(&text);
        let ghost ls = lines@.map_values(|l: Vec<char>| l@);
        let mut nodes: Vec<ProxyNode> = Vec::new();
        let mut i: usize = 0;
        while i < lines.len()
            invariant
                i <= lines.len(),
                ls == lines@.map_values(|l: Vec<char>| l@),
                ls == split_lines(text@),
                views(nodes@) == lines_nodes(ls.take(i as int)),
            decreases lines.len() - i,
        {
            assert(ls.take(i + 1).drop_last() =~= ls.take(i as int));
            assert(ls.take(i + 1).last() == lines@[i as int]@);
            let line = trim_chars(&lines[i]);
            if line.len() > 0 {
                let s = string_from_chars(&line);
                match Self::parse_single_uri(s.as_str(), i + 1) {
                    Some(n) => {
                        let ghost before = nodes@;
                        nodes.push(n);
                        assert(views(nodes@) =~= views(before).push(n@));
                    },
                    None => {},
                }
            }
            i = i + 1;
        }
        assert(ls.take(lines.len() as int) =~= ls);
        Ok(nodes)
    }
}

} // verus!

verus! {

/// A node as loaded from a subscription: untested, no latency, no counts, no
/// quarantine.
pub open spec fn is_fresh(n: NodeView) -> bool {
    &&& n.health == crate::domain::model::NodeHealth::Untested
    &&& n.latency_ms is None
    &&& n.failure_count == 0
    &&& n.success_count == 0
    &&& n.sleep_until is None
}

/// Every node read from subscription lines is freshly loaded, and there are never
/// more nodes than lines.
pub proof fn law_parsed_nodes_are_fresh(lines: Seq<Seq<char>>)
    ensures
        lines_nodes(lines).len() <= lines.len(),
        forall|k: int| 0 <= k < lines_nodes(lines).len() ==> is_fresh(#[trigger] lines_nodes(lines)[k]),
    decreases lines.len(),
{
    if lines.len() > 0 {
        law_parsed_nodes_are_fresh(lines.drop_last());
    }
}

/// Every node of a subscription is freshly loaded, and there are never more nodes
/// than lines of (decoded) content.
pub proof fn law_subscription_nodes_are_fresh(content: Seq<char>)
    ensures
        subscription_nodes(content).len() <= split_lines(payload_text(trimmed(content))).len(),
        forall|k: int|
            0 <= k < subscription_nodes(content).len() ==> is_fresh(#[trigger] subscription_nodes(content)[k]),
{
    law_parsed_nodes_are_fresh(split_lines(payload_text(trimmed(content))));
}

/// A URI gives a node exactly when its scheme (in any case) is a supported proxy
/// protocol. The node's server is the URI's host, whether or not the URI names a
/// port, and is empty only where the URI has no host; its port is the URI's port,
/// or 443 where the URI names none; its protocol is the scheme in upper case; a
/// non-empty fragment names it (percent-decoded where that succeeds), else it is
/// named `<SCHEME>-node-<index>`.
pub proof fn law_node_takes_address_of_uri(p: UriPartsView, index: nat)
    ensures
        node_from_parts(p, index) is Some <==> supported_scheme(lowercased(p.scheme)),
        node_from_parts(p, index) matches Some(n) ==> {
            &&& p.host matches Some(h) ==> n.server == h
            &&& p.host is None ==> n.server.len() == 0
            &&& p.port matches Some(x) ==> n.port == x
            &&& p.port is None ==> n.port == 443
            &&& n.protocol == uppercased(lowercased(p.scheme))
            &&& p.fragment matches Some(f) ==> (f.len() > 0 && percent_decoded(f) is None ==> n.name
                == f)
            &&& p.fragment matches Some(f) ==> (f.len() > 0 ==> (percent_decoded(f) matches Some(d)
                ==> n.name == d))
            &&& p.fragment matches Some(f) ==> (f.len() == 0 ==> n.name == uppercased(
                lowercased(p.scheme),
            ) + "-node-"@ + decimal(index))
            &&& p.fragment is None ==> n.name == uppercased(lowercased(p.scheme)) + "-node-"@
                + decimal(index)
            &&& is_fresh(n)
        },
{
}

/// The node of a URI carries the host and port that the URL parse of the URI reads,
/// whether or not the URI names a port.
pub proof fn law_uri_node_takes_parsed_address(uri: Seq<char>, index: nat)
    ensures
        uri_node(uri, index) is Some ==> url_components(uri) is Some,
        url_components(uri) matches Some(p) ==> {
            &&& uri_node(uri, index) is Some <==> supported_scheme(lowercased(p.scheme))
            &&& uri_node(uri, index) matches Some(n) ==> {
                &&& p.host matches Some(h) ==> n.server == h
                &&& p.host is None ==> n.server.len() == 0
                &&& p.port matches Some(x) ==> n.port == x
                &&& p.port is None ==> n.port == 443
            }
        },
{
    if let Some(p) = url_components(uri) {
        law_node_takes_address_of_uri(p, index);
    }
}

/// Whether `n` is the node of line `i` (lines numbered from 1 in `line_node`).
pub open spec fn node_of_line(lines: Seq<Seq<char>>, i: int, n: NodeView) -> bool {
    &&& 0 <= i < lines.len()
    &&& line_node(lines[i], (i + 1) as nat) == Some(n)
}

/// Whether `n` is the node of some line.
pub open spec fn from_some_line(lines: Seq<Seq<char>>, n: NodeView) -> bool {
    exists|i: int| node_of_line(lines, i, n)
}

/// A blank line gives no node; any other line gives the node of its URI with the
/// white space around it removed.
pub proof fn law_line_is_read_trimmed(line: Seq<char>, index: nat)
    ensures
        trimmed(line).len() == 0 ==> line_node(line, index) is None,
        trimmed(line).len() > 0 ==> line_node(line, index) == uri_node(trimmed(line), index),
{
}

/// Every node of a list of lines is the node of one of its lines, numbered from 1,
/// and every line that gives a node gives one of the list.
pub proof fn law_lines_give_their_nodes(lines: Seq<Seq<char>>)
    ensures
        forall|k: int|
            0 <= k < lines_nodes(lines).len() ==> from_some_line(lines, #[trigger] lines_nodes(lines)[k]),
        forall|i: int|
            #![trigger lines[i]]
            0 <= i < lines.len() && line_node(lines[i], (i + 1) as nat) is Some ==> exists|k: int|
                0 <= k < lines_nodes(lines).len() && #[trigger] node_of_line(lines, i, lines_nodes(lines)[k]),
    decreases lines.len(),
{
    if lines.len() > 0 {
        let front = lines.drop_last();
        law_lines_give_their_nodes(front);
        let rest = lines_nodes(front);
        let all = lines_nodes(lines);
        assert(all == match line_node(lines.last(), lines.len()) {
            Some(n) => rest.push(n),
            None => rest,
        });
        assert forall|k: int| 0 <= k < all.len() implies from_some_line(lines, #[trigger] all[k]) by {
            if k < rest.len() {
                assert(all[k] == rest[k]);
                assert(from_some_line(front, rest[k]));
                let i = choose|i: int| node_of_line(front, i, rest[k]);
                assert(lines[i] == front[i]);
                assert(node_of_line(lines, i, all[k]));
            } else {
                assert(node_of_line(lines, lines.len() - 1, all[k]));
            }
        }
        assert forall|i: int|
            #![trigger lines[i]]
            0 <= i < lines.len() && line_node(lines[i], (i + 1) as nat) is Some implies exists|k: int|
                0 <= k < all.len() && #[trigger] node_of_line(lines, i, all[k]) by {
            if i < front.len() {
                assert(front[i] == lines[i]);
                let k = choose|k: int| 0 <= k < rest.len() && #[trigger] node_of_line(front, i, rest[k]);
                assert(all[k] == rest[k]);
                assert(node_of_line(lines, i, all[k]));
            } else {
                assert(node_of_line(lines, i, all[rest.len() as int]));
            }
        }
    }
}

/// Content that begins with a proxy scheme is read as it is, never as Base64.
pub proof fn law_plain_uri_lists_are_not_decoded(content: Seq<char>)
    requires
        known_prefix(trimmed(content)),
    ensures
        subscription_nodes(content) == lines_nodes(split_lines(trimmed(content))),
{
}

} // verus!
