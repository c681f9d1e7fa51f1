//! Xray-core outbound and configuration documents built from proxy links and
//! settings.
use vstd::prelude::*;
use crate::json::{Json, JsonV, json_put, json_get, obj1, obj2, obj3, obj5, obj6, arr1, text, elements};
use crate::config::AppConfig;
use crate::text::{split_on, split_chars, views_of};
use crate::text::{str_eq, lowercased, to_lowercase, join};
use crate::urls::{UrlParts, UrlPartsV, opt_view, pairs_view, parse_url, url_parse};
use crate::json::{json_index, json_as_str, json_as_u64, json_text_parse, parse_json};
use crate::text::{has_prefix, trim, trim_chars, chars_of, string_from_chars, starts_with, parse_unsigned, parse_unsigned_chars};
use crate::codec::{base64_standard, base64_url_safe, utf8_error_text, decode_base64_standard, decode_base64_url_safe, string_from_utf8};
use vstd::utf8::{decode_utf8, valid_utf8, encode_utf8, encode_scalar};

verus! {

/// Xray's current name for a transport: `tcp` is `raw`, `ws` is `websocket`,
/// `kcp` is `mkcp`; other names are kept.
pub open spec fn normalized_network(n: Seq<char>) -> Seq<char> {
    if n == "tcp"@ {
        "raw"@
    } else if n == "ws"@ {
        "websocket"@
    } else if n == "kcp"@ {
        "mkcp"@
    } else {
        n
    }
}

/// Normalising a transport name twice gives what normalising once gives.
pub proof fn law_normalized_network_idempotent(n: Seq<char>)
    ensures
        normalized_network(normalized_network(n)) == normalized_network(n),
{
    reveal_strlit("tcp");
    reveal_strlit("ws");
    reveal_strlit("kcp");
    reveal_strlit("raw");
    reveal_strlit("websocket");
    reveal_strlit("mkcp");
    assert("raw"@ != "tcp"@ && "raw"@ != "ws"@ && "raw"@ != "kcp"@) by {
        assert("raw"@[0] != "tcp"@[0]);
        assert("raw"@.len() != "ws"@.len());
        assert("raw"@[0] != "kcp"@[0]);
    }
    assert("websocket"@.len() != "tcp"@.len() && "websocket"@.len() != "ws"@.len() && "websocket"@.len() != "kcp"@.len());
    assert("mkcp"@.len() != "tcp"@.len() && "mkcp"@.len() != "ws"@.len() && "mkcp"@.len() != "kcp"@.len());
}

/// Xray's current name for a transport.
pub fn normalize_network(network: &str) -> (r: String)
    ensures
        r@ == normalized_network(network@),
{
    if str_eq(network, "tcp") {
        String::from_str("raw")
    } else if str_eq(network, "ws") {
        String::from_str("websocket")
    } else if str_eq(network, "kcp") {
        String::from_str("mkcp")
    } else {
        String::from_str(network)
    }
}

/// The value of the last pair named `k`: collecting the pairs into a map keeps
/// the last one.
pub open spec fn last_value(pairs: Seq<(Seq<char>, Seq<char>)>, k: Seq<char>) -> Option<Seq<char>>
    decreases pairs.len(),
{
    if pairs.len() == 0 {
        None
    } else if pairs.last().0 == k {
        Some(pairs.last().1)
    } else {
        last_value(pairs.drop_last(), k)
    }
}

/// The value of the first of `keys` that the pairs give a non-empty value.
pub open spec fn first_nonempty(pairs: Seq<(Seq<char>, Seq<char>)>, keys: Seq<Seq<char>>) -> Option<
    Seq<char>,
>
    decreases keys.len(),
{
    if keys.len() == 0 {
        None
    } else {
        match last_value(pairs, keys[0]) {
            Some(v) => if v.len() > 0 {
                Some(v)
            } else {
                first_nonempty(pairs, keys.drop_first())
            },
            None => first_nonempty(pairs, keys.drop_first()),
        }
    }
}

pub open spec fn keys_view(keys: Seq<&str>) -> Seq<Seq<char>> {
    keys.map_values(|k: &str| k@)
}

/// The value of the last pair named `key`.
pub fn lookup_last(query: &Vec<(String, String)>, key: &str) -> (r: Option<String>)
    ensures
        opt_view(r) == last_value(pairs_view(query@), key@),
{
    let ghost ps = pairs_view(query@);
    let mut i = query.len();
    assert(ps.take(i as int) =~= ps);
    while i > 0
        invariant
            i <= query@.len(),
            ps == pairs_view(query@),
            last_value(ps, key@) == last_value(ps.take(i as int), key@),
        decreases i,
    {
        proof {
            assert(ps.take(i as int).drop_last() =~= ps.take(i - 1));
            assert(ps.take(i as int).last() == (query@[i - 1].0@, query@[i - 1].1@));
        }
        if str_eq(query[i - 1].0.as_str(), key) {
            return Some(query[i - 1].1.clone());
        }
        i = i - 1;
    }
    None
}

/// The first non-empty value among `keys`, each read as its last pair.
pub fn query_value(query: &Vec<(String, String)>, keys: &[&str]) -> (r: Option<String>)
    ensures
        opt_view(r) == first_nonempty(pairs_view(query@), keys_view(keys@)),
{
    let ghost ks = keys_view(keys@);
    let ghost ps = pairs_view(query@);
    let mut i: usize = 0;
    assert(ks.skip(0) =~= ks);
    while i < keys.len()
        invariant
            i <= keys@.len(),
            ks == keys_view(keys@),
            ps == pairs_view(query@),
            first_nonempty(ps, ks) == first_nonempty(ps, ks.skip(i as int)),
        decreases keys@.len() - i,
    {
        proof {
            assert(ks.skip(i as int)[0] == keys@[i as int]@);
            assert(ks.skip(i as int).drop_first() =~= ks.skip(i + 1));
        }
        match lookup_last(query, keys[i]) {
            Some(v) => {
                if v.as_str().unicode_len() > 0 {
                    return Some(v);
                }
            },
            None => {},
        }
        i = i + 1;
    }
    proof {
        assert(ks.skip(i as int).len() == 0);
    }
    None
}


pub open spec fn or_default(o: Option<Seq<char>>, d: Seq<char>) -> Seq<char> {
    match o {
        Some(v) => v,
        None => d,
    }
}

/// What a VLESS link says, after defaults.
pub ghost struct VlessParams {
    pub uuid: Seq<char>,
    pub server: Seq<char>,
    pub port: u16,
    pub security: Seq<char>,
    pub sni: Seq<char>,
    pub fingerprint: Seq<char>,
    pub network: Seq<char>,
    pub flow: Seq<char>,
    pub public_key: Seq<char>,
    pub short_id: Seq<char>,
    pub spider_x: Seq<char>,
    pub path: Seq<char>,
    pub host: Seq<char>,
    pub service_name: Seq<char>,
}

/// The settings that a parsed VLESS link with host `server` gives: the user
/// name is the user id, the port defaults to 443, and each setting is the
/// first non-empty query parameter among its names, or its default.
pub open spec fn vless_params(u: UrlPartsV, server: Seq<char>) -> VlessParams {
    let q = u.query_pairs;
    let sni = match first_nonempty(q, seq!["sni"@, "peer"@]) {
        Some(v) => v,
        None => or_default(first_nonempty(q, seq!["host"@]), server),
    };
    VlessParams {
        uuid: u.username,
        server: server,
        port: match u.port {
            Some(p) => p,
            None => 443u16,
        },
        security: lowercased(or_default(first_nonempty(q, seq!["security"@]), "none"@)),
        sni: sni,
        fingerprint: or_default(first_nonempty(q, seq!["fp"@, "fingerprint"@]), "chrome"@),
        network: normalized_network(
            lowercased(or_default(first_nonempty(q, seq!["type"@, "net"@]), "tcp"@)),
        ),
        flow: or_default(first_nonempty(q, seq!["flow"@]), Seq::empty()),
        public_key: or_default(
            first_nonempty(q, seq!["pbk"@, "publicKey"@, "password"@]),
            Seq::empty(),
        ),
        short_id: or_default(first_nonempty(q, seq!["sid"@, "shortId"@]), Seq::empty()),
        spider_x: or_default(first_nonempty(q, seq!["spx"@, "spiderX"@]), "/"@),
        path: or_default(first_nonempty(q, seq!["path"@]), "/"@),
        host: or_default(first_nonempty(q, seq!["host"@]), sni),
        service_name: or_default(
            first_nonempty(q, seq!["serviceName"@, "service_name"@, "path"@]),
            Seq::empty(),
        ),
    }
}

/// The Xray outbound for VLESS settings.
pub open spec fn vless_doc(p: VlessParams) -> JsonV {
    let users = JsonV::Array(
        seq![
            JsonV::Object(
                seq![
                    ("id"@, JsonV::Str(p.uuid)),
                    ("encryption"@, JsonV::Str("none"@)),
                    ("flow"@, JsonV::Str(p.flow)),
                ],
            ),
        ],
    );
    let base = JsonV::Object(
        seq![("network"@, JsonV::Str(p.network)), ("security"@, JsonV::Str(p.security))],
    );
    let secured = if p.security == "reality"@ {
        json_put(
            base,
            "realitySettings"@,
            JsonV::Object(
                seq![
                    ("show"@, JsonV::Bool(false)),
                    ("fingerprint"@, JsonV::Str(p.fingerprint)),
                    ("serverName"@, JsonV::Str(p.sni)),
                    ("password"@, JsonV::Str(p.public_key)),
                    ("shortId"@, JsonV::Str(p.short_id)),
                    ("spiderX"@, JsonV::Str(p.spider_x)),
                ],
            ),
        )
    } else if p.security == "tls"@ {
        json_put(
            base,
            "tlsSettings"@,
            JsonV::Object(
                seq![
                    ("serverName"@, JsonV::Str(p.sni)),
                    ("allowInsecure"@, JsonV::Bool(false)),
                    ("fingerprint"@, JsonV::Str(p.fingerprint)),
                ],
            ),
        )
    } else {
        base
    };
    let stream = if p.network == "websocket"@ {
        json_put(
            secured,
            "wsSettings"@,
            JsonV::Object(
                seq![
                    ("path"@, JsonV::Str(p.path)),
                    ("headers"@, JsonV::Object(seq![("Host"@, JsonV::Str(p.host))])),
                ],
            ),
        )
    } else if p.network == "grpc"@ {
        json_put(
            secured,
            "grpcSettings"@,
            JsonV::Object(seq![("serviceName"@, JsonV::Str(p.service_name))]),
        )
    } else {
        secured
    };
    JsonV::Object(
        seq![
            ("protocol"@, JsonV::Str("vless"@)),
            (
                "settings"@,
                JsonV::Object(
                    seq![
                        (
                            "vnext"@,
                            JsonV::Array(
                                seq![
                                    JsonV::Object(
                                        seq![
                                            ("address"@, JsonV::Str(p.server)),
                                            ("port"@, JsonV::Int(p.port as int)),
                                            ("users"@, users),
                                        ],
                                    ),
                                ],
                            ),
                        ),
                    ],
                ),
            ),
            ("streamSettings"@, stream),
        ],
    )
}

/// The outbound that a parsed VLESS link gives, or why there is none.
pub open spec fn vless_outbound_spec(u: UrlPartsV) -> Result<JsonV, Seq<char>> {
    if u.scheme != "vless"@ {
        Err("Not VLESS link"@)
    } else {
        match u.host {
            None => Err("VLESS URL missing host"@),
            Some(server) => Ok(vless_doc(vless_params(u, server))),
        }
    }
}

pub open spec fn result_view(r: Result<Json, String>) -> Result<JsonV, Seq<char>> {
    match r {
        Ok(j) => Ok(j@),
        Err(e) => Err(e@),
    }
}

fn lookup1(q: &Vec<(String, String)>, a: &str) -> (r: Option<String>)
    ensures
        opt_view(r) == first_nonempty(pairs_view(q@), seq![a@]),
{
    let ks: [&str; 1] = [a];
    let sl: &[&str] = &ks;
    assert(keys_view(sl@) =~= seq![a@]);
    query_value(q, sl)
}

fn lookup2(q: &Vec<(String, String)>, a: &str, b: &str) -> (r: Option<String>)
    ensures
        opt_view(r) == first_nonempty(pairs_view(q@), seq![a@, b@]),
{
    let ks: [&str; 2] = [a, b];
    let sl: &[&str] = &ks;
    assert(keys_view(sl@) =~= seq![a@, b@]);
    query_value(q, sl)
}

fn lookup3(q: &Vec<(String, String)>, a: &str, b: &str, c: &str) -> (r: Option<String>)
    ensures
        opt_view(r) == first_nonempty(pairs_view(q@), seq![a@, b@, c@]),
{
    let ks: [&str; 3] = [a, b, c];
    let sl: &[&str] = &ks;
    assert(keys_view(sl@) =~= seq![a@, b@, c@]);
    query_value(q, sl)
}

fn value_or(o: Option<String>, d: &str) -> (r: String)
    ensures
        r@ == or_default(opt_view(o), d@),
{
    match o {
        Some(v) => v,
        None => String::from_str(d),
    }
}

/// The Xray outbound for a parsed VLESS link.
pub fn vless_outbound(u: &UrlParts) -> (r: Result<Json, String>)
    ensures
        result_view(r) == vless_outbound_spec(u@),
{
    if !str_eq(u.scheme.as_str(), "vless") {
        return Err(String::from_str("Not VLESS link"));
    }
    let server = match &u.host {
        Some(h) => h.clone(),
        None => {
            return Err(String::from_str("VLESS URL missing host"));
        },
    };
    let q = &u.query_pairs;
    let ghost p = vless_params(u@, server@);
    let port: u16 = match u.port {
        Some(p) => p,
        None => 443,
    };
    let security_raw = value_or(lookup1(q, "security"), "none");
    let security = to_lowercase(security_raw.as_str());
    let sni = match lookup2(q, "sni", "peer") {
        Some(v) => v,
        None => value_or(lookup1(q, "host"), server.as_str()),
    };
    let fingerprint = value_or(lookup2(q, "fp", "fingerprint"), "chrome");
    let network_raw = value_or(lookup2(q, "type", "net"), "tcp");
    let network_lower = to_lowercase(network_raw.as_str());
    let network = normalize_network(network_lower.as_str());
    let flow = value_or(lookup1(q, "flow"), "");
    let public_key = value_or(lookup3(q, "pbk", "publicKey", "password"), "");
    let short_id = value_or(lookup2(q, "sid", "shortId"), "");
    let spider_x = value_or(lookup2(q, "spx", "spiderX"), "/");
    let path = value_or(lookup1(q, "path"), "/");
    let host = value_or(lookup1(q, "host"), sni.as_str());
    let service_name = value_or(lookup3(q, "serviceName", "service_name", "path"), "");
    proof {
        reveal_strlit("");
    }
    assert(p.security == security@ && p.sni == sni@ && p.network == network@ && p.host == host@);
    assert(p.flow == flow@ && p.public_key == public_key@ && p.short_id == short_id@);
    assert(p.spider_x == spider_x@ && p.path == path@ && p.service_name == service_name@);
    assert(p.fingerprint == fingerprint@ && p.port == port && p.uuid == u.username@);
    let users = arr1(
        obj3(
            "id",
            text(&u.username),
            "encryption",
            Json::string("none"),
            "flow",
            text(&flow),
        ),
    );
    let mut stream = obj2("network", text(&network), "security", text(&security));
    if str_eq(security.as_str(), "reality") {
        let reality = obj6(
            "show",
            Json::Bool(false),
            "fingerprint",
            text(&fingerprint),
            "serverName",
            text(&sni),
            "password",
            text(&public_key),
            "shortId",
            text(&short_id),
            "spiderX",
            text(&spider_x),
        );
        stream = stream.put(String::from_str("realitySettings"), reality);
    } else if str_eq(security.as_str(), "tls") {
        let tls = obj3(
            "serverName",
            text(&sni),
            "allowInsecure",
            Json::Bool(false),
            "fingerprint",
            text(&fingerprint),
        );
        stream = stream.put(String::from_str("tlsSettings"), tls);
    }
    if str_eq(network.as_str(), "websocket") {
        let ws = obj2("path", text(&path), "headers", obj1("Host", text(&host)));
        stream = stream.put(String::from_str("wsSettings"), ws);
    } else if str_eq(network.as_str(), "grpc") {
        let grpc = obj1("serviceName", text(&service_name));
        stream = stream.put(String::from_str("grpcSettings"), grpc);
    }
    let vnext = arr1(
        obj3("address", text(&server), "port", Json::unsigned(port as u64), "users", users),
    );
    let doc = obj3(
        "protocol",
        Json::string("vless"),
        "settings",
        obj1("vnext", vnext),
        "streamSettings",
        stream,
    );
    Ok(doc)
}


/// The outbound that a VLESS link gives, or why there is none.
pub open spec fn vless_link_spec(link: Seq<char>) -> Result<JsonV, Seq<char>> {
    match url_parse(link) {
        Err(e) => Err("Invalid VLESS URL: "@ + e),
        Ok(u) => vless_outbound_spec(u),
    }
}

/// The Xray outbound for a VLESS link.
pub fn parse_vless_link(link: &str) -> (r: Result<Json, String>)
    ensures
        result_view(r) == vless_link_spec(link@),
{
    match parse_url(link) {
        Err(e) => Err(join("Invalid VLESS URL: ", e.as_str())),
        Ok(u) => vless_outbound(&u),
    }
}

/// `s` without carriage returns and line feeds.
pub open spec fn without_line_breaks(s: Seq<char>) -> Seq<char>
    decreases s.len(),
{
    if s.len() == 0 {
        s
    } else if s.last() == '\r' || s.last() == '\n' {
        without_line_breaks(s.drop_last())
    } else {
        without_line_breaks(s.drop_last()).push(s.last())
    }
}

/// Removing line breaks leaves none, keeps every other character in order,
/// and changes nothing in a text without line breaks.
pub proof fn law_without_line_breaks(s: Seq<char>)
    ensures
        forall|i: int|
            0 <= i < without_line_breaks(s).len() ==> #[trigger] without_line_breaks(s)[i] != '\r'
                && without_line_breaks(s)[i] != '\n',
        without_line_breaks(s).len() <= s.len(),
        (forall|i: int| 0 <= i < s.len() ==> #[trigger] s[i] != '\r' && s[i] != '\n') ==> without_line_breaks(s)
            == s,
        without_line_breaks(without_line_breaks(s)) == without_line_breaks(s),
    decreases s.len(),
{
    if s.len() > 0 {
        let rest = s.drop_last();
        law_without_line_breaks(rest);
        let r = without_line_breaks(rest);
        if !(s.last() == '\r' || s.last() == '\n') {
            let t = r.push(s.last());
            assert forall|i: int| 0 <= i < t.len() implies #[trigger] t[i] != '\r' && t[i] != '\n' by {
                if i < r.len() {
                    assert(t[i] == r[i]);
                }
            }
            if forall|i: int| 0 <= i < s.len() ==> #[trigger] s[i] != '\r' && s[i] != '\n' {
                assert forall|i: int| 0 <= i < rest.len() implies #[trigger] rest[i] != '\r' && rest[i] != '\n' by {
                    assert(rest[i] == s[i]);
                }
                assert(t =~= s);
            }
            assert(t.drop_last() =~= r);
            assert forall|i: int| 0 <= i < r.len() implies #[trigger] r[i] != '\r' && r[i] != '\n' by {
                assert(r[i] == t[i]);
            }
            law_without_line_breaks(r);
            assert(without_line_breaks(t) == without_line_breaks(r).push(s.last()));
        } else {
            assert(s[s.len() - 1] == s.last());
        }
    }
}

/// `s` followed by as many `=` as make its UTF-8 length a multiple of four.
pub open spec fn base64_padded(s: Seq<char>) -> Seq<char> {
    let n = encode_utf8(s).len();
    let k = ((4 - n % 4) % 4) as nat;
    s + Seq::new(k, |i: int| '=')
}

/// The base64 text that a VMess link carries: what follows `vmess://`,
/// trimmed, without line breaks, padded.
pub open spec fn vmess_payload(link: Seq<char>) -> Seq<char> {
    base64_padded(without_line_breaks(trim(link.skip(8))))
}

/// What a VMess link says, after defaults.
pub ghost struct VmessParams {
    pub server: Seq<char>,
    pub port: u16,
    pub uuid: Seq<char>,
    pub network: Seq<char>,
    pub path: Seq<char>,
    pub host: Seq<char>,
    pub sni: Seq<char>,
    pub tls: Seq<char>,
}

/// The port number of a VMess description: a number, or a decimal text,
/// else 443; kept to its low 16 bits.
pub open spec fn vmess_port(v: JsonV) -> u16 {
    let n: nat = match json_as_u64(json_index(v, "port"@)) {
        Some(n) => n,
        None => match json_as_str(json_index(v, "port"@)) {
            Some(t) => match parse_unsigned(t, u64::MAX as nat) {
                Some(n) => n,
                None => 443,
            },
            None => 443,
        },
    };
    (n % 65536) as u16
}

/// A text member of a VMess description, or a default.
pub open spec fn str_member_or(v: JsonV, k: Seq<char>, d: Seq<char>) -> Seq<char> {
    or_default(json_as_str(json_index(v, k)), d)
}

/// The Xray outbound for VMess settings.
pub open spec fn vmess_doc(p: VmessParams) -> JsonV {
    let users = JsonV::Array(
        seq![
            JsonV::Object(
                seq![
                    ("id"@, JsonV::Str(p.uuid)),
                    ("security"@, JsonV::Str("auto"@)),
                    ("alterId"@, JsonV::Int(0)),
                ],
            ),
        ],
    );
    let security = if p.tls.len() == 0 {
        "none"@
    } else {
        p.tls
    };
    let base = JsonV::Object(
        seq![("network"@, JsonV::Str(p.network)), ("security"@, JsonV::Str(security))],
    );
    let secured = if p.tls == "tls"@ {
        json_put(
            base,
            "tlsSettings"@,
            JsonV::Object(
                seq![("serverName"@, JsonV::Str(p.sni)), ("allowInsecure"@, JsonV::Bool(false))],
            ),
        )
    } else {
        base
    };
    let stream = if p.network == "websocket"@ {
        let host = if p.host.len() == 0 {
            p.sni
        } else {
            p.host
        };
        json_put(
            secured,
            "wsSettings"@,
            JsonV::Object(
                seq![
                    ("path"@, JsonV::Str(p.path)),
                    ("headers"@, JsonV::Object(seq![("Host"@, JsonV::Str(host))])),
                ],
            ),
        )
    } else {
        secured
    };
    JsonV::Object(
        seq![
            ("protocol"@, JsonV::Str("vmess"@)),
            (
                "settings"@,
                JsonV::Object(
                    seq![
                        (
                            "vnext"@,
                            JsonV::Array(
                                seq![
                                    JsonV::Object(
                                        seq![
                                            ("address"@, JsonV::Str(p.server)),
                                            ("port"@, JsonV::Int(p.port as int)),
                                            ("users"@, users),
                                        ],
                                    ),
                                ],
                            ),
                        ),
                    ],
                ),
            ),
            ("streamSettings"@, stream),
        ],
    )
}

/// The outbound that a decoded VMess description gives, or why there is none.
pub open spec fn vmess_outbound_spec(v: JsonV) -> Result<JsonV, Seq<char>> {
    match json_as_str(json_index(v, "add"@)) {
        None => Err("VMess JSON missing add field"@),
        Some(server) => match json_as_str(json_index(v, "id"@)) {
            None => Err("VMess JSON missing field"@),
            Some(uuid) => Ok(
                vmess_doc(
                    VmessParams {
                        server: server,
                        port: vmess_port(v),
                        uuid: uuid,
                        network: normalized_network(str_member_or(v, "net"@, "tcp"@)),
                        path: str_member_or(v, "path"@, Seq::empty()),
                        host: str_member_or(v, "host"@, Seq::empty()),
                        sni: str_member_or(v, "sni"@, server),
                        tls: str_member_or(v, "tls"@, "none"@),
                    },
                ),
            ),
        },
    }
}

/// The outbound that a VMess link gives, or why there is none: the payload is
/// base64 (standard alphabet, else the URL-safe one) of a UTF-8 JSON text.
pub open spec fn vmess_link_spec(link: Seq<char>) -> Result<JsonV, Seq<char>> {
    if !has_prefix(link, "vmess://"@) {
        Err("Not VMess link"@)
    } else {
        let b64 = vmess_payload(link);
        let bytes = match base64_standard(b64) {
            Ok(b) => Ok(b),
            Err(_) => base64_url_safe(b64),
        };
        match bytes {
            Err(e) => Err("VMess base64 decode failed: "@ + e),
            Ok(b) => if !valid_utf8(b) {
                Err("VMess link not UTF-8: "@ + utf8_error_text(b))
            } else {
                match json_text_parse(decode_utf8(b)) {
                    Err(e) => Err("VMess JSON parse failed: "@ + e),
                    Ok(v) => vmess_outbound_spec(v),
                }
            },
        }
    }
}

fn str_member(v: &Json, k: &str) -> (r: Option<String>)
    ensures
        opt_view(r) == json_as_str(json_index(v@, k@)),
{
    v.index(k).as_str()
}

fn str_member_or_exec(v: &Json, k: &str, d: &str) -> (r: String)
    ensures
        r@ == str_member_or(v@, k@, d@),
{
    value_or(str_member(v, k), d)
}

/// The Xray outbound for a decoded VMess description.
pub fn vmess_outbound(v: &Json) -> (r: Result<Json, String>)
    ensures
        result_view(r) == vmess_outbound_spec(v@),
{
    let server = match str_member(v, "add") {
        Some(s) => s,
        None => {
            return Err(String::from_str("VMess JSON missing add field"));
        },
    };
    let port_json = v.index("port");
    let port_n: u64 = match port_json.as_u64() {
        Some(n) => n,
        None => match port_json.as_str() {
            Some(t) => {
                let tv = chars_of(t.as_str());
                match parse_unsigned_chars(&tv, 18446744073709551615u64) {
                    Some(n) => n,
                    None => 443,
                }
            },
            None => 443,
        },
    };
    let port: u16 = (port_n % 65536) as u16;
    assert(port == vmess_port(v@));
    let uuid = match str_member(v, "id") {
        Some(s) => s,
        None => {
            return Err(String::from_str("VMess JSON missing field"));
        },
    };
    let net_raw = str_member_or_exec(v, "net", "tcp");
    let network = normalize_network(net_raw.as_str());
    let path = str_member_or_exec(v, "path", "");
    let host = str_member_or_exec(v, "host", "");
    let sni = str_member_or_exec(v, "sni", server.as_str());
    let tls = str_member_or_exec(v, "tls", "none");
    proof {
        reveal_strlit("");
    }
    let ghost p = VmessParams {
        server: server@,
        port: port,
        uuid: uuid@,
        network: network@,
        path: path@,
        host: host@,
        sni: sni@,
        tls: tls@,
    };
    assert(json_as_str(json_index(v@, "add"@)) == Some(server@));
    assert(json_as_str(json_index(v@, "id"@)) == Some(uuid@));
    assert(p.network == normalized_network(str_member_or(v@, "net"@, "tcp"@)));
    assert(p.path == str_member_or(v@, "path"@, Seq::empty()));
    assert(p.host == str_member_or(v@, "host"@, Seq::empty()));
    assert(p.sni == str_member_or(v@, "sni"@, server@));
    assert(p.tls == str_member_or(v@, "tls"@, "none"@));
    assert(p.port == vmess_port(v@));
    assert(vmess_outbound_spec(v@) == Ok::<JsonV, Seq<char>>(vmess_doc(p)));
    let users = arr1(
        obj3("id", text(&uuid), "security", Json::string("auto"), "alterId", Json::unsigned(0)),
    );
    let security = if tls.as_str().unicode_len() == 0 {
        String::from_str("none")
    } else {
        tls.clone()
    };
    let mut stream = obj2("network", text(&network), "security", text(&security));
    if str_eq(tls.as_str(), "tls") {
        let t = obj2("serverName", text(&sni), "allowInsecure", Json::Bool(false));
        stream = stream.put(String::from_str("tlsSettings"), t);
    }
    if str_eq(network.as_str(), "websocket") {
        let h = if host.as_str().unicode_len() == 0 {
            sni.clone()
        } else {
            host.clone()
        };
        let ws = obj2("path", text(&path), "headers", obj1("Host", text(&h)));
        stream = stream.put(String::from_str("wsSettings"), ws);
    }
    let vnext = arr1(
        obj3("address", text(&server), "port", Json::unsigned(port as u64), "users", users),
    );
    Ok(obj3("protocol", Json::string("vmess"), "settings", obj1("vnext", vnext), "streamSettings", stream))
}


fn remove_line_breaks(v: &Vec<char>) -> (r: Vec<char>)
    ensures
        r@ == without_line_breaks(v@),
{
    let mut out: Vec<char> = Vec::new();
    let n = v.len();
    for i in 0..n
        invariant
            n == v@.len(),
            out@ == without_line_breaks(v@.take(i as int)),
    {
        proof {
            assert(v@.take(i + 1).drop_last() =~= v@.take(i as int));
        }
        if v[i] != '\r' && v[i] != '\n' {
            out.push(v[i]);
        }
    }
    proof {
        assert(v@.take(n as int) =~= v@);
    }
    out
}

/// The number of bytes that `c` takes in UTF-8.
fn utf8_width(c: char) -> (r: usize)
    ensures
        r == encode_scalar(c as u32).len(),
{
    let v = c as u32;
    if v <= 0x7F {
        1
    } else if v <= 0x7FF {
        2
    } else if v <= 0xFFFF {
        proof {
            vstd::utf8::char_is_scalar(c);
        }
        3
    } else {
        4
    }
}

/// The UTF-8 length of `v`, modulo four.
fn utf8_len_mod4(v: &Vec<char>) -> (r: usize)
    ensures
        r == encode_utf8(v@).len() % 4,
{
    let mut acc: usize = 0;
    let mut i = v.len();
    assert(v@.skip(i as int) =~= Seq::<char>::empty());
    while i > 0
        invariant
            i <= v@.len(),
            acc < 4,
            acc == encode_utf8(v@.skip(i as int)).len() % 4,
        decreases i,
    {
        let w = utf8_width(v[i - 1]);
        proof {
            assert(v@.skip(i - 1).drop_first() =~= v@.skip(i as int));
            assert(v@.skip(i - 1)[0] == v@[i - 1]);
        }
        acc = (w + acc) % 4;
        i = i - 1;
    }
    assert(v@.skip(0) =~= v@);
    acc
}

/// The base64 text that a VMess link carries, given the link has the prefix.
fn vmess_payload_exec(link: &str) -> (r: String)
    requires
        has_prefix(link@, "vmess://"@),
    ensures
        r@ == vmess_payload(link@),
{
    proof {
        reveal_strlit("vmess://");
    }
    let all = chars_of(link);
    let mut rest: Vec<char> = Vec::new();
    let mut i: usize = 8;
    while i < all.len()
        invariant
            8 <= i <= all@.len(),
            rest@ == all@.subrange(8, i as int),
        decreases all@.len() - i,
    {
        rest.push(all[i]);
        i = i + 1;
        proof {
            assert(rest@ =~= all@.subrange(8, i as int));
        }
    }
    assert(rest@ =~= link@.skip(8));
    let trimmed = trim_chars(&rest);
    let kept = remove_line_breaks(&trimmed);
    let mut out = string_from_chars(kept.as_slice());
    let m = utf8_len_mod4(&kept);
    let k: usize = (4 - m) % 4;
    let ghost base = out@;
    let mut j: usize = 0;
    while j < k
        invariant
            j <= k,
            out@ == base + Seq::new(j as nat, |m: int| '='),
        decreases k - j,
    {
        crate::text::push_char(&mut out, '=');
        j = j + 1;
        proof {
            assert(out@ =~= base + Seq::new(j as nat, |m: int| '='));
        }
    }
    assert(base == without_line_breaks(trim(link@.skip(8))));
    assert(out@ =~= vmess_payload(link@));
    out
}

/// The Xray outbound for a VMess link.
pub fn parse_vmess_link(link: &str) -> (r: Result<Json, String>)
    ensures
        result_view(r) == vmess_link_spec(link@),
{
    if !starts_with(link, "vmess://") {
        return Err(String::from_str("Not VMess link"));
    }
    let b64 = vmess_payload_exec(link);
    let decoded = match decode_base64_standard(b64.as_str()) {
        Ok(b) => Ok(b),
        Err(_) => decode_base64_url_safe(b64.as_str()),
    };
    let bytes = match decoded {
        Ok(b) => b,
        Err(e) => {
            return Err(join("VMess base64 decode failed: ", e.as_str()));
        },
    };
    let text = match string_from_utf8(bytes) {
        Ok(t) => t,
        Err(e) => {
            return Err(join("VMess link not UTF-8: ", e.as_str()));
        },
    };
    let value = match parse_json(text.as_str()) {
        Ok(v) => v,
        Err(e) => {
            return Err(join("VMess JSON parse failed: ", e.as_str()));
        },
    };
    vmess_outbound(&value)
}


/// The outbound of a proxy link: VLESS and VMess links are understood.
pub open spec fn link_outbound_spec(link: Seq<char>) -> Result<JsonV, Seq<char>> {
    if has_prefix(link, "vless://"@) {
        vless_link_spec(link)
    } else if has_prefix(link, "vmess://"@) {
        vmess_link_spec(link)
    } else {
        Err("Unsupported proxy protocol link. MVP supports VLESS VMess."@)
    }
}

/// Sets `allowInsecure` to true in the TLS and REALITY settings that the
/// outbound's stream settings hold, where they hold them.
pub open spec fn with_allow_insecure(o: JsonV) -> JsonV {
    match json_get(o, "streamSettings"@) {
        None => o,
        Some(ss) => {
            let ss1 = match json_get(ss, "tlsSettings"@) {
                Some(t) => json_put(ss, "tlsSettings"@, json_put(t, "allowInsecure"@, JsonV::Bool(true))),
                None => ss,
            };
            let ss2 = match json_get(ss1, "realitySettings"@) {
                Some(t) => json_put(
                    ss1,
                    "realitySettings"@,
                    json_put(t, "allowInsecure"@, JsonV::Bool(true)),
                ),
                None => ss1,
            };
            json_put(o, "streamSettings"@, ss2)
        },
    }
}

/// Makes the outbound dial through the `fragment` outbound, where it has
/// stream settings.
pub open spec fn with_fragment_dialer(o: JsonV) -> JsonV {
    match json_get(o, "streamSettings"@) {
        None => o,
        Some(ss) => {
            let sock = match json_get(ss, "sockopt"@) {
                Some(x) => x,
                None => JsonV::Object(Seq::empty()),
            };
            json_put(
                o,
                "streamSettings"@,
                json_put(ss, "sockopt"@, json_put(sock, "dialerProxy"@, JsonV::Str("fragment"@))),
            )
        },
    }
}

/// The proxy outbound with the settings applied: insecure TLS if allowed, the
/// `proxy` tag, multiplexing if enabled, the fragment dialer if enabled.
pub open spec fn final_outbound(o: JsonV, cfg: AppConfig) -> JsonV {
    let a = if cfg.allow_insecure {
        with_allow_insecure(o)
    } else {
        o
    };
    let b = json_put(a, "tag"@, JsonV::Str("proxy"@));
    let c = if cfg.mux_enabled {
        json_put(
            b,
            "mux"@,
            JsonV::Object(
                seq![("enabled"@, JsonV::Bool(true)), ("concurrency"@, JsonV::Int(cfg.mux_concurrency as int))],
            ),
        )
    } else {
        b
    };
    if cfg.fragment_enabled {
        with_fragment_dialer(c)
    } else {
        c
    }
}

pub open spec fn sniffing_spec(cfg: AppConfig) -> JsonV {
    JsonV::Object(
        seq![
            ("enabled"@, JsonV::Bool(cfg.sniffing_enabled)),
            (
                "destOverride"@,
                JsonV::Array(
                    seq![JsonV::Str("http"@), JsonV::Str("tls"@), JsonV::Str("quic"@)],
                ),
            ),
            ("routeOnly"@, JsonV::Bool(false)),
        ],
    )
}

/// The SOCKS inbound settings: password authentication with an account when
/// a user name is set, none otherwise.
pub open spec fn socks_settings_spec(cfg: AppConfig) -> JsonV {
    let named = cfg.socks_username@.len() > 0;
    let base = JsonV::Object(
        seq![
            ("auth"@, JsonV::Str(if named { "password"@ } else { "noauth"@ })),
            ("udp"@, JsonV::Bool(cfg.socks_enable_udp)),
        ],
    );
    if named {
        json_put(
            base,
            "accounts"@,
            JsonV::Array(
                seq![
                    JsonV::Object(
                        seq![
                            ("user"@, JsonV::Str(cfg.socks_username@)),
                            ("pass"@, JsonV::Str(cfg.socks_password@)),
                        ],
                    ),
                ],
            ),
        )
    } else {
        base
    }
}

pub open spec fn direct_outbound() -> JsonV {
    JsonV::Object(
        seq![
            ("protocol"@, JsonV::Str("freedom"@)),
            ("tag"@, JsonV::Str("direct"@)),
            ("settings"@, JsonV::Object(Seq::empty())),
        ],
    )
}

pub open spec fn fragment_outbound(cfg: AppConfig) -> JsonV {
    JsonV::Object(
        seq![
            ("protocol"@, JsonV::Str("fragment"@)),
            (
                "settings"@,
                JsonV::Object(
                    seq![
                        ("packets"@, JsonV::Str("tlshello"@)),
                        ("length"@, JsonV::Str(cfg.fragment_length@)),
                        ("interval"@, JsonV::Str(cfg.fragment_interval@)),
                    ],
                ),
            ),
            ("tag"@, JsonV::Str("fragment"@)),
        ],
    )
}

/// The outbounds: the proxy, then the fragment outbound when enabled, then
/// the direct one.
pub open spec fn outbounds_spec(o: JsonV, cfg: AppConfig) -> Seq<JsonV> {
    let base = seq![final_outbound(o, cfg), direct_outbound()];
    if cfg.fragment_enabled {
        base.insert(1, fragment_outbound(cfg))
    } else {
        base
    }
}

/// The non-empty trimmed pieces, in order.
pub open spec fn nonempty_trimmed(pieces: Seq<Seq<char>>) -> Seq<Seq<char>>
    decreases pieces.len(),
{
    if pieces.len() == 0 {
        Seq::empty()
    } else {
        let rest = nonempty_trimmed(pieces.drop_last());
        let t = trim(pieces.last());
        if t.len() > 0 {
            rest.push(t)
        } else {
            rest
        }
    }
}

/// The DNS servers: the remote list, then the domestic list, each split at
/// commas, trimmed, empty entries dropped.
pub open spec fn dns_servers_spec(cfg: AppConfig) -> Seq<Seq<char>> {
    nonempty_trimmed(split_on(cfg.remote_dns@, ','))
        + nonempty_trimmed(split_on(cfg.domestic_dns@, ','))
}

pub open spec fn string_array(s: Seq<Seq<char>>) -> JsonV {
    JsonV::Array(s.map_values(|x: Seq<char>| JsonV::Str(x)))
}

/// The local inbounds: SOCKS, HTTP, and the statistics API.
pub open spec fn inbounds_spec(cfg: AppConfig) -> JsonV {
    JsonV::Array(
        seq![
            JsonV::Object(
                seq![
                    ("port"@, JsonV::Int(cfg.socks_port as int)),
                    ("listen"@, JsonV::Str("127.0.0.1"@)),
                    ("protocol"@, JsonV::Str("socks"@)),
                    ("settings"@, socks_settings_spec(cfg)),
                    ("sniffing"@, sniffing_spec(cfg)),
                ],
            ),
            JsonV::Object(
                seq![
                    ("port"@, JsonV::Int(cfg.http_port as int)),
                    ("listen"@, JsonV::Str("127.0.0.1"@)),
                    ("protocol"@, JsonV::Str("http"@)),
                    ("settings"@, JsonV::Object(seq![("allowTransparent"@, JsonV::Bool(false))])),
                    ("sniffing"@, sniffing_spec(cfg)),
                ],
            ),
            JsonV::Object(
                seq![
                    ("listen"@, JsonV::Str("127.0.0.1"@)),
                    ("port"@, JsonV::Int(10085)),
                    ("protocol"@, JsonV::Str("dokodemo-door"@)),
                    ("settings"@, JsonV::Object(seq![("address"@, JsonV::Str("127.0.0.1"@))])),
                    ("tag"@, JsonV::Str("api"@)),
                ],
            ),
        ],
    )
}

/// The Xray configuration for an outbound and the settings.
/// The members of the configuration document before the DNS servers: log,
/// statistics API, statistics, local inbounds, policy, outbounds.
pub open spec fn config_members(o: JsonV, cfg: AppConfig) -> Seq<(Seq<char>, JsonV)> {
    seq![
        ("log"@, JsonV::Object(seq![("loglevel"@, JsonV::Str("warning"@))])),
        (
            "api"@,
            JsonV::Object(
                seq![
                    ("services"@, JsonV::Array(seq![JsonV::Str("StatsService"@)])),
                    ("tag"@, JsonV::Str("api"@)),
                ],
            ),
        ),
        ("stats"@, JsonV::Object(Seq::empty())),
        ("inbounds"@, inbounds_spec(cfg)),
        (
            "policy"@,
            JsonV::Object(
                seq![
                    (
                        "system"@,
                        JsonV::Object(
                            seq![
                                ("statsOutboundUplink"@, JsonV::Bool(true)),
                                ("statsOutboundDownlink"@, JsonV::Bool(true)),
                            ],
                        ),
                    ),
                ],
            ),
        ),
        ("outbounds"@, JsonV::Array(outbounds_spec(o, cfg))),
    ]
}

pub open spec fn xray_config_spec(o: JsonV, cfg: AppConfig) -> JsonV {
    let doc = JsonV::Object(config_members(o, cfg));
    if cfg.local_dns_enabled && dns_servers_spec(cfg).len() > 0 {
        json_put(
            doc,
            "dns"@,
            JsonV::Object(seq![("servers"@, string_array(dns_servers_spec(cfg)))]),
        )
    } else {
        doc
    }
}

/// The Xray configuration for a link and the settings, or why there is none.
pub open spec fn generate_xray_config_spec(link: Seq<char>, cfg: AppConfig) -> Result<
    JsonV,
    Seq<char>,
> {
    match link_outbound_spec(link) {
        Err(e) => Err(e),
        Ok(o) => Ok(xray_config_spec(o, cfg)),
    }
}


fn get_copy(o: &Json, k: &str) -> (r: Option<Json>)
    ensures
        match r {
            Some(x) => json_get(o@, k@) == Some(x@),
            None => json_get(o@, k@) is None,
        },
{
    match o.get(k) {
        Some(x) => Some(x.copy()),
        None => None,
    }
}

fn allow_insecure_exec(o: Json) -> (r: Json)
    ensures
        r@ == with_allow_insecure(o@),
{
    match get_copy(&o, "streamSettings") {
        None => o,
        Some(ss) => {
            let ss1 = match get_copy(&ss, "tlsSettings") {
                Some(t) => {
                    let t2 = t.put(String::from_str("allowInsecure"), Json::Bool(true));
                    ss.put(String::from_str("tlsSettings"), t2)
                },
                None => ss,
            };
            let ss2 = match get_copy(&ss1, "realitySettings") {
                Some(t) => {
                    let t2 = t.put(String::from_str("allowInsecure"), Json::Bool(true));
                    ss1.put(String::from_str("realitySettings"), t2)
                },
                None => ss1,
            };
            o.put(String::from_str("streamSettings"), ss2)
        },
    }
}

fn fragment_dialer_exec(o: Json) -> (r: Json)
    ensures
        r@ == with_fragment_dialer(o@),
{
    match get_copy(&o, "streamSettings") {
        None => o,
        Some(ss) => {
            let sock = match get_copy(&ss, "sockopt") {
                Some(x) => x,
                None => Json::empty_object(),
            };
            let sock2 = sock.put(String::from_str("dialerProxy"), Json::string("fragment"));
            let ss2 = ss.put(String::from_str("sockopt"), sock2);
            o.put(String::from_str("streamSettings"), ss2)
        },
    }
}

fn final_outbound_exec(o: Json, cfg: &AppConfig) -> (r: Json)
    ensures
        r@ == final_outbound(o@, *cfg),
{
    let a = if cfg.allow_insecure {
        allow_insecure_exec(o)
    } else {
        o
    };
    let b = a.put(String::from_str("tag"), Json::string("proxy"));
    let c = if cfg.mux_enabled {
        let mux = obj2(
            "enabled",
            Json::Bool(true),
            "concurrency",
            Json::signed(cfg.mux_concurrency as i64),
        );
        b.put(String::from_str("mux"), mux)
    } else {
        b
    };
    if cfg.fragment_enabled {
        fragment_dialer_exec(c)
    } else {
        c
    }
}

fn sniffing_exec(cfg: &AppConfig) -> (r: Json)
    ensures
        r@ == sniffing_spec(*cfg),
{
    let ghost a = JsonV::Str("http"@);
    let ghost b = JsonV::Str("tls"@);
    let ghost c = JsonV::Str("quic"@);
    let dest = Json::empty_array().element(Json::string("http")).element(Json::string("tls")).element(
        Json::string("quic"),
    );
    assert(elements(dest@) =~= seq![a, b, c]);
    obj3("enabled", Json::Bool(cfg.sniffing_enabled), "destOverride", dest, "routeOnly", Json::Bool(false))
}

fn socks_settings_exec(cfg: &AppConfig) -> (r: Json)
    ensures
        r@ == socks_settings_spec(*cfg),
{
    let named = cfg.socks_username.as_str().unicode_len() > 0;
    let auth = if named {
        Json::string("password")
    } else {
        Json::string("noauth")
    };
    let base = obj2("auth", auth, "udp", Json::Bool(cfg.socks_enable_udp));
    if named {
        let account = obj2("user", text(&cfg.socks_username), "pass", text(&cfg.socks_password));
        base.put(String::from_str("accounts"), arr1(account))
    } else {
        base
    }
}

fn outbounds_exec(o: Json, cfg: &AppConfig) -> (r: Json)
    ensures
        r@ == JsonV::Array(outbounds_spec(o@, *cfg)),
{
    let ghost ov = o@;
    let first = final_outbound_exec(o, cfg);
    let direct = obj3(
        "protocol",
        Json::string("freedom"),
        "tag",
        Json::string("direct"),
        "settings",
        Json::empty_object(),
    );
    let ghost fv = first@;
    let ghost dv = direct@;
    let list = Json::empty_array().element(first).element(direct);
    assert(elements(list@) =~= seq![fv, dv]);
    if cfg.fragment_enabled {
        let settings = obj3(
            "packets",
            Json::string("tlshello"),
            "length",
            text(&cfg.fragment_length),
            "interval",
            text(&cfg.fragment_interval),
        );
        let frag = obj3(
            "protocol",
            Json::string("fragment"),
            "settings",
            settings,
            "tag",
            Json::string("fragment"),
        );
        list.insert_element(1, frag)
    } else {
        list
    }
}

/// The non-empty trimmed comma-separated entries of a list.
fn list_entries(list: &String) -> (r: Vec<String>)
    ensures
        r@.map_values(|x: String| x@) == nonempty_trimmed(split_on(list@, ',')),
{
    let cs = crate::text::chars_of(list.as_str());
    let pieces = split_chars(&cs, ',');
    let ghost ps = views_of(pieces@);
    let mut out: Vec<String> = Vec::new();
    let n = pieces.len();
    for i in 0..n
        invariant
            n == pieces@.len(),
            ps == views_of(pieces@),
            ps == split_on(list@, ','),
            out@.map_values(|x: String| x@) == nonempty_trimmed(ps.take(i as int)),
    {
        proof {
            assert(ps.take(i + 1).drop_last() =~= ps.take(i as int));
            assert(ps.take(i + 1).last() == pieces@[i as int]@);
        }
        let t = trim_chars(&pieces[i]);
        if t.len() > 0 {
            let ghost before = out@.map_values(|x: String| x@);
            out.push(string_from_chars(t.as_slice()));
            proof {
                assert(out@.map_values(|x: String| x@) =~= before.push(t@));
            }
        }
    }
    proof {
        assert(ps.take(n as int) =~= ps);
    }
    out
}

fn dns_servers_exec(cfg: &AppConfig) -> (r: Vec<String>)
    ensures
        r@.map_values(|x: String| x@) == dns_servers_spec(*cfg),
{
    let mut a = list_entries(&cfg.remote_dns);
    let b = list_entries(&cfg.domestic_dns);
    let ghost av = a@.map_values(|x: String| x@);
    let ghost bv = b@.map_values(|x: String| x@);
    let mut bb = b;
    a.append(&mut bb);
    proof {
        assert(a@.map_values(|x: String| x@) =~= av + bv);
    }
    a
}

fn string_array_exec(v: &Vec<String>) -> (r: Json)
    ensures
        r@ == string_array(v@.map_values(|x: String| x@)),
{
    let mut arr = Json::empty_array();
    let n = v.len();
    assert(v@.take(0).map_values(|x: String| x@).map_values(|x: Seq<char>| JsonV::Str(x)) =~= Seq::<JsonV>::empty());
    for i in 0..n
        invariant
            n == v@.len(),
            arr@ == string_array(v@.take(i as int).map_values(|x: String| x@)),
    {
        let ghost before = elements(arr@);
        arr = arr.element(text(&v[i]));
        proof {
            assert(v@.take(i + 1).map_values(|x: String| x@).map_values(|x: Seq<char>| JsonV::Str(x))
                =~= before.push(JsonV::Str(v@[i as int]@)));
        }
    }
    proof {
        assert(v@.take(n as int) =~= v@);
    }
    arr
}

/// The Xray configuration for an outbound and the settings.
pub fn xray_config(outbound: Json, cfg: &AppConfig) -> (r: Json)
    ensures
        r@ == xray_config_spec(outbound@, *cfg),
{
    let ghost ov = outbound@;
    let log = obj1("loglevel", Json::string("warning"));
    let api = obj2("services", arr1(Json::string("StatsService")), "tag", Json::string("api"));
    let sniffing = sniffing_exec(cfg);
    let socks_in = obj5(
        "port",
        Json::unsigned(cfg.socks_port as u64),
        "listen",
        Json::string("127.0.0.1"),
        "protocol",
        Json::string("socks"),
        "settings",
        socks_settings_exec(cfg),
        "sniffing",
        sniffing.copy(),
    );
    let http_in = obj5(
        "port",
        Json::unsigned(cfg.http_port as u64),
        "listen",
        Json::string("127.0.0.1"),
        "protocol",
        Json::string("http"),
        "settings",
        obj1("allowTransparent", Json::Bool(false)),
        "sniffing",
        sniffing,
    );
    let api_in = obj5(
        "listen",
        Json::string("127.0.0.1"),
        "port",
        Json::unsigned(10085),
        "protocol",
        Json::string("dokodemo-door"),
        "settings",
        obj1("address", Json::string("127.0.0.1")),
        "tag",
        Json::string("api"),
    );
    let ghost i1 = socks_in@;
    let ghost i2 = http_in@;
    let ghost i3 = api_in@;
    let inbounds = Json::empty_array().element(socks_in).element(http_in).element(api_in);
    assert(elements(inbounds@) =~= seq![i1, i2, i3]);
    assert(inbounds@ == inbounds_spec(*cfg));
    let policy = obj1(
        "system",
        obj2("statsOutboundUplink", Json::Bool(true), "statsOutboundDownlink", Json::Bool(true)),
    );
    let outbounds = outbounds_exec(outbound, cfg);
    let doc = obj6(
        "log",
        log,
        "api",
        api,
        "stats",
        Json::empty_object(),
        "inbounds",
        inbounds,
        "policy",
        policy,
        "outbounds",
        outbounds,
    );
    if cfg.local_dns_enabled {
        let servers = dns_servers_exec(cfg);
        if servers.len() > 0 {
            let dns = obj1("servers", string_array_exec(&servers));
            return doc.put(String::from_str("dns"), dns);
        }
    }
    doc
}

/// The outbound for a proxy link.
pub fn link_outbound(link: &str) -> (r: Result<Json, String>)
    ensures
        result_view(r) == link_outbound_spec(link@),
{
    if starts_with(link, "vless://") {
        parse_vless_link(link)
    } else if starts_with(link, "vmess://") {
        parse_vmess_link(link)
    } else {
        Err(String::from_str("Unsupported proxy protocol link. MVP supports VLESS VMess."))
    }
}

/// The Xray configuration for a proxy link and the settings: the link's
/// outbound with the settings applied, the direct (and fragment) outbounds,
/// the local SOCKS, HTTP and statistics inbounds, and the DNS servers.
pub fn generate_xray_config(link: &str, app_config: &AppConfig) -> (r: Result<Json, String>)
    ensures
        result_view(r) == generate_xray_config_spec(link@, *app_config),
{
    match link_outbound(link) {
        Err(e) => Err(e),
        Ok(o) => Ok(xray_config(o, app_config)),
    }
}


/// Every outbound that a link gives is an object.
proof fn lemma_link_outbound_object(link: Seq<char>)
    ensures
        link_outbound_spec(link) matches Ok(o) ==> o is Object,
{
}

/// Setting `allowInsecure` keeps an object an object.
proof fn lemma_allow_insecure_object(o: JsonV)
    requires
        o is Object,
    ensures
        with_allow_insecure(o) is Object,
{
}

/// The member names that the configuration document and the proxy outbound
/// are built with are pairwise different where the laws below need it.
proof fn lemma_member_names_differ()
    ensures
        "tag"@ != "mux"@,
        "tag"@ != "streamSettings"@,
        "outbounds"@ != "dns"@,
        "outbounds"@ != "log"@,
        "outbounds"@ != "api"@,
        "outbounds"@ != "stats"@,
        "outbounds"@ != "inbounds"@,
        "outbounds"@ != "policy"@,
{
    reveal_strlit("tag");
    reveal_strlit("mux");
    reveal_strlit("streamSettings");
    reveal_strlit("outbounds");
    reveal_strlit("dns");
    reveal_strlit("log");
    reveal_strlit("api");
    reveal_strlit("stats");
    reveal_strlit("inbounds");
    reveal_strlit("policy");
    assert("tag"@[0] != "mux"@[0]);
    assert("tag"@.len() != "streamSettings"@.len());
    assert("outbounds"@.len() != "dns"@.len());
    assert("outbounds"@.len() != "log"@.len());
    assert("outbounds"@.len() != "api"@.len());
    assert("outbounds"@.len() != "stats"@.len());
    assert("outbounds"@[0] != "inbounds"@[0]);
    assert("outbounds"@.len() != "policy"@.len());
}

/// Whatever the settings, the link's outbound carries the tag `proxy`.
pub proof fn law_final_outbound_tagged_proxy(o: JsonV, cfg: AppConfig)
    requires
        o is Object,
    ensures
        json_get(final_outbound(o, cfg), "tag"@) == Some(JsonV::Str("proxy"@)),
{
    lemma_member_names_differ();
    lemma_allow_insecure_object(o);
    let a = if cfg.allow_insecure {
        with_allow_insecure(o)
    } else {
        o
    };
    let b = json_put(a, "tag"@, JsonV::Str("proxy"@));
    crate::json::law_json_put_get(a, "tag"@, JsonV::Str("proxy"@));
    let mux = JsonV::Object(
        seq![("enabled"@, JsonV::Bool(true)), ("concurrency"@, JsonV::Int(cfg.mux_concurrency as int))],
    );
    let c = if cfg.mux_enabled {
        json_put(b, "mux"@, mux)
    } else {
        b
    };
    if cfg.mux_enabled {
        crate::json::law_json_put_other(b, "mux"@, mux, "tag"@);
    }
    if cfg.fragment_enabled {
        match json_get(c, "streamSettings"@) {
            None => {},
            Some(ss) => {
                let sock = match json_get(ss, "sockopt"@) {
                    Some(x) => x,
                    None => JsonV::Object(Seq::empty()),
                };
                crate::json::law_json_put_other(
                    c,
                    "streamSettings"@,
                    json_put(ss, "sockopt"@, json_put(sock, "dialerProxy"@, JsonV::Str("fragment"@))),
                    "tag"@,
                );
            },
        }
    }
}

/// The outbound that a link gives has no multiplexing settings of its own.
proof fn lemma_link_outbound_without_mux(link: Seq<char>)
    ensures
        link_outbound_spec(link) matches Ok(o) ==> o is Object && json_get(o, "mux"@) is None,
{
    reveal_strlit("mux");
    reveal_strlit("protocol");
    reveal_strlit("settings");
    reveal_strlit("streamSettings");
    assert("mux"@ != "protocol"@ && "mux"@ != "settings"@ && "mux"@ != "streamSettings"@) by {
        assert("mux"@.len() != "protocol"@.len());
        assert("mux"@.len() != "settings"@.len());
        assert("mux"@.len() != "streamSettings"@.len());
    }
    if let Ok(o) = link_outbound_spec(link) {
        let fs = o->Object_0;
        assert(fs.len() == 3 && fs[0].0 == "protocol"@ && fs[1].0 == "settings"@ && fs[2].0
            == "streamSettings"@);
        assert(crate::json::field_pos(fs, "mux"@, 3) == -1);
        assert(crate::json::field_pos(fs, "mux"@, 2) == -1);
        assert(crate::json::field_pos(fs, "mux"@, 1) == -1);
        assert(crate::json::field_pos(fs, "mux"@, 0) == -1);
    }
}

/// The TLS settings of an outbound's stream settings, where it has them.
pub open spec fn tls_settings_of(o: JsonV) -> Option<JsonV> {
    json_get(json_index(o, "streamSettings"@), "tlsSettings"@)
}

/// The REALITY settings of an outbound's stream settings, where it has them.
pub open spec fn reality_settings_of(o: JsonV) -> Option<JsonV> {
    json_get(json_index(o, "streamSettings"@), "realitySettings"@)
}

/// When the settings allow insecure connections, the proxy outbound's TLS
/// and REALITY settings (where the link's outbound has them) accept any
/// certificate; otherwise they are the link's own, untouched.
pub proof fn law_final_outbound_allow_insecure(o: JsonV, cfg: AppConfig)
    requires
        o is Object,
    ensures
        tls_settings_of(o) is Some <==> tls_settings_of(final_outbound(o, cfg)) is Some,
        reality_settings_of(o) is Some <==> reality_settings_of(final_outbound(o, cfg)) is Some,
        cfg.allow_insecure && tls_settings_of(o) is Some && tls_settings_of(o)->0 is Object ==> json_get(
            tls_settings_of(final_outbound(o, cfg))->0,
            "allowInsecure"@,
        ) == Some(JsonV::Bool(true)),
        cfg.allow_insecure && reality_settings_of(o) is Some && reality_settings_of(o)->0 is Object
            ==> json_get(reality_settings_of(final_outbound(o, cfg))->0, "allowInsecure"@) == Some(
            JsonV::Bool(true),
        ),
        !cfg.allow_insecure ==> tls_settings_of(final_outbound(o, cfg)) == tls_settings_of(o)
            && reality_settings_of(final_outbound(o, cfg)) == reality_settings_of(o),
{
    lemma_member_names_differ();
    lemma_allow_insecure_object(o);
    reveal_strlit("mux");
    reveal_strlit("tag");
    reveal_strlit("streamSettings");
    reveal_strlit("tlsSettings");
    reveal_strlit("realitySettings");
    reveal_strlit("sockopt");
    assert("mux"@ != "streamSettings"@) by {
        assert("mux"@.len() != "streamSettings"@.len());
    }
    assert("sockopt"@ != "tlsSettings"@ && "sockopt"@ != "realitySettings"@ && "realitySettings"@
        != "tlsSettings"@) by {
        assert("sockopt"@.len() != "tlsSettings"@.len());
        assert("sockopt"@.len() != "realitySettings"@.len());
        assert("realitySettings"@.len() != "tlsSettings"@.len());
    }
    let a = if cfg.allow_insecure {
        with_allow_insecure(o)
    } else {
        o
    };
    if cfg.allow_insecure {
        match json_get(o, "streamSettings"@) {
            None => {},
            Some(ss) => {
                let ss1 = match json_get(ss, "tlsSettings"@) {
                    Some(t) => json_put(ss, "tlsSettings"@, json_put(t, "allowInsecure"@, JsonV::Bool(true))),
                    None => ss,
                };
                let ss2 = match json_get(ss1, "realitySettings"@) {
                    Some(t) => json_put(
                        ss1,
                        "realitySettings"@,
                        json_put(t, "allowInsecure"@, JsonV::Bool(true)),
                    ),
                    None => ss1,
                };
                crate::json::law_json_put_get(o, "streamSettings"@, ss2);
                if ss is Object {
                    match json_get(ss, "tlsSettings"@) {
                        Some(t) => {
                            crate::json::law_json_put_get(
                                ss,
                                "tlsSettings"@,
                                json_put(t, "allowInsecure"@, JsonV::Bool(true)),
                            );
                            crate::json::law_json_put_other(
                                ss,
                                "tlsSettings"@,
                                json_put(t, "allowInsecure"@, JsonV::Bool(true)),
                                "realitySettings"@,
                            );
                            if t is Object {
                                crate::json::law_json_put_get(t, "allowInsecure"@, JsonV::Bool(true));
                            }
                        },
                        None => {},
                    }
                    assert(ss1 is Object);
                    match json_get(ss1, "realitySettings"@) {
                        Some(t) => {
                            crate::json::law_json_put_get(
                                ss1,
                                "realitySettings"@,
                                json_put(t, "allowInsecure"@, JsonV::Bool(true)),
                            );
                            crate::json::law_json_put_other(
                                ss1,
                                "realitySettings"@,
                                json_put(t, "allowInsecure"@, JsonV::Bool(true)),
                                "tlsSettings"@,
                            );
                            if t is Object {
                                crate::json::law_json_put_get(t, "allowInsecure"@, JsonV::Bool(true));
                            }
                        },
                        None => {},
                    }
                }
            },
        }
    }
    let b = json_put(a, "tag"@, JsonV::Str("proxy"@));
    crate::json::law_json_put_other(a, "tag"@, JsonV::Str("proxy"@), "streamSettings"@);
    let mux = JsonV::Object(
        seq![("enabled"@, JsonV::Bool(true)), ("concurrency"@, JsonV::Int(cfg.mux_concurrency as int))],
    );
    let c = if cfg.mux_enabled {
        json_put(b, "mux"@, mux)
    } else {
        b
    };
    if cfg.mux_enabled {
        crate::json::law_json_put_other(b, "mux"@, mux, "streamSettings"@);
    }
    assert(json_get(c, "streamSettings"@) == json_get(a, "streamSettings"@));
    if cfg.fragment_enabled {
        match json_get(c, "streamSettings"@) {
            None => {},
            Some(ss) => {
                let sock = match json_get(ss, "sockopt"@) {
                    Some(x) => x,
                    None => JsonV::Object(Seq::empty()),
                };
                let ss3 = json_put(ss, "sockopt"@, json_put(sock, "dialerProxy"@, JsonV::Str("fragment"@)));
                crate::json::law_json_put_get(c, "streamSettings"@, ss3);
                if ss is Object {
                    crate::json::law_json_put_other(
                        ss,
                        "sockopt"@,
                        json_put(sock, "dialerProxy"@, JsonV::Str("fragment"@)),
                        "tlsSettings"@,
                    );
                    crate::json::law_json_put_other(
                        ss,
                        "sockopt"@,
                        json_put(sock, "dialerProxy"@, JsonV::Str("fragment"@)),
                        "realitySettings"@,
                    );
                } else if ss is Null {
                    let fs = seq![("sockopt"@, json_put(sock, "dialerProxy"@, JsonV::Str("fragment"@)))];
                    assert(crate::json::field_pos(fs, "tlsSettings"@, 1) == -1);
                    assert(crate::json::field_pos(fs, "tlsSettings"@, 0) == -1);
                    assert(crate::json::field_pos(fs, "realitySettings"@, 1) == -1);
                    assert(crate::json::field_pos(fs, "realitySettings"@, 0) == -1);
                }
            },
        }
    }
}

/// The proxy outbound multiplexes connections, with the settings'
/// concurrency, exactly when the settings turn multiplexing on; otherwise it
/// keeps what the link's outbound said of multiplexing.
pub proof fn law_final_outbound_mux(o: JsonV, cfg: AppConfig)
    requires
        o is Object,
    ensures
        cfg.mux_enabled ==> {
            let m = json_index(final_outbound(o, cfg), "mux"@);
            &&& json_get(final_outbound(o, cfg), "mux"@) is Some
            &&& json_get(m, "enabled"@) == Some(JsonV::Bool(true))
            &&& json_get(m, "concurrency"@) == Some(JsonV::Int(cfg.mux_concurrency as int))
        },
        !cfg.mux_enabled ==> json_get(final_outbound(o, cfg), "mux"@) == json_get(o, "mux"@),
{
    lemma_member_names_differ();
    lemma_allow_insecure_object(o);
    reveal_strlit("mux");
    reveal_strlit("streamSettings");
    reveal_strlit("enabled");
    reveal_strlit("concurrency");
    assert("mux"@ != "streamSettings"@) by {
        assert("mux"@.len() != "streamSettings"@.len());
    }
    assert("concurrency"@ != "enabled"@) by {
        assert("concurrency"@.len() != "enabled"@.len());
    }
    let a = if cfg.allow_insecure {
        with_allow_insecure(o)
    } else {
        o
    };
    if cfg.allow_insecure {
        match json_get(o, "streamSettings"@) {
            None => {},
            Some(ss) => {
                let ss1 = match json_get(ss, "tlsSettings"@) {
                    Some(t) => json_put(ss, "tlsSettings"@, json_put(t, "allowInsecure"@, JsonV::Bool(true))),
                    None => ss,
                };
                let ss2 = match json_get(ss1, "realitySettings"@) {
                    Some(t) => json_put(
                        ss1,
                        "realitySettings"@,
                        json_put(t, "allowInsecure"@, JsonV::Bool(true)),
                    ),
                    None => ss1,
                };
                crate::json::law_json_put_other(o, "streamSettings"@, ss2, "mux"@);
            },
        }
    }
    assert(json_get(a, "mux"@) == json_get(o, "mux"@));
    let b = json_put(a, "tag"@, JsonV::Str("proxy"@));
    crate::json::law_json_put_other(a, "tag"@, JsonV::Str("proxy"@), "mux"@);
    let mux = JsonV::Object(
        seq![("enabled"@, JsonV::Bool(true)), ("concurrency"@, JsonV::Int(cfg.mux_concurrency as int))],
    );
    let c = if cfg.mux_enabled {
        json_put(b, "mux"@, mux)
    } else {
        b
    };
    if cfg.mux_enabled {
        crate::json::law_json_put_get(b, "mux"@, mux);
        assert(crate::json::field_pos(mux->Object_0, "enabled"@, 0) == 0);
        assert(crate::json::field_pos(mux->Object_0, "concurrency"@, 1) == 1);
        assert(crate::json::field_pos(mux->Object_0, "concurrency"@, 0) == 1);
    }
    if cfg.fragment_enabled {
        match json_get(c, "streamSettings"@) {
            None => {},
            Some(ss) => {
                let sock = match json_get(ss, "sockopt"@) {
                    Some(x) => x,
                    None => JsonV::Object(Seq::empty()),
                };
                crate::json::law_json_put_other(
                    c,
                    "streamSettings"@,
                    json_put(ss, "sockopt"@, json_put(sock, "dialerProxy"@, JsonV::Str("fragment"@))),
                    "mux"@,
                );
            },
        }
    }
}

/// A generated configuration's proxy outbound multiplexes connections, with
/// the settings' concurrency, exactly when the settings turn it on.
pub proof fn law_config_mux_follows_setting(link: Seq<char>, cfg: AppConfig)
    ensures
        generate_xray_config_spec(link, cfg) matches Ok(doc) ==> {
            let p = config_outbounds(doc)[0];
            &&& (json_get(p, "mux"@) is Some <==> cfg.mux_enabled)
            &&& cfg.mux_enabled ==> json_get(json_index(p, "mux"@), "concurrency"@) == Some(
                JsonV::Int(cfg.mux_concurrency as int),
            )
        },
{
    lemma_link_outbound_without_mux(link);
    lemma_member_names_differ();
    law_config_outbounds(link, cfg);
    if let Ok(o) = link_outbound_spec(link) {
        law_final_outbound_mux(o, cfg);
        let doc = xray_config_spec(o, cfg);
        let fs = config_members(o, cfg);
        assert(crate::json::field_pos(fs, "outbounds"@, 5) == 5);
        assert(crate::json::field_pos(fs, "outbounds"@, 4) == 5);
        assert(crate::json::field_pos(fs, "outbounds"@, 3) == 5);
        assert(crate::json::field_pos(fs, "outbounds"@, 2) == 5);
        assert(crate::json::field_pos(fs, "outbounds"@, 1) == 5);
        assert(crate::json::field_pos(fs, "outbounds"@, 0) == 5);
        if cfg.local_dns_enabled && dns_servers_spec(cfg).len() > 0 {
            crate::json::law_json_put_other(
                JsonV::Object(fs),
                "dns"@,
                JsonV::Object(seq![("servers"@, string_array(dns_servers_spec(cfg)))]),
                "outbounds"@,
            );
        }
        assert(config_outbounds(doc) == outbounds_spec(o, cfg));
        assert(outbounds_spec(o, cfg)[0] == final_outbound(o, cfg));
    }
}

/// The outbounds of a configuration document.
pub open spec fn config_outbounds(doc: JsonV) -> Seq<JsonV> {
    elements(json_index(doc, "outbounds"@))
}

/// In every configuration generated from a link, the link's outbound, with
/// the settings applied, comes first and is tagged `proxy`, the `direct` outbound comes last, and the
/// `fragment` outbound stands between them exactly when fragmentation is on.
pub proof fn law_config_outbounds(link: Seq<char>, cfg: AppConfig)
    ensures
        generate_xray_config_spec(link, cfg) matches Ok(doc) ==> {
            let obs = config_outbounds(doc);
            &&& obs.len() == (if cfg.fragment_enabled { 3int } else { 2int })
            &&& obs[0] == final_outbound(link_outbound_spec(link)->Ok_0, cfg)
            &&& json_get(obs[0], "tag"@) == Some(JsonV::Str("proxy"@))
            &&& obs[obs.len() - 1] == direct_outbound()
            &&& cfg.fragment_enabled ==> obs[1] == fragment_outbound(cfg)
        },
{
    lemma_link_outbound_object(link);
    lemma_member_names_differ();
    if let Ok(o) = link_outbound_spec(link) {
        law_final_outbound_tagged_proxy(o, cfg);
        let doc = xray_config_spec(o, cfg);
        let obs = outbounds_spec(o, cfg);
        let fs = config_members(o, cfg);
        assert(crate::json::field_pos(fs, "outbounds"@, 5) == 5);
        assert(crate::json::field_pos(fs, "outbounds"@, 4) == 5);
        assert(crate::json::field_pos(fs, "outbounds"@, 3) == 5);
        assert(crate::json::field_pos(fs, "outbounds"@, 2) == 5);
        assert(crate::json::field_pos(fs, "outbounds"@, 1) == 5);
        assert(crate::json::field_pos(fs, "outbounds"@, 0) == 5);
        let base = JsonV::Object(fs);
        assert(json_get(base, "outbounds"@) == Some(JsonV::Array(obs)));
        if cfg.local_dns_enabled && dns_servers_spec(cfg).len() > 0 {
            crate::json::law_json_put_other(
                base,
                "dns"@,
                JsonV::Object(seq![("servers"@, string_array(dns_servers_spec(cfg)))]),
                "outbounds"@,
            );
        }
        assert(config_outbounds(doc) == obs);
    }
}

/// When fragmentation is on, the generated configuration's `fragment`
/// outbound splits the TLS hello with the settings' length and interval.
pub proof fn law_config_fragment_follows_settings(link: Seq<char>, cfg: AppConfig)
    ensures
        generate_xray_config_spec(link, cfg) matches Ok(doc) ==> (cfg.fragment_enabled ==> {
            let fr = config_outbounds(doc)[1];
            let st = json_index(fr, "settings"@);
            &&& json_get(fr, "protocol"@) == Some(JsonV::Str("fragment"@))
            &&& json_get(fr, "tag"@) == Some(JsonV::Str("fragment"@))
            &&& json_get(st, "packets"@) == Some(JsonV::Str("tlshello"@))
            &&& json_get(st, "length"@) == Some(JsonV::Str(cfg.fragment_length@))
            &&& json_get(st, "interval"@) == Some(JsonV::Str(cfg.fragment_interval@))
        }),
{
    law_config_outbounds(link, cfg);
    reveal_strlit("protocol");
    reveal_strlit("settings");
    reveal_strlit("tag");
    reveal_strlit("packets");
    reveal_strlit("length");
    reveal_strlit("interval");
    assert("settings"@ != "protocol"@ && "tag"@ != "protocol"@ && "tag"@ != "settings"@) by {
        assert("settings"@[0] != "protocol"@[0]);
        assert("tag"@.len() != "protocol"@.len());
        assert("tag"@.len() != "settings"@.len());
    }
    assert("length"@ != "packets"@ && "interval"@ != "packets"@ && "interval"@ != "length"@) by {
        assert("length"@.len() != "packets"@.len());
        assert("interval"@.len() != "packets"@.len());
        assert("interval"@.len() != "length"@.len());
    }
    let fr = fragment_outbound(cfg);
    let ff = fr->Object_0;
    assert(crate::json::field_pos(ff, "protocol"@, 0) == 0);
    assert(crate::json::field_pos(ff, "settings"@, 1) == 1);
    assert(crate::json::field_pos(ff, "settings"@, 0) == 1);
    assert(crate::json::field_pos(ff, "tag"@, 2) == 2);
    assert(crate::json::field_pos(ff, "tag"@, 1) == 2);
    assert(crate::json::field_pos(ff, "tag"@, 0) == 2);
    let sf = json_index(fr, "settings"@)->Object_0;
    assert(crate::json::field_pos(sf, "packets"@, 0) == 0);
    assert(crate::json::field_pos(sf, "length"@, 1) == 1);
    assert(crate::json::field_pos(sf, "length"@, 0) == 1);
    assert(crate::json::field_pos(sf, "interval"@, 2) == 2);
    assert(crate::json::field_pos(sf, "interval"@, 1) == 2);
    assert(crate::json::field_pos(sf, "interval"@, 0) == 2);
}

/// Only VLESS and VMess links give a configuration.
pub proof fn law_only_vless_vmess_links(link: Seq<char>, cfg: AppConfig)
    ensures
        !has_prefix(link, "vless://"@) && !has_prefix(link, "vmess://"@) ==> generate_xray_config_spec(link, cfg)
            == Err::<JsonV, Seq<char>>("Unsupported proxy protocol link. MVP supports VLESS VMess."@),
{
}

/// The local inbound of a configuration at position `i`.
pub open spec fn config_inbound(doc: JsonV, i: int) -> JsonV {
    elements(json_index(doc, "inbounds"@))[i]
}

/// Every generated configuration listens on the loopback address only: SOCKS
/// on the settings' SOCKS port, HTTP on their HTTP port, and the statistics
/// API on 10085.
pub proof fn law_config_listens_locally(link: Seq<char>, cfg: AppConfig)
    ensures
        generate_xray_config_spec(link, cfg) matches Ok(doc) ==> {
            &&& elements(json_index(doc, "inbounds"@)).len() == 3
            &&& json_get(config_inbound(doc, 0), "listen"@) == Some(JsonV::Str("127.0.0.1"@))
            &&& json_get(config_inbound(doc, 0), "port"@) == Some(JsonV::Int(cfg.socks_port as int))
            &&& json_get(config_inbound(doc, 0), "protocol"@) == Some(JsonV::Str("socks"@))
            &&& json_get(config_inbound(doc, 1), "listen"@) == Some(JsonV::Str("127.0.0.1"@))
            &&& json_get(config_inbound(doc, 1), "port"@) == Some(JsonV::Int(cfg.http_port as int))
            &&& json_get(config_inbound(doc, 1), "protocol"@) == Some(JsonV::Str("http"@))
            &&& json_get(config_inbound(doc, 2), "listen"@) == Some(JsonV::Str("127.0.0.1"@))
            &&& json_get(config_inbound(doc, 2), "port"@) == Some(JsonV::Int(10085))
        },
{
    reveal_strlit("inbounds");
    reveal_strlit("log");
    reveal_strlit("api");
    reveal_strlit("stats");
    reveal_strlit("dns");
    reveal_strlit("listen");
    reveal_strlit("port");
    reveal_strlit("protocol");
    reveal_strlit("settings");
    assert("inbounds"@ != "log"@ && "inbounds"@ != "api"@ && "inbounds"@ != "stats"@ && "inbounds"@ != "dns"@) by {
        assert("inbounds"@.len() != "log"@.len());
        assert("inbounds"@.len() != "api"@.len());
        assert("inbounds"@.len() != "stats"@.len());
        assert("inbounds"@.len() != "dns"@.len());
    }
    assert("port"@ != "listen"@ && "protocol"@ != "listen"@ && "protocol"@ != "port"@) by {
        assert("port"@.len() != "listen"@.len());
        assert("protocol"@.len() != "listen"@.len());
        assert("protocol"@.len() != "port"@.len());
    }
    assert("listen"@ != "port"@ && "port"@ != "protocol"@ && "listen"@ != "protocol"@);
    if let Ok(o) = link_outbound_spec(link) {
        let ins = inbounds_spec(cfg);
        let fs = config_members(o, cfg);
        assert(crate::json::field_pos(fs, "inbounds"@, 3) == 3);
        assert(crate::json::field_pos(fs, "inbounds"@, 2) == 3);
        assert(crate::json::field_pos(fs, "inbounds"@, 1) == 3);
        assert(crate::json::field_pos(fs, "inbounds"@, 0) == 3);
        let base = JsonV::Object(fs);
        assert(json_get(base, "inbounds"@) == Some(ins));
        if cfg.local_dns_enabled && dns_servers_spec(cfg).len() > 0 {
            crate::json::law_json_put_other(
                base,
                "dns"@,
                JsonV::Object(seq![("servers"@, string_array(dns_servers_spec(cfg)))]),
                "inbounds"@,
            );
        }
        let a = elements(ins);
        let f0 = a[0]->Object_0;
        assert(crate::json::field_pos(f0, "listen"@, 1) == 1);
        assert(crate::json::field_pos(f0, "listen"@, 0) == 1);
        assert(crate::json::field_pos(f0, "port"@, 0) == 0);
        assert(crate::json::field_pos(f0, "protocol"@, 2) == 2);
        assert(crate::json::field_pos(f0, "protocol"@, 1) == 2);
        assert(crate::json::field_pos(f0, "protocol"@, 0) == 2);
        let f1 = a[1]->Object_0;
        assert(crate::json::field_pos(f1, "listen"@, 1) == 1);
        assert(crate::json::field_pos(f1, "listen"@, 0) == 1);
        assert(crate::json::field_pos(f1, "port"@, 0) == 0);
        assert(crate::json::field_pos(f1, "protocol"@, 2) == 2);
        assert(crate::json::field_pos(f1, "protocol"@, 1) == 2);
        assert(crate::json::field_pos(f1, "protocol"@, 0) == 2);
        let f2 = a[2]->Object_0;
        assert(crate::json::field_pos(f2, "listen"@, 0) == 0);
        assert(crate::json::field_pos(f2, "port"@, 1) == 1);
        assert(crate::json::field_pos(f2, "port"@, 0) == 1);
    }
}

/// In every generated configuration the SOCKS and HTTP inbounds sniff
/// traffic exactly when the settings ask for it.
pub proof fn law_config_sniffing_follows_setting(link: Seq<char>, cfg: AppConfig)
    ensures
        generate_xray_config_spec(link, cfg) matches Ok(doc) ==> {
            &&& json_get(json_index(config_inbound(doc, 0), "sniffing"@), "enabled"@) == Some(
                JsonV::Bool(cfg.sniffing_enabled),
            )
            &&& json_get(json_index(config_inbound(doc, 1), "sniffing"@), "enabled"@) == Some(
                JsonV::Bool(cfg.sniffing_enabled),
            )
        },
{
    reveal_strlit("inbounds");
    reveal_strlit("log");
    reveal_strlit("api");
    reveal_strlit("stats");
    reveal_strlit("dns");
    reveal_strlit("listen");
    reveal_strlit("port");
    reveal_strlit("protocol");
    reveal_strlit("settings");
    reveal_strlit("sniffing");
    reveal_strlit("enabled");
    assert("inbounds"@ != "log"@ && "inbounds"@ != "api"@ && "inbounds"@ != "stats"@ && "inbounds"@ != "dns"@) by {
        assert("inbounds"@.len() != "log"@.len());
        assert("inbounds"@.len() != "api"@.len());
        assert("inbounds"@.len() != "stats"@.len());
        assert("inbounds"@.len() != "dns"@.len());
    }
    assert("sniffing"@ != "port"@ && "sniffing"@ != "listen"@ && "sniffing"@ != "protocol"@ && "sniffing"@
        != "settings"@) by {
        assert("sniffing"@.len() != "port"@.len());
        assert("sniffing"@.len() != "listen"@.len());
        assert("sniffing"@[1] != "protocol"@[1]);
        assert("sniffing"@[1] != "settings"@[1]);
    }
    if let Ok(o) = link_outbound_spec(link) {
        let ins = inbounds_spec(cfg);
        let fs = config_members(o, cfg);
        assert(crate::json::field_pos(fs, "inbounds"@, 3) == 3);
        assert(crate::json::field_pos(fs, "inbounds"@, 2) == 3);
        assert(crate::json::field_pos(fs, "inbounds"@, 1) == 3);
        assert(crate::json::field_pos(fs, "inbounds"@, 0) == 3);
        let base = JsonV::Object(fs);
        assert(json_get(base, "inbounds"@) == Some(ins));
        if cfg.local_dns_enabled && dns_servers_spec(cfg).len() > 0 {
            crate::json::law_json_put_other(
                base,
                "dns"@,
                JsonV::Object(seq![("servers"@, string_array(dns_servers_spec(cfg)))]),
                "inbounds"@,
            );
        }
        let a = elements(ins);
        let f0 = a[0]->Object_0;
        assert(crate::json::field_pos(f0, "sniffing"@, 4) == 4);
        assert(crate::json::field_pos(f0, "sniffing"@, 3) == 4);
        assert(crate::json::field_pos(f0, "sniffing"@, 2) == 4);
        assert(crate::json::field_pos(f0, "sniffing"@, 1) == 4);
        assert(crate::json::field_pos(f0, "sniffing"@, 0) == 4);
        let f1 = a[1]->Object_0;
        assert(crate::json::field_pos(f1, "sniffing"@, 4) == 4);
        assert(crate::json::field_pos(f1, "sniffing"@, 3) == 4);
        assert(crate::json::field_pos(f1, "sniffing"@, 2) == 4);
        assert(crate::json::field_pos(f1, "sniffing"@, 1) == 4);
        assert(crate::json::field_pos(f1, "sniffing"@, 0) == 4);
        let sn = sniffing_spec(cfg)->Object_0;
        assert(crate::json::field_pos(sn, "enabled"@, 0) == 0);
    }
}

/// The settings of the SOCKS inbound of a generated configuration.
pub open spec fn config_socks_settings(doc: JsonV) -> JsonV {
    json_index(config_inbound(doc, 0), "settings"@)
}

/// In every generated configuration the SOCKS inbound asks for a password
/// exactly when the settings name a SOCKS user, and then holds that user and
/// password as its one account; it relays UDP exactly when the settings say
/// so.
pub proof fn law_config_socks_auth(link: Seq<char>, cfg: AppConfig)
    ensures
        generate_xray_config_spec(link, cfg) matches Ok(doc) ==> {
            let st = config_socks_settings(doc);
            let named = cfg.socks_username@.len() > 0;
            &&& json_get(st, "auth"@) == Some(
                JsonV::Str(
                    if named {
                        "password"@
                    } else {
                        "noauth"@
                    },
                ),
            )
            &&& json_get(st, "udp"@) == Some(JsonV::Bool(cfg.socks_enable_udp))
            &&& !named ==> json_get(st, "accounts"@) is None
            &&& named ==> {
                let accounts = elements(json_index(st, "accounts"@));
                &&& accounts.len() == 1
                &&& json_get(accounts[0], "user"@) == Some(JsonV::Str(cfg.socks_username@))
                &&& json_get(accounts[0], "pass"@) == Some(JsonV::Str(cfg.socks_password@))
            }
        },
{
    reveal_strlit("inbounds");
    reveal_strlit("log");
    reveal_strlit("api");
    reveal_strlit("stats");
    reveal_strlit("dns");
    reveal_strlit("listen");
    reveal_strlit("port");
    reveal_strlit("protocol");
    reveal_strlit("settings");
    reveal_strlit("auth");
    reveal_strlit("udp");
    reveal_strlit("accounts");
    reveal_strlit("user");
    reveal_strlit("pass");
    assert("inbounds"@ != "log"@ && "inbounds"@ != "api"@ && "inbounds"@ != "stats"@ && "inbounds"@ != "dns"@) by {
        assert("inbounds"@.len() != "log"@.len());
        assert("inbounds"@.len() != "api"@.len());
        assert("inbounds"@.len() != "stats"@.len());
        assert("inbounds"@.len() != "dns"@.len());
    }
    assert("settings"@ != "port"@ && "settings"@ != "listen"@ && "settings"@ != "protocol"@) by {
        assert("settings"@.len() != "port"@.len());
        assert("settings"@.len() != "listen"@.len());
        assert("settings"@[0] != "protocol"@[0]);
    }
    assert("udp"@ != "auth"@ && "accounts"@ != "auth"@ && "accounts"@ != "udp"@) by {
        assert("udp"@.len() != "auth"@.len());
        assert("accounts"@.len() != "auth"@.len());
        assert("accounts"@.len() != "udp"@.len());
    }
    assert("pass"@ != "user"@) by {
        assert("pass"@[0] != "user"@[0]);
    }
    if let Ok(o) = link_outbound_spec(link) {
        let ins = inbounds_spec(cfg);
        let fs = config_members(o, cfg);
        assert(crate::json::field_pos(fs, "inbounds"@, 3) == 3);
        assert(crate::json::field_pos(fs, "inbounds"@, 2) == 3);
        assert(crate::json::field_pos(fs, "inbounds"@, 1) == 3);
        assert(crate::json::field_pos(fs, "inbounds"@, 0) == 3);
        let doc0 = JsonV::Object(fs);
        assert(json_get(doc0, "inbounds"@) == Some(ins));
        if cfg.local_dns_enabled && dns_servers_spec(cfg).len() > 0 {
            crate::json::law_json_put_other(
                doc0,
                "dns"@,
                JsonV::Object(seq![("servers"@, string_array(dns_servers_spec(cfg)))]),
                "inbounds"@,
            );
        }
        let f0 = elements(ins)[0]->Object_0;
        assert(crate::json::field_pos(f0, "settings"@, 3) == 3);
        assert(crate::json::field_pos(f0, "settings"@, 2) == 3);
        assert(crate::json::field_pos(f0, "settings"@, 1) == 3);
        assert(crate::json::field_pos(f0, "settings"@, 0) == 3);
        let named = cfg.socks_username@.len() > 0;
        let base = JsonV::Object(
            seq![
                ("auth"@, JsonV::Str(if named { "password"@ } else { "noauth"@ })),
                ("udp"@, JsonV::Bool(cfg.socks_enable_udp)),
            ],
        );
        assert(crate::json::field_pos(base->Object_0, "auth"@, 0) == 0);
        assert(crate::json::field_pos(base->Object_0, "udp"@, 1) == 1);
        assert(crate::json::field_pos(base->Object_0, "udp"@, 0) == 1);
        assert(crate::json::field_pos(base->Object_0, "accounts"@, 2) == -1);
        assert(crate::json::field_pos(base->Object_0, "accounts"@, 1) == -1);
        assert(crate::json::field_pos(base->Object_0, "accounts"@, 0) == -1);
        if named {
            let acct = JsonV::Object(
                seq![
                    ("user"@, JsonV::Str(cfg.socks_username@)),
                    ("pass"@, JsonV::Str(cfg.socks_password@)),
                ],
            );
            let accounts = JsonV::Array(seq![acct]);
            crate::json::law_json_put_get(base, "accounts"@, accounts);
            crate::json::law_json_put_other(base, "accounts"@, accounts, "auth"@);
            crate::json::law_json_put_other(base, "accounts"@, accounts, "udp"@);
            assert(crate::json::field_pos(acct->Object_0, "user"@, 0) == 0);
            assert(crate::json::field_pos(acct->Object_0, "pass"@, 1) == 1);
            assert(crate::json::field_pos(acct->Object_0, "pass"@, 0) == 1);
            assert(socks_settings_spec(cfg) == json_put(base, "accounts"@, accounts));
        } else {
            assert(socks_settings_spec(cfg) == base);
        }
    }
}

/// The first user of the first server of an outbound.
pub open spec fn first_user(o: JsonV) -> JsonV {
    let vnext = elements(json_index(json_index(o, "settings"@), "vnext"@));
    elements(json_index(vnext[0], "users"@))[0]
}

/// The flow of a VLESS link's user is the link's first non-empty `flow`
/// query value, empty when there is none.
pub proof fn law_vless_flow_from_link(link: Seq<char>)
    ensures
        vless_link_spec(link) matches Ok(o) ==> json_get(first_user(o), "flow"@) == Some(
            JsonV::Str(or_default(first_nonempty(url_parse(link)->Ok_0.query_pairs, seq!["flow"@]), Seq::empty())),
        ),
{
    reveal_strlit("protocol");
    reveal_strlit("settings");
    reveal_strlit("vnext");
    reveal_strlit("address");
    reveal_strlit("port");
    reveal_strlit("users");
    reveal_strlit("id");
    reveal_strlit("encryption");
    reveal_strlit("flow");
    assert("settings"@ != "protocol"@) by {
        assert("settings"@[0] != "protocol"@[0]);
    }
    assert("users"@ != "address"@ && "users"@ != "port"@) by {
        assert("users"@.len() != "address"@.len());
        assert("users"@.len() != "port"@.len());
    }
    assert("flow"@ != "id"@ && "flow"@ != "encryption"@) by {
        assert("flow"@.len() != "id"@.len());
        assert("flow"@.len() != "encryption"@.len());
    }
    if let Ok(u) = url_parse(link) {
        if let Ok(o) = vless_outbound_spec(u) {
            let server = u.host->0;
            let p = vless_params(u, server);
            let fs = o->Object_0;
            assert(crate::json::field_pos(fs, "settings"@, 1) == 1);
            assert(crate::json::field_pos(fs, "settings"@, 0) == 1);
            let st = json_index(o, "settings"@);
            assert(crate::json::field_pos(st->Object_0, "vnext"@, 0) == 0);
            let v0 = elements(json_index(st, "vnext"@))[0];
            assert(crate::json::field_pos(v0->Object_0, "users"@, 2) == 2);
            assert(crate::json::field_pos(v0->Object_0, "users"@, 1) == 2);
            assert(crate::json::field_pos(v0->Object_0, "users"@, 0) == 2);
            let us = elements(json_index(v0, "users"@))[0];
            assert(crate::json::field_pos(us->Object_0, "flow"@, 2) == 2);
            assert(crate::json::field_pos(us->Object_0, "flow"@, 1) == 2);
            assert(crate::json::field_pos(us->Object_0, "flow"@, 0) == 2);
            assert(p.flow == or_default(first_nonempty(u.query_pairs, seq!["flow"@]), Seq::empty()));
        }
    }
}

/// The WebSocket path of a VMess outbound is the description's `path`
/// member, empty when it has none, whenever its network is WebSocket.
pub proof fn law_vmess_ws_path_from_description(v: JsonV)
    ensures
        (vmess_outbound_spec(v) is Ok && normalized_network(
            or_default(json_as_str(json_index(v, "net"@)), "tcp"@),
        ) == "websocket"@) ==> json_get(
            json_index(json_index(vmess_outbound_spec(v)->Ok_0, "streamSettings"@), "wsSettings"@),
            "path"@,
        ) == Some(JsonV::Str(or_default(json_as_str(json_index(v, "path"@)), Seq::empty()))),
{
    reveal_strlit("protocol");
    reveal_strlit("settings");
    reveal_strlit("streamSettings");
    reveal_strlit("path");
    assert("streamSettings"@ != "protocol"@ && "streamSettings"@ != "settings"@) by {
        assert("streamSettings"@.len() != "protocol"@.len());
        assert("streamSettings"@.len() != "settings"@.len());
    }
    if let Ok(o) = vmess_outbound_spec(v) {
        if normalized_network(or_default(json_as_str(json_index(v, "net"@)), "tcp"@)) == "websocket"@ {
            let fs = o->Object_0;
            assert(crate::json::field_pos(fs, "streamSettings"@, 2) == 2);
            assert(crate::json::field_pos(fs, "streamSettings"@, 1) == 2);
            assert(crate::json::field_pos(fs, "streamSettings"@, 0) == 2);
            let server = json_as_str(json_index(v, "add"@))->0;
            let p = VmessParams {
                server: server,
                port: vmess_port(v),
                uuid: json_as_str(json_index(v, "id"@))->0,
                network: normalized_network(str_member_or(v, "net"@, "tcp"@)),
                path: str_member_or(v, "path"@, Seq::empty()),
                host: str_member_or(v, "host"@, Seq::empty()),
                sni: str_member_or(v, "sni"@, server),
                tls: str_member_or(v, "tls"@, "none"@),
            };
            assert(o == vmess_doc(p));
            let security = if p.tls.len() == 0 {
                "none"@
            } else {
                p.tls
            };
            let base = JsonV::Object(
                seq![("network"@, JsonV::Str(p.network)), ("security"@, JsonV::Str(security))],
            );
            let secured = if p.tls == "tls"@ {
                json_put(
                    base,
                    "tlsSettings"@,
                    JsonV::Object(
                        seq![("serverName"@, JsonV::Str(p.sni)), ("allowInsecure"@, JsonV::Bool(false))],
                    ),
                )
            } else {
                base
            };
            let host = if p.host.len() == 0 {
                p.sni
            } else {
                p.host
            };
            let ws = JsonV::Object(
                seq![
                    ("path"@, JsonV::Str(p.path)),
                    ("headers"@, JsonV::Object(seq![("Host"@, JsonV::Str(host))])),
                ],
            );
            crate::json::law_json_put_get(secured, "wsSettings"@, ws);
            assert(crate::json::field_pos(ws->Object_0, "path"@, 0) == 0);
        }
    }
}

/// The first server of an outbound.
pub open spec fn first_server(o: JsonV) -> JsonV {
    elements(json_index(json_index(o, "settings"@), "vnext"@))[0]
}

/// A VLESS link's outbound connects to the link's host, at its port or 443,
/// as the link's user, without encryption.
pub proof fn law_vless_server_and_user_from_link(link: Seq<char>)
    ensures
        vless_link_spec(link) is Ok ==> {
            let u = url_parse(link)->Ok_0;
            let o = vless_link_spec(link)->Ok_0;
            &&& json_get(o, "protocol"@) == Some(JsonV::Str("vless"@))
            &&& json_get(first_server(o), "address"@) == Some(JsonV::Str(u.host->0))
            &&& json_get(first_server(o), "port"@) == Some(
                JsonV::Int(
                    match u.port {
                        Some(p) => p as int,
                        None => 443,
                    },
                ),
            )
            &&& json_get(first_user(o), "id"@) == Some(JsonV::Str(u.username))
            &&& json_get(first_user(o), "encryption"@) == Some(JsonV::Str("none"@))
        },
{
    reveal_strlit("protocol");
    reveal_strlit("settings");
    reveal_strlit("vnext");
    reveal_strlit("address");
    reveal_strlit("port");
    reveal_strlit("users");
    reveal_strlit("id");
    reveal_strlit("encryption");
    assert("settings"@ != "protocol"@) by {
        assert("settings"@[0] != "protocol"@[0]);
    }
    assert("users"@ != "address"@ && "users"@ != "port"@ && "port"@ != "address"@) by {
        assert("users"@.len() != "address"@.len());
        assert("users"@.len() != "port"@.len());
        assert("port"@.len() != "address"@.len());
    }
    assert("encryption"@ != "id"@) by {
        assert("encryption"@.len() != "id"@.len());
    }
    if let Ok(u) = url_parse(link) {
        if let Ok(o) = vless_outbound_spec(u) {
            let fs = o->Object_0;
            assert(crate::json::field_pos(fs, "protocol"@, 0) == 0);
            assert(crate::json::field_pos(fs, "settings"@, 1) == 1);
            assert(crate::json::field_pos(fs, "settings"@, 0) == 1);
            let st = json_index(o, "settings"@);
            assert(crate::json::field_pos(st->Object_0, "vnext"@, 0) == 0);
            let v0 = first_server(o);
            assert(crate::json::field_pos(v0->Object_0, "address"@, 0) == 0);
            assert(crate::json::field_pos(v0->Object_0, "port"@, 1) == 1);
            assert(crate::json::field_pos(v0->Object_0, "port"@, 0) == 1);
            assert(crate::json::field_pos(v0->Object_0, "users"@, 2) == 2);
            assert(crate::json::field_pos(v0->Object_0, "users"@, 1) == 2);
            assert(crate::json::field_pos(v0->Object_0, "users"@, 0) == 2);
            let us = first_user(o);
            assert(crate::json::field_pos(us->Object_0, "id"@, 0) == 0);
            assert(crate::json::field_pos(us->Object_0, "encryption"@, 1) == 1);
            assert(crate::json::field_pos(us->Object_0, "encryption"@, 0) == 1);
        }
    }
}

/// A VMess description's outbound connects to its `add` address as its `id`
/// user, with automatic security.
pub proof fn law_vmess_server_and_user_from_description(v: JsonV)
    ensures
        vmess_outbound_spec(v) is Ok ==> {
            let o = vmess_outbound_spec(v)->Ok_0;
            &&& json_as_str(json_index(v, "add"@)) is Some
            &&& json_as_str(json_index(v, "id"@)) is Some
            &&& json_get(o, "protocol"@) == Some(JsonV::Str("vmess"@))
            &&& json_get(first_server(o), "address"@) == Some(JsonV::Str(json_as_str(json_index(v, "add"@))->0))
            &&& json_get(first_user(o), "id"@) == Some(JsonV::Str(json_as_str(json_index(v, "id"@))->0))
            &&& json_get(first_user(o), "security"@) == Some(JsonV::Str("auto"@))
        },
{
    reveal_strlit("protocol");
    reveal_strlit("settings");
    reveal_strlit("vnext");
    reveal_strlit("address");
    reveal_strlit("port");
    reveal_strlit("users");
    reveal_strlit("id");
    reveal_strlit("security");
    assert("settings"@ != "protocol"@) by {
        assert("settings"@[0] != "protocol"@[0]);
    }
    assert("users"@ != "address"@ && "users"@ != "port"@) by {
        assert("users"@.len() != "address"@.len());
        assert("users"@.len() != "port"@.len());
    }
    assert("security"@ != "id"@) by {
        assert("security"@.len() != "id"@.len());
    }
    if let Ok(o) = vmess_outbound_spec(v) {
        let fs = o->Object_0;
        assert(crate::json::field_pos(fs, "protocol"@, 0) == 0);
        assert(crate::json::field_pos(fs, "settings"@, 1) == 1);
        assert(crate::json::field_pos(fs, "settings"@, 0) == 1);
        let st = json_index(o, "settings"@);
        assert(crate::json::field_pos(st->Object_0, "vnext"@, 0) == 0);
        let v0 = first_server(o);
        assert(crate::json::field_pos(v0->Object_0, "address"@, 0) == 0);
        assert(crate::json::field_pos(v0->Object_0, "users"@, 2) == 2);
        assert(crate::json::field_pos(v0->Object_0, "users"@, 1) == 2);
        assert(crate::json::field_pos(v0->Object_0, "users"@, 0) == 2);
        let us = first_user(o);
        assert(crate::json::field_pos(us->Object_0, "id"@, 0) == 0);
        assert(crate::json::field_pos(us->Object_0, "security"@, 1) == 1);
        assert(crate::json::field_pos(us->Object_0, "security"@, 0) == 1);
    }
}

/// The server name that a parsed VLESS link asks TLS or REALITY to present:
/// its first non-empty `sni` or `peer`, else its `host` parameter, else the
/// link's host.
pub open spec fn vless_server_name(u: UrlPartsV) -> Seq<char> {
    match first_nonempty(u.query_pairs, seq!["sni"@, "peer"@]) {
        Some(v) => v,
        None => or_default(first_nonempty(u.query_pairs, seq!["host"@]), u.host->0),
    }
}

/// The security of a VLESS outbound is the link's `security` parameter in
/// lower case (`none` when absent). Under REALITY its settings carry the
/// link's public key, short id and server name; under TLS its settings carry
/// the server name.
pub proof fn law_vless_security_from_link(link: Seq<char>)
    ensures
        vless_link_spec(link) is Ok ==> {
            let u = url_parse(link)->Ok_0;
            let q = u.query_pairs;
            let sec = lowercased(or_default(first_nonempty(q, seq!["security"@]), "none"@));
            let ss = json_index(vless_link_spec(link)->Ok_0, "streamSettings"@);
            let rs = json_index(ss, "realitySettings"@);
            &&& json_get(ss, "security"@) == Some(JsonV::Str(sec))
            &&& sec == "reality"@ ==> {
                &&& json_get(rs, "password"@) == Some(
                    JsonV::Str(
                        or_default(first_nonempty(q, seq!["pbk"@, "publicKey"@, "password"@]), Seq::empty()),
                    ),
                )
                &&& json_get(rs, "shortId"@) == Some(
                    JsonV::Str(or_default(first_nonempty(q, seq!["sid"@, "shortId"@]), Seq::empty())),
                )
                &&& json_get(rs, "serverName"@) == Some(JsonV::Str(vless_server_name(u)))
            }
            &&& sec == "tls"@ ==> json_get(json_index(ss, "tlsSettings"@), "serverName"@) == Some(
                JsonV::Str(vless_server_name(u)),
            )
        },
{
    reveal_strlit("protocol");
    reveal_strlit("settings");
    reveal_strlit("streamSettings");
    reveal_strlit("network");
    reveal_strlit("security");
    reveal_strlit("realitySettings");
    reveal_strlit("tlsSettings");
    reveal_strlit("wsSettings");
    reveal_strlit("grpcSettings");
    reveal_strlit("show");
    reveal_strlit("fingerprint");
    reveal_strlit("serverName");
    reveal_strlit("password");
    reveal_strlit("shortId");
    reveal_strlit("tls");
    reveal_strlit("reality");
    assert("tls"@ != "reality"@) by {
        assert("tls"@.len() != "reality"@.len());
    }
    assert("streamSettings"@ != "protocol"@ && "streamSettings"@ != "settings"@) by {
        assert("streamSettings"@.len() != "protocol"@.len());
        assert("streamSettings"@.len() != "settings"@.len());
    }
    assert("security"@ != "network"@) by {
        assert("security"@.len() != "network"@.len());
    }
    assert("wsSettings"@ != "realitySettings"@ && "grpcSettings"@ != "realitySettings"@ && "wsSettings"@
        != "tlsSettings"@ && "grpcSettings"@ != "tlsSettings"@ && "wsSettings"@ != "security"@
        && "grpcSettings"@ != "security"@ && "realitySettings"@ != "security"@ && "tlsSettings"@
        != "security"@) by {
        assert("wsSettings"@.len() != "realitySettings"@.len());
        assert("grpcSettings"@.len() != "realitySettings"@.len());
        assert("wsSettings"@.len() != "tlsSettings"@.len());
        assert("grpcSettings"@.len() != "tlsSettings"@.len());
        assert("wsSettings"@.len() != "security"@.len());
        assert("grpcSettings"@.len() != "security"@.len());
        assert("realitySettings"@.len() != "security"@.len());
        assert("tlsSettings"@.len() != "security"@.len());
    }
    assert("password"@ != "show"@ && "password"@ != "fingerprint"@ && "password"@ != "serverName"@) by {
        assert("password"@.len() != "show"@.len());
        assert("password"@.len() != "fingerprint"@.len());
        assert("password"@.len() != "serverName"@.len());
    }
    assert("shortId"@ != "show"@ && "shortId"@ != "fingerprint"@ && "shortId"@ != "serverName"@
        && "shortId"@ != "password"@) by {
        assert("shortId"@.len() != "show"@.len());
        assert("shortId"@.len() != "fingerprint"@.len());
        assert("shortId"@.len() != "serverName"@.len());
        assert("shortId"@.len() != "password"@.len());
    }
    assert("serverName"@ != "show"@ && "serverName"@ != "fingerprint"@) by {
        assert("serverName"@.len() != "show"@.len());
        assert("serverName"@.len() != "fingerprint"@.len());
    }
    if let Ok(u) = url_parse(link) {
        if let Ok(o) = vless_outbound_spec(u) {
            let server = u.host->0;
            let p = vless_params(u, server);
            assert(p.sni == vless_server_name(u));
            let fs = o->Object_0;
            assert(crate::json::field_pos(fs, "streamSettings"@, 2) == 2);
            assert(crate::json::field_pos(fs, "streamSettings"@, 1) == 2);
            assert(crate::json::field_pos(fs, "streamSettings"@, 0) == 2);
            let base = JsonV::Object(
                seq![("network"@, JsonV::Str(p.network)), ("security"@, JsonV::Str(p.security))],
            );
            assert(crate::json::field_pos(base->Object_0, "security"@, 1) == 1);
            assert(crate::json::field_pos(base->Object_0, "security"@, 0) == 1);
            let rs = JsonV::Object(
                seq![
                    ("show"@, JsonV::Bool(false)),
                    ("fingerprint"@, JsonV::Str(p.fingerprint)),
                    ("serverName"@, JsonV::Str(p.sni)),
                    ("password"@, JsonV::Str(p.public_key)),
                    ("shortId"@, JsonV::Str(p.short_id)),
                    ("spiderX"@, JsonV::Str(p.spider_x)),
                ],
            );
            let ts = JsonV::Object(
                seq![
                    ("serverName"@, JsonV::Str(p.sni)),
                    ("allowInsecure"@, JsonV::Bool(false)),
                    ("fingerprint"@, JsonV::Str(p.fingerprint)),
                ],
            );
            let secured = if p.security == "reality"@ {
                json_put(base, "realitySettings"@, rs)
            } else if p.security == "tls"@ {
                json_put(base, "tlsSettings"@, ts)
            } else {
                base
            };
            if p.security == "reality"@ {
                crate::json::law_json_put_get(base, "realitySettings"@, rs);
                crate::json::law_json_put_other(base, "realitySettings"@, rs, "security"@);
                assert(crate::json::field_pos(rs->Object_0, "serverName"@, 2) == 2);
                assert(crate::json::field_pos(rs->Object_0, "serverName"@, 1) == 2);
                assert(crate::json::field_pos(rs->Object_0, "serverName"@, 0) == 2);
                assert(crate::json::field_pos(rs->Object_0, "password"@, 3) == 3);
                assert(crate::json::field_pos(rs->Object_0, "password"@, 2) == 3);
                assert(crate::json::field_pos(rs->Object_0, "password"@, 1) == 3);
                assert(crate::json::field_pos(rs->Object_0, "password"@, 0) == 3);
                assert(crate::json::field_pos(rs->Object_0, "shortId"@, 4) == 4);
                assert(crate::json::field_pos(rs->Object_0, "shortId"@, 3) == 4);
                assert(crate::json::field_pos(rs->Object_0, "shortId"@, 2) == 4);
                assert(crate::json::field_pos(rs->Object_0, "shortId"@, 1) == 4);
                assert(crate::json::field_pos(rs->Object_0, "shortId"@, 0) == 4);
            } else if p.security == "tls"@ {
                crate::json::law_json_put_get(base, "tlsSettings"@, ts);
                crate::json::law_json_put_other(base, "tlsSettings"@, ts, "security"@);
                assert(crate::json::field_pos(ts->Object_0, "serverName"@, 0) == 0);
            }
            assert(secured is Object);
            if p.network == "websocket"@ {
                let ws = JsonV::Object(
                    seq![
                        ("path"@, JsonV::Str(p.path)),
                        ("headers"@, JsonV::Object(seq![("Host"@, JsonV::Str(p.host))])),
                    ],
                );
                crate::json::law_json_put_other(secured, "wsSettings"@, ws, "security"@);
                crate::json::law_json_put_other(secured, "wsSettings"@, ws, "realitySettings"@);
                crate::json::law_json_put_other(secured, "wsSettings"@, ws, "tlsSettings"@);
            } else if p.network == "grpc"@ {
                let gs = JsonV::Object(seq![("serviceName"@, JsonV::Str(p.service_name))]);
                crate::json::law_json_put_other(secured, "grpcSettings"@, gs, "security"@);
                crate::json::law_json_put_other(secured, "grpcSettings"@, gs, "realitySettings"@);
                crate::json::law_json_put_other(secured, "grpcSettings"@, gs, "tlsSettings"@);
            }
            let stream = json_index(o, "streamSettings"@);
            assert(json_get(stream, "security"@) == json_get(secured, "security"@));
            assert(json_get(stream, "realitySettings"@) == json_get(secured, "realitySettings"@));
            assert(json_get(stream, "tlsSettings"@) == json_get(secured, "tlsSettings"@));
            assert(json_get(secured, "security"@) == Some(JsonV::Str(p.security)));
            assert(vless_link_spec(link) == Ok::<JsonV, Seq<char>>(o));
            let q = u.query_pairs;
            assert(p.security == lowercased(or_default(first_nonempty(q, seq!["security"@]), "none"@)));
            if p.security == "reality"@ {
                let r2 = json_index(stream, "realitySettings"@);
                assert(r2 == rs);
                assert(json_get(r2, "password"@) == Some(JsonV::Str(p.public_key)));
                assert(json_get(r2, "shortId"@) == Some(JsonV::Str(p.short_id)));
                assert(json_get(r2, "serverName"@) == Some(JsonV::Str(p.sni)));
            }
            if p.security == "tls"@ {
                assert(json_index(stream, "tlsSettings"@) == ts);
            }
        }
    }
}

/// The security of a VMess outbound is the description's `tls` member
/// (`none` when it is absent or empty); under TLS the server name is the
/// description's `sni`, else its `add` address. A WebSocket transport sends
/// the description's `host` as its Host header, else that same server name.
pub proof fn law_vmess_security_from_description(v: JsonV)
    ensures
        vmess_outbound_spec(v) is Ok ==> {
            let server = json_as_str(json_index(v, "add"@))->0;
            let tls = str_member_or(v, "tls"@, "none"@);
            let sni = str_member_or(v, "sni"@, server);
            let host = str_member_or(v, "host"@, Seq::empty());
            let ss = json_index(vmess_outbound_spec(v)->Ok_0, "streamSettings"@);
            &&& json_get(ss, "security"@) == Some(
                JsonV::Str(
                    if tls.len() == 0 {
                        "none"@
                    } else {
                        tls
                    },
                ),
            )
            &&& tls == "tls"@ ==> json_get(json_index(ss, "tlsSettings"@), "serverName"@) == Some(
                JsonV::Str(sni),
            )
            &&& normalized_network(str_member_or(v, "net"@, "tcp"@)) == "websocket"@ ==> json_get(
                json_index(json_index(ss, "wsSettings"@), "headers"@),
                "Host"@,
            ) == Some(
                JsonV::Str(
                    if host.len() == 0 {
                        sni
                    } else {
                        host
                    },
                ),
            )
        },
{
    reveal_strlit("protocol");
    reveal_strlit("settings");
    reveal_strlit("streamSettings");
    reveal_strlit("network");
    reveal_strlit("security");
    reveal_strlit("tlsSettings");
    reveal_strlit("wsSettings");
    reveal_strlit("serverName");
    reveal_strlit("path");
    reveal_strlit("headers");
    assert("streamSettings"@ != "protocol"@ && "streamSettings"@ != "settings"@) by {
        assert("streamSettings"@.len() != "protocol"@.len());
        assert("streamSettings"@.len() != "settings"@.len());
    }
    assert("security"@ != "network"@) by {
        assert("security"@.len() != "network"@.len());
    }
    assert("wsSettings"@ != "tlsSettings"@ && "wsSettings"@ != "security"@ && "tlsSettings"@ != "security"@)
        by {
        assert("wsSettings"@.len() != "tlsSettings"@.len());
        assert("wsSettings"@.len() != "security"@.len());
        assert("tlsSettings"@.len() != "security"@.len());
    }
    assert("headers"@ != "path"@) by {
        assert("headers"@.len() != "path"@.len());
    }
    if let Ok(o) = vmess_outbound_spec(v) {
        let server = json_as_str(json_index(v, "add"@))->0;
        let p = VmessParams {
            server: server,
            port: vmess_port(v),
            uuid: json_as_str(json_index(v, "id"@))->0,
            network: normalized_network(str_member_or(v, "net"@, "tcp"@)),
            path: str_member_or(v, "path"@, Seq::empty()),
            host: str_member_or(v, "host"@, Seq::empty()),
            sni: str_member_or(v, "sni"@, server),
            tls: str_member_or(v, "tls"@, "none"@),
        };
        assert(o == vmess_doc(p));
        let fs = o->Object_0;
        assert(crate::json::field_pos(fs, "streamSettings"@, 2) == 2);
        assert(crate::json::field_pos(fs, "streamSettings"@, 1) == 2);
        assert(crate::json::field_pos(fs, "streamSettings"@, 0) == 2);
        let security = if p.tls.len() == 0 {
            "none"@
        } else {
            p.tls
        };
        let base = JsonV::Object(
            seq![("network"@, JsonV::Str(p.network)), ("security"@, JsonV::Str(security))],
        );
        assert(crate::json::field_pos(base->Object_0, "security"@, 1) == 1);
        assert(crate::json::field_pos(base->Object_0, "security"@, 0) == 1);
        let ts = JsonV::Object(
            seq![("serverName"@, JsonV::Str(p.sni)), ("allowInsecure"@, JsonV::Bool(false))],
        );
        let secured = if p.tls == "tls"@ {
            json_put(base, "tlsSettings"@, ts)
        } else {
            base
        };
        if p.tls == "tls"@ {
            crate::json::law_json_put_get(base, "tlsSettings"@, ts);
            crate::json::law_json_put_other(base, "tlsSettings"@, ts, "security"@);
            assert(crate::json::field_pos(ts->Object_0, "serverName"@, 0) == 0);
        }
        assert(json_get(secured, "security"@) == Some(JsonV::Str(security)));
        let stream = json_index(o, "streamSettings"@);
        if p.network == "websocket"@ {
            let host = if p.host.len() == 0 {
                p.sni
            } else {
                p.host
            };
            let hs = JsonV::Object(seq![("Host"@, JsonV::Str(host))]);
            let ws = JsonV::Object(seq![("path"@, JsonV::Str(p.path)), ("headers"@, hs)]);
            crate::json::law_json_put_get(secured, "wsSettings"@, ws);
            crate::json::law_json_put_other(secured, "wsSettings"@, ws, "security"@);
            crate::json::law_json_put_other(secured, "wsSettings"@, ws, "tlsSettings"@);
            assert(crate::json::field_pos(ws->Object_0, "headers"@, 1) == 1);
            assert(crate::json::field_pos(ws->Object_0, "headers"@, 0) == 1);
            assert(crate::json::field_pos(hs->Object_0, "Host"@, 0) == 0);
            assert(json_index(stream, "wsSettings"@) == ws);
        }
        assert(json_get(stream, "security"@) == json_get(secured, "security"@));
        assert(json_get(stream, "tlsSettings"@) == json_get(secured, "tlsSettings"@));
    }
}

/// Every entry that a DNS list setting gives is non-empty.
proof fn lemma_nonempty_trimmed(pieces: Seq<Seq<char>>)
    ensures
        forall|i: int| 0 <= i < nonempty_trimmed(pieces).len() ==> (#[trigger] nonempty_trimmed(pieces)[i]).len()
            > 0,
    decreases pieces.len(),
{
    if pieces.len() > 0 {
        lemma_nonempty_trimmed(pieces.drop_last());
        let rest = nonempty_trimmed(pieces.drop_last());
        let t = trim(pieces.last());
        if t.len() > 0 {
            assert(nonempty_trimmed(pieces) == rest.push(t));
            assert forall|i: int| 0 <= i < nonempty_trimmed(pieces).len() implies (
            #[trigger] nonempty_trimmed(pieces)[i]).len() > 0 by {
                if i < rest.len() {
                    assert(nonempty_trimmed(pieces)[i] == rest[i]);
                }
            }
        } else {
            assert(nonempty_trimmed(pieces) == rest);
        }
    }
}

/// A generated configuration names DNS servers exactly when the settings
/// turn local DNS on and list at least one server, and then every server it
/// names is non-empty.
pub proof fn law_config_dns_servers(link: Seq<char>, cfg: AppConfig)
    ensures
        forall|i: int| 0 <= i < dns_servers_spec(cfg).len() ==> (#[trigger] dns_servers_spec(cfg)[i]).len() > 0,
        generate_xray_config_spec(link, cfg) is Ok ==> (json_get(generate_xray_config_spec(link, cfg)->Ok_0, "dns"@)
            is Some <==> cfg.local_dns_enabled && dns_servers_spec(cfg).len() > 0),
{
    lemma_nonempty_trimmed(split_on(cfg.remote_dns@, ','));
    lemma_nonempty_trimmed(split_on(cfg.domestic_dns@, ','));
    let a = nonempty_trimmed(split_on(cfg.remote_dns@, ','));
    let b = nonempty_trimmed(split_on(cfg.domestic_dns@, ','));
    assert forall|i: int| 0 <= i < dns_servers_spec(cfg).len() implies (#[trigger] dns_servers_spec(cfg)[i]).len()
        > 0 by {
        if i < a.len() {
            assert(dns_servers_spec(cfg)[i] == a[i]);
        } else {
            assert(dns_servers_spec(cfg)[i] == b[i - a.len()]);
        }
    }
    reveal_strlit("dns");
    reveal_strlit("log");
    reveal_strlit("api");
    reveal_strlit("stats");
    reveal_strlit("inbounds");
    reveal_strlit("policy");
    reveal_strlit("outbounds");
    assert("dns"@[0] != "log"@[0] && "dns"@[0] != "api"@[0]);
    assert("dns"@.len() != "stats"@.len() && "dns"@.len() != "inbounds"@.len() && "dns"@.len() != "policy"@.len()
        && "dns"@.len() != "outbounds"@.len());
    if let Ok(o) = link_outbound_spec(link) {
        let fs = config_members(o, cfg);
        assert(crate::json::field_pos(fs, "dns"@, 6) == -1);
        assert(crate::json::field_pos(fs, "dns"@, 5) == -1);
        assert(crate::json::field_pos(fs, "dns"@, 4) == -1);
        assert(crate::json::field_pos(fs, "dns"@, 3) == -1);
        assert(crate::json::field_pos(fs, "dns"@, 2) == -1);
        assert(crate::json::field_pos(fs, "dns"@, 1) == -1);
        assert(crate::json::field_pos(fs, "dns"@, 0) == -1);
        let base = JsonV::Object(fs);
        if cfg.local_dns_enabled && dns_servers_spec(cfg).len() > 0 {
            crate::json::law_json_put_get(
                base,
                "dns"@,
                JsonV::Object(seq![("servers"@, string_array(dns_servers_spec(cfg)))]),
            );
        }
    }
}

} // verus!
