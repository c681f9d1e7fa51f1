//! Proxy profiles made from the API's records, and the settings they go into.
use vstd::prelude::*;
use crate::json::{Json, JsonV, json_as_str, json_as_u64, json_as_i64};
use crate::text::{decimal, signed_decimal, parse_unsigned, has_prefix, starts_with, join, chars_of, parse_unsigned_chars, u64_to_string, i64_to_string, lowercased, to_lowercase, str_eq};
use crate::urls::{opt_view, url_parse, parse_url, percent_decoded, percent_decode};
use crate::api::{ApiVpnConfig, ApiVpnConfigV, ApiResponseProxy, ApiResponseProxyV};
use crate::config::{ProxyConfig, ProxyConfigV, AppConfig, profiles_view};
use crate::xray::or_default;

verus! {

/// The text of an id value: a non-empty string, else the decimal of an
/// integer.
pub open spec fn value_text(v: JsonV) -> Option<Seq<char>> {
    match json_as_str(v) {
        Some(s) if s.len() > 0 => Some(s),
        _ => match json_as_i64(v) {
            Some(n) => Some(signed_decimal(n)),
            None => match json_as_u64(v) {
                Some(n) => Some(decimal(n)),
                None => None,
            },
        },
    }
}

/// The text of a JSON id.
pub fn value_to_string(value: &Json) -> (r: Option<String>)
    ensures
        opt_view(r) == value_text(value@),
{
    match value.as_str() {
        Some(s) => {
            if s.as_str().unicode_len() > 0 {
                return Some(s);
            }
        },
        None => {},
    }
    match value.as_i64() {
        Some(n) => Some(i64_to_string(n)),
        None => match value.as_u64() {
            Some(n) => Some(u64_to_string(n)),
            None => None,
        },
    }
}

/// A port number value: an integer that fits 16 bits, or a decimal text of
/// one.
pub open spec fn value_port(v: JsonV) -> Option<u16> {
    let as_number = match json_as_u64(v) {
        Some(n) => if n <= 65535 {
            Some(n as u16)
        } else {
            None
        },
        None => None,
    };
    match as_number {
        Some(p) => Some(p),
        None => match json_as_str(v) {
            Some(t) => match parse_unsigned(t, 65535) {
                Some(n) => Some(n as u16),
                None => None,
            },
            None => None,
        },
    }
}

/// A port reads back from the JSON number or the decimal text that holds it.
pub proof fn law_port_value_roundtrip(p: u16)
    ensures
        value_port(JsonV::Int(p as int)) == Some(p),
        value_port(JsonV::Str(decimal(p as nat))) == Some(p),
{
    crate::text::law_decimal_parse_roundtrip(p as nat, 65535);
}

/// The port that a JSON value holds.
pub fn value_to_u16(value: &Json) -> (r: Option<u16>)
    ensures
        r == value_port(value@),
{
    match value.as_u64() {
        Some(n) => {
            if n <= 65535 {
                return Some(n as u16);
            }
        },
        None => {},
    }
    match value.as_str() {
        Some(t) => {
            let cs = chars_of(t.as_str());
            match parse_unsigned_chars(&cs, 65535) {
                Some(n) => Some(n as u16),
                None => None,
            }
        },
        None => None,
    }
}

/// The links that the application can connect with.
pub open spec fn supported_link(link: Seq<char>) -> bool {
    has_prefix(link, "vless://"@) || has_prefix(link, "vmess://"@)
}

/// Whether the application can connect with the link.
pub fn is_supported_link(link: &str) -> (r: bool)
    ensures
        r == supported_link(link@),
{
    starts_with(link, "vless://") || starts_with(link, "vmess://")
}

/// A VPN id with the `vpn_` prefix, added when missing.
pub open spec fn vpn_id_normalized(raw: Seq<char>) -> Seq<char> {
    if has_prefix(raw, "vpn_"@) {
        raw
    } else {
        "vpn_"@ + raw
    }
}

/// The VPN id with the `vpn_` prefix.
pub fn normalize_vpn_id(raw_id: &str) -> (r: String)
    ensures
        r@ == vpn_id_normalized(raw_id@),
{
    if starts_with(raw_id, "vpn_") {
        String::from_str(raw_id)
    } else {
        join("vpn_", raw_id)
    }
}

/// Normalizing a VPN id twice is normalizing it once, and the result always
/// carries the `vpn_` prefix.
pub proof fn law_normalize_vpn_id_idempotent(raw: Seq<char>)
    ensures
        has_prefix(vpn_id_normalized(raw), "vpn_"@),
        vpn_id_normalized(vpn_id_normalized(raw)) == vpn_id_normalized(raw),
{
    let p = "vpn_"@;
    if !has_prefix(raw, p) {
        assert((p + raw).take(p.len() as int) =~= p);
    }
}

/// The name that a link's fragment gives: percent-decoded, or as it stands
/// when the decoded bytes are not UTF-8.
pub open spec fn link_name(link: Seq<char>) -> Option<Seq<char>> {
    match url_parse(link) {
        Err(_) => None,
        Ok(u) => match u.fragment {
            None => None,
            Some(f) => Some(or_default(percent_decoded(f), f)),
        },
    }
}

/// The name that a link's fragment gives.
pub fn extract_vless_name(link: &str) -> (r: Option<String>)
    ensures
        opt_view(r) == link_name(link@),
{
    match parse_url(link) {
        Err(_) => None,
        Ok(u) => match u.fragment {
            None => None,
            Some(f) => match percent_decode(f.as_str()) {
                Some(d) => Some(d),
                None => Some(f),
            },
        },
    }
}


pub open spec fn opt_or(a: Option<Seq<char>>, b: Option<Seq<char>>) -> Option<Seq<char>> {
    match a {
        Some(x) => Some(x),
        None => b,
    }
}

/// The link of a VPN configuration: `link`, else `config`, else
/// `connection_string`, else empty.
pub open spec fn vpn_link(vpn: ApiVpnConfigV) -> Seq<char> {
    or_default(opt_or(vpn.link, opt_or(vpn.config, vpn.connection_string)), Seq::empty())
}

/// The profile for a VPN configuration, when its link is supported: the
/// server and port of the link (else of the record, else `VPN` and 443), the
/// protocol of the link, the record's id (else `vpn_id`, else `id_hint`) with
/// the `vpn_` prefix, and the link's name (else `name_hint`, else `VPN` and
/// the server).
pub open spec fn vpn_profile(
    id_hint: Seq<char>,
    name_hint: Option<Seq<char>>,
    vpn: ApiVpnConfigV,
) -> Option<ProxyConfigV> {
    let link = vpn_link(vpn);
    if !supported_link(link) {
        None
    } else {
        let parsed = url_parse(link);
        let url_host = match parsed {
            Ok(u) => u.host,
            Err(_) => None,
        };
        let url_port = match parsed {
            Ok(u) => u.port,
            Err(_) => None,
        };
        let server = or_default(opt_or(url_host, vpn.host), "VPN"@);
        let port: u16 = match url_port {
            Some(p) => p,
            None => match vpn.port {
                Some(pv) => match value_port(pv) {
                    Some(p) => p,
                    None => 443,
                },
                None => 443,
            },
        };
        let vpn_id = match value_text(vpn.id) {
            Some(t) => t,
            None => match vpn.vpn_id {
                Some(x) => or_default(value_text(x), id_hint),
                None => id_hint,
            },
        };
        let name = match link_name(link) {
            Some(n) => n,
            None => match name_hint {
                Some(h) => h,
                None => "VPN "@ + server,
            },
        };
        Some(
            ProxyConfigV {
                id: vpn_id_normalized(vpn_id),
                name: name,
                server: server,
                port: port,
                protocol: if has_prefix(link, "vless://"@) {
                    "vless"@
                } else {
                    "vmess"@
                },
                link: Some(link),
            },
        )
    }
}

fn first_text(a: &Option<String>, b: &Option<String>) -> (r: Option<String>)
    ensures
        opt_view(r) == opt_or(opt_view(*a), opt_view(*b)),
{
    match a {
        Some(x) => Some(x.clone()),
        None => match b {
            Some(y) => Some(y.clone()),
            None => None,
        },
    }
}

fn text_or(o: Option<String>, d: &str) -> (r: String)
    ensures
        r@ == or_default(opt_view(o), d@),
{
    match o {
        Some(v) => v,
        None => String::from_str(d),
    }
}

/// A VPN configuration gives a profile exactly when its link (`link`, else
/// `config`, else `connection_string`) is a VLESS or VMess link. The profile
/// keeps that link; connects where the link says (else where the record
/// says); takes its name from the link, else from the caller's hint, else
/// `VPN <server>`; and its id is the record's id with the `vpn_` prefix
/// (the caller's hint when the record has none).
pub proof fn law_vpn_profile(id_hint: Seq<char>, name_hint: Option<Seq<char>>, vpn: ApiVpnConfigV)
    ensures
        vpn.link matches Some(l) ==> vpn_link(vpn) == l,
        (vpn_profile(id_hint, name_hint, vpn) is Some) == supported_link(vpn_link(vpn)),
        vpn_profile(id_hint, name_hint, vpn) matches Some(p) ==> {
            let link = vpn_link(vpn);
            let u = url_parse(link)->Ok_0;
            &&& p.link == Some(link)
            &&& p.protocol == (if has_prefix(link, "vless://"@) {
                "vless"@
            } else {
                "vmess"@
            })
            &&& has_prefix(p.id, "vpn_"@)
            &&& (value_text(vpn.id) matches Some(t) ==> p.id == vpn_id_normalized(t))
            &&& (value_text(vpn.id) is None && vpn.vpn_id is None ==> p.id == vpn_id_normalized(id_hint))
            &&& (url_parse(link) is Ok && u.host is Some ==> p.server == u.host->0)
            &&& (url_parse(link) is Ok && u.port is Some ==> p.port == u.port->0)
            &&& (link_name(link) matches Some(n) ==> p.name == n)
            &&& (link_name(link) is None && name_hint is Some ==> p.name == name_hint->0)
            &&& (link_name(link) is None && name_hint is None ==> p.name == "VPN "@ + p.server)
        },
{
    if let Some(p) = vpn_profile(id_hint, name_hint, vpn) {
        let vpn_id = match value_text(vpn.id) {
            Some(t) => t,
            None => match vpn.vpn_id {
                Some(x) => or_default(value_text(x), id_hint),
                None => id_hint,
            },
        };
        law_normalize_vpn_id_idempotent(vpn_id);
    }
}

/// The profile for a VPN configuration, when its link is supported.
pub fn proxy_from_vpn_config(id_hint: &str, name_hint: Option<&str>, vpn: &ApiVpnConfig) -> (r:
    Option<ProxyConfig>)
    ensures
        match r {
            Some(p) => vpn_profile(id_hint@, opt_str_view(name_hint), vpn@) == Some(p@),
            None => vpn_profile(id_hint@, opt_str_view(name_hint), vpn@) is None,
        },
{
    proof {
        reveal_strlit("");
    }
    let rest = first_text(&vpn.config, &vpn.connection_string);
    let link = text_or(first_text(&vpn.link, &rest), "");
    assert(""@ =~= Seq::<char>::empty());
    assert(link@ == vpn_link(vpn@));
    if !is_supported_link(link.as_str()) {
        return None;
    }
    let (url_host, url_port) = match parse_url(link.as_str()) {
        Ok(u) => (u.host, u.port),
        Err(_) => (None, None),
    };
    let server = text_or(first_text(&url_host, &vpn.host), "VPN");
    let port: u16 = match url_port {
        Some(p) => p,
        None => match &vpn.port {
            Some(pv) => match value_to_u16(pv) {
                Some(p) => p,
                None => 443,
            },
            None => 443,
        },
    };
    let vpn_id = match value_to_string(&vpn.id) {
        Some(t) => t,
        None => match &vpn.vpn_id {
            Some(x) => match value_to_string(x) {
                Some(t) => t,
                None => String::from_str(id_hint),
            },
            None => String::from_str(id_hint),
        },
    };
    let name = match extract_vless_name(link.as_str()) {
        Some(n) => n,
        None => match name_hint {
            Some(h) => String::from_str(h),
            None => join("VPN ", server.as_str()),
        },
    };
    let protocol = if starts_with(link.as_str(), "vless://") {
        String::from_str("vless")
    } else {
        String::from_str("vmess")
    };
    Some(
        ProxyConfig {
            id: normalize_vpn_id(vpn_id.as_str()),
            name,
            server,
            port,
            protocol,
            link: Some(link),
        },
    )
}

pub open spec fn opt_str_view(o: Option<&str>) -> Option<Seq<char>> {
    match o {
        Some(s) => Some(s@),
        None => None,
    }
}


/// What to do with a proxy that the API lists.
pub enum ProxyPlan {
    /// The proxy has a supported link: this is its profile.
    Ready(ProxyConfig),
    /// The proxy is a VPN without a usable link: its configuration must be
    /// fetched by id, and named after the given hint when it has no name.
    FetchVpnConfig { id: String, name_hint: Option<String> },
    /// The proxy cannot be used.
    Skip,
}

pub ghost enum ProxyPlanV {
    Ready(ProxyConfigV),
    FetchVpnConfig { id: Seq<char>, name_hint: Option<Seq<char>> },
    Skip,
}

impl View for ProxyPlan {
    type V = ProxyPlanV;

    open spec fn view(&self) -> ProxyPlanV {
        match self {
            ProxyPlan::Ready(p) => ProxyPlanV::Ready(p@),
            ProxyPlan::FetchVpnConfig { id, name_hint } => ProxyPlanV::FetchVpnConfig {
                id: id@,
                name_hint: opt_view(*name_hint),
            },
            ProxyPlan::Skip => ProxyPlanV::Skip,
        }
    }
}

/// The link of a listed proxy: `link`, else `connection_string`, else empty.
pub open spec fn proxy_link(ap: ApiResponseProxyV) -> Seq<char> {
    or_default(opt_or(ap.link, ap.connection_string), Seq::empty())
}

/// The plan for a listed proxy. With a supported link it is ready: its id,
/// the server (`ip`, else `domain`, else empty), the port (0 when unreadable),
/// the link's name (else `name`, else `remarks`, else `Proxy <id>` or
/// `Server <server>`). Without one, a proxy whose protocol is `vpn` in any
/// case or whose id starts with `vpn_` needs its VPN configuration; any other
/// is skipped.
pub open spec fn proxy_plan(ap: ApiResponseProxyV) -> ProxyPlanV {
    let link = proxy_link(ap);
    if !supported_link(link) {
        if lowercased(or_default(ap.protocol, Seq::empty())) == "vpn"@ || has_prefix(ap.id, "vpn_"@) {
            ProxyPlanV::FetchVpnConfig { id: ap.id, name_hint: opt_or(ap.ip, ap.domain) }
        } else {
            ProxyPlanV::Skip
        }
    } else {
        let server = or_default(opt_or(ap.ip, ap.domain), Seq::empty());
        let name = match link_name(link) {
            Some(n) => n,
            None => match opt_or(ap.name, ap.remarks) {
                Some(n) => n,
                None => if server.len() == 0 {
                    "Proxy "@ + ap.id
                } else {
                    "Server "@ + server
                },
            },
        };
        ProxyPlanV::Ready(
            ProxyConfigV {
                id: ap.id,
                name: name,
                server: server,
                port: match value_port(ap.port) {
                    Some(p) => p,
                    None => 0,
                },
                protocol: if has_prefix(link, "vless://"@) {
                    "vless"@
                } else {
                    "vmess"@
                },
                link: Some(link),
            },
        )
    }
}

/// A ready listed proxy keeps its id and link, is served at its `ip`, else
/// its `domain`, else nowhere named, on the port its `port` holds (0 when
/// none can be read), with the protocol its link's scheme names.
pub proof fn law_ready_proxy_endpoint(ap: ApiResponseProxyV)
    ensures
        supported_link(proxy_link(ap)) && ap.ip is Some ==> proxy_plan(ap)->Ready_0.server == ap.ip->0,
        supported_link(proxy_link(ap)) && ap.ip is None && ap.domain is Some ==> proxy_plan(ap)->Ready_0.server
            == ap.domain->0,
        supported_link(proxy_link(ap)) && ap.ip is None && ap.domain is None ==> proxy_plan(ap)->Ready_0.server
            == Seq::<char>::empty(),
        supported_link(proxy_link(ap)) && value_port(ap.port) is Some ==> proxy_plan(ap)->Ready_0.port
            == value_port(ap.port)->0,
        supported_link(proxy_link(ap)) && value_port(ap.port) is None ==> proxy_plan(ap)->Ready_0.port == 0,
        supported_link(proxy_link(ap)) && has_prefix(proxy_link(ap), "vless://"@) ==> proxy_plan(
            ap,
        )->Ready_0.protocol == "vless"@,
        supported_link(proxy_link(ap)) && !has_prefix(proxy_link(ap), "vless://"@) ==> proxy_plan(
            ap,
        )->Ready_0.protocol == "vmess"@,
{
}

/// A listed proxy with a supported link is ready under the name its link
/// gives; without one, under the proxy's `name`, else its `remarks`, else
/// `Proxy <id>` when it has no server and `Server <server>` when it has one.
pub proof fn law_ready_proxy_name(ap: ApiResponseProxyV)
    ensures
        supported_link(proxy_link(ap)) ==> proxy_plan(ap) is Ready,
        supported_link(proxy_link(ap)) && link_name(proxy_link(ap)) is Some ==> proxy_plan(ap)->Ready_0.name
            == link_name(proxy_link(ap))->0,
        supported_link(proxy_link(ap)) && link_name(proxy_link(ap)) is None && ap.name is Some
            ==> proxy_plan(ap)->Ready_0.name == ap.name->0,
        supported_link(proxy_link(ap)) && link_name(proxy_link(ap)) is None && ap.name is None
            && ap.remarks is Some ==> proxy_plan(ap)->Ready_0.name == ap.remarks->0,
        supported_link(proxy_link(ap)) && link_name(proxy_link(ap)) is None && ap.name is None
            && ap.remarks is None && ap.ip is None && ap.domain is None ==> proxy_plan(ap)->Ready_0.name
            == "Proxy "@ + ap.id,
        supported_link(proxy_link(ap)) && link_name(proxy_link(ap)) is None && ap.name is None
            && ap.remarks is None && ap.ip is Some && ap.ip->0.len() > 0 ==> proxy_plan(ap)->Ready_0.name
            == "Server "@ + ap.ip->0,
        supported_link(proxy_link(ap)) ==> proxy_plan(ap)->Ready_0.id == ap.id && proxy_plan(ap)->Ready_0.link
            == Some(proxy_link(ap)),
{
}

/// What to do with a proxy that the API lists.
pub fn plan_api_proxy(ap: &ApiResponseProxy) -> (r: ProxyPlan)
    ensures
        r@ == proxy_plan(ap@),
{
    proof {
        reveal_strlit("");
    }
    assert(""@ =~= Seq::<char>::empty());
    let link = text_or(first_text(&ap.link, &ap.connection_string), "");
    if !is_supported_link(link.as_str()) {
        let protocol = text_or(first_text(&ap.protocol, &None), "");
        let lower = to_lowercase(protocol.as_str());
        if str_eq(lower.as_str(), "vpn") || starts_with(ap.id.as_str(), "vpn_") {
            return ProxyPlan::FetchVpnConfig {
                id: ap.id.clone(),
                name_hint: first_text(&ap.ip, &ap.domain),
            };
        }
        return ProxyPlan::Skip;
    }
    let port = match value_to_u16(&ap.port) {
        Some(p) => p,
        None => 0,
    };
    let server = text_or(first_text(&ap.ip, &ap.domain), "");
    let name = match extract_vless_name(link.as_str()) {
        Some(n) => n,
        None => match first_text(&ap.name, &ap.remarks) {
            Some(n) => n,
            None => if server.as_str().unicode_len() == 0 {
                join("Proxy ", ap.id.as_str())
            } else {
                join("Server ", server.as_str())
            },
        },
    };
    let protocol = if starts_with(link.as_str(), "vless://") {
        String::from_str("vless")
    } else {
        String::from_str("vmess")
    };
    ProxyPlan::Ready(
        ProxyConfig { id: ap.id.clone(), name, server, port, protocol, link: Some(link) },
    )
}

/// Whether a profile in the list has the id.
pub open spec fn lists_id(list: Seq<ProxyConfigV>, id: Seq<char>) -> bool {
    exists|k: int| 0 <= k < list.len() && (#[trigger] list[k]).id == id
}

/// The list with the profiles of the user's VPN configurations added, in
/// order, each one only when no profile in the list so far has its id.
pub open spec fn with_user_vpns(list: Seq<ProxyConfigV>, vpns: Seq<ApiVpnConfigV>) -> Seq<
    ProxyConfigV,
>
    decreases vpns.len(),
{
    if vpns.len() == 0 {
        list
    } else {
        let l = with_user_vpns(list, vpns.drop_last());
        match vpn_profile("vpn"@, None, vpns.last()) {
            Some(p) => if lists_id(l, p.id) {
                l
            } else {
                l.push(p)
            },
            None => l,
        }
    }
}

pub open spec fn fetched_view(f: Seq<Option<ApiVpnConfig>>) -> Seq<Option<ApiVpnConfigV>> {
    f.map_values(|o: Option<ApiVpnConfig>| match o {
        Some(c) => Some(c@),
        None => None,
    })
}

pub open spec fn api_proxies_view(v: Seq<ApiResponseProxy>) -> Seq<ApiResponseProxyV> {
    v.map_values(|a: ApiResponseProxy| a@)
}

/// The profiles of the listed proxies, in order: ready ones as planned, VPN
/// ones from the configuration fetched for them (none when fetching failed).
pub open spec fn listed_profiles(
    aps: Seq<ApiResponseProxyV>,
    fetched: Seq<Option<ApiVpnConfigV>>,
) -> Seq<ProxyConfigV>
    decreases aps.len(),
{
    if aps.len() == 0 {
        Seq::empty()
    } else {
        let rest = listed_profiles(aps.drop_last(), fetched.drop_last());
        match proxy_plan(aps.last()) {
            ProxyPlanV::Ready(p) => rest.push(p),
            ProxyPlanV::FetchVpnConfig { id, name_hint } => match fetched.last() {
                Some(cfg) => match vpn_profile(id, name_hint, cfg) {
                    Some(p) => rest.push(p),
                    None => rest,
                },
                None => rest,
            },
            ProxyPlanV::Skip => rest,
        }
    }
}

/// The listed proxies give at most one profile each, and when every one of
/// them carries a usable link, the profiles are exactly theirs, in the order
/// the API lists them.
pub proof fn law_listed_profiles_follow_api_order(aps: Seq<ApiResponseProxyV>, fetched: Seq<Option<ApiVpnConfigV>>)
    ensures
        listed_profiles(aps, fetched).len() <= aps.len(),
        (forall|k: int| 0 <= k < aps.len() ==> #[trigger] proxy_plan(aps[k]) is Ready) ==> {
            &&& listed_profiles(aps, fetched).len() == aps.len()
            &&& forall|k: int|
                0 <= k < aps.len() ==> #[trigger] listed_profiles(aps, fetched)[k] == proxy_plan(aps[k])->Ready_0
        },
    decreases aps.len(),
{
    if aps.len() > 0 {
        let rest_a = aps.drop_last();
        let rest_f = fetched.drop_last();
        law_listed_profiles_follow_api_order(rest_a, rest_f);
        if forall|k: int| 0 <= k < aps.len() ==> #[trigger] proxy_plan(aps[k]) is Ready {
            assert forall|k: int| 0 <= k < rest_a.len() implies #[trigger] proxy_plan(rest_a[k]) is Ready by {
                assert(rest_a[k] == aps[k]);
                assert(proxy_plan(aps[k]) is Ready);
            }
            assert(proxy_plan(aps[aps.len() - 1]) is Ready);
            let rest = listed_profiles(rest_a, rest_f);
            let all = listed_profiles(aps, fetched);
            assert(all == rest.push(proxy_plan(aps.last())->Ready_0));
            assert forall|k: int| 0 <= k < aps.len() implies #[trigger] listed_profiles(aps, fetched)[k]
                == proxy_plan(aps[k])->Ready_0 by {
                if k < rest_a.len() {
                    assert(rest_a[k] == aps[k]);
                    assert(all[k] == rest[k]);
                }
            }
        }
    }
}

fn lists_id_exec(list: &Vec<ProxyConfig>, id: &String) -> (r: bool)
    ensures
        r == lists_id(profiles_view(list@), id@),
{
    let ghost l = profiles_view(list@);
    let mut i: usize = 0;
    while i < list.len()
        invariant
            i <= list@.len(),
            l == profiles_view(list@),
            forall|k: int| 0 <= k < i ==> l[k].id != id@,
        decreases list@.len() - i,
    {
        if list[i].id == *id {
            assert(l[i as int].id == id@);
            return true;
        }
        i = i + 1;
    }
    false
}

/// Adds the profiles of the user's VPN configurations whose ids are not
/// listed yet.
pub fn merge_user_vpns(list: &mut Vec<ProxyConfig>, vpns: &Vec<ApiVpnConfig>)
    ensures
        profiles_view(final(list)@) == with_user_vpns(
            profiles_view(old(list)@),
            vpns@.map_values(|c: ApiVpnConfig| c@),
        ),
{
    let ghost start = profiles_view(list@);
    let ghost vs = vpns@.map_values(|c: ApiVpnConfig| c@);
    let n = vpns.len();
    for i in 0..n
        invariant
            n == vpns@.len(),
            vs == vpns@.map_values(|c: ApiVpnConfig| c@),
            profiles_view(list@) == with_user_vpns(start, vs.take(i as int)),
    {
        proof {
            assert(vs.take(i + 1).drop_last() =~= vs.take(i as int));
            assert(vs.take(i + 1).last() == vpns@[i as int]@);
        }
        match proxy_from_vpn_config("vpn", None, &vpns[i]) {
            Some(p) => {
                if !lists_id_exec(list, &p.id) {
                    let ghost before = profiles_view(list@);
                    let ghost pv = p@;
                    list.push(p);
                    proof {
                        assert(profiles_view(list@) =~= before.push(pv));
                    }
                }
            },
            None => {},
        }
    }
    proof {
        assert(vs.take(n as int) =~= vs);
    }
}

/// The profiles of the listed proxies, given the VPN configuration fetched
/// for each proxy whose plan asked for one (`fetched[i]` belongs to `aps[i]`),
/// followed by the profiles of the user's VPN configurations with ids not
/// listed yet.
pub fn assemble_profiles(
    aps: &Vec<ApiResponseProxy>,
    fetched: &Vec<Option<ApiVpnConfig>>,
    user_vpns: &Option<Vec<ApiVpnConfig>>,
) -> (r: Vec<ProxyConfig>)
    requires
        fetched@.len() == aps@.len(),
    ensures
        profiles_view(r@) == with_user_vpns(
            listed_profiles(api_proxies_view(aps@), fetched_view(fetched@)),
            match user_vpns {
                Some(v) => v@.map_values(|c: ApiVpnConfig| c@),
                None => Seq::empty(),
            },
        ),
{
    let ghost av = api_proxies_view(aps@);
    let ghost fv = fetched_view(fetched@);
    let mut out: Vec<ProxyConfig> = Vec::new();
    let n = aps.len();
    for i in 0..n
        invariant
            n == aps@.len(),
            fetched@.len() == n,
            av == api_proxies_view(aps@),
            fv == fetched_view(fetched@),
            profiles_view(out@) == listed_profiles(av.take(i as int), fv.take(i as int)),
    {
        proof {
            assert(av.take(i + 1).drop_last() =~= av.take(i as int));
            assert(fv.take(i + 1).drop_last() =~= fv.take(i as int));
            assert(av.take(i + 1).last() == aps@[i as int]@);
        }
        let ghost before = profiles_view(out@);
        match plan_api_proxy(&aps[i]) {
            ProxyPlan::Ready(p) => {
                let ghost pv = p@;
                out.push(p);
                proof {
                    assert(profiles_view(out@) =~= before.push(pv));
                }
            },
            ProxyPlan::FetchVpnConfig { id, name_hint } => {
                match &fetched[i] {
                    Some(cfg) => {
                        let hint: Option<&str> = match &name_hint {
                            Some(h) => Some(h.as_str()),
                            None => None,
                        };
                        match proxy_from_vpn_config(id.as_str(), hint, cfg) {
                            Some(p) => {
                                let ghost pv = p@;
                                out.push(p);
                                proof {
                                    assert(profiles_view(out@) =~= before.push(pv));
                                }
                            },
                            None => {},
                        }
                    },
                    None => {},
                }
            },
            ProxyPlan::Skip => {},
        }
    }
    proof {
        assert(av.take(n as int) =~= av);
        assert(fv.take(n as int) =~= fv);
        assert(profiles_view(out@) == listed_profiles(av, fv));
    }
    match user_vpns {
        Some(v) => {
            merge_user_vpns(&mut out, v);
        },
        None => {
            assert(with_user_vpns(profiles_view(out@), Seq::empty()) == profiles_view(out@));
        },
    }
    out
}


/// The active profile id after the profile list is replaced: kept when the
/// list still has it, else the first profile's id, else none.
pub open spec fn next_active(active: Option<Seq<char>>, list: Seq<ProxyConfigV>) -> Option<
    Seq<char>,
> {
    match active {
        Some(id) if lists_id(list, id) => Some(id),
        _ => if list.len() > 0 {
            Some(list[0].id)
        } else {
            None
        },
    }
}

/// Stores a freshly fetched profile list in the settings and keeps the
/// active profile pointing at one of them.
pub fn store_profiles(config: &mut AppConfig, proxies: Vec<ProxyConfig>)
    ensures
        profiles_view(final(config).proxies@) == profiles_view(proxies@),
        opt_view(final(config).active_proxy_id) == next_active(
            opt_view(old(config).active_proxy_id),
            profiles_view(proxies@),
        ),
        *final(config) == (AppConfig {
            proxies: final(config).proxies,
            active_proxy_id: final(config).active_proxy_id,
            ..*old(config)
        }),
{
    let keep = match &config.active_proxy_id {
        Some(id) => lists_id_exec(&proxies, id),
        None => false,
    };
    if !keep {
        config.active_proxy_id = if proxies.len() > 0 {
            Some(proxies[0].id.clone())
        } else {
            None
        };
    }
    config.proxies = proxies;
}

/// After storing a profile list, the active profile is one of the list, and
/// there is one whenever the list is not empty.
pub proof fn law_active_profile_is_listed(active: Option<Seq<char>>, list: Seq<ProxyConfigV>)
    ensures
        next_active(active, list) matches Some(id) ==> lists_id(list, id),
        list.len() > 0 ==> next_active(active, list) is Some,
        (active matches Some(id) && lists_id(list, id)) ==> next_active(active, list) == active,
{
    if list.len() > 0 {
        assert(list[0].id == list[0].id);
    }
}

/// Merging the user's VPN configurations keeps the list it starts from and
/// never adds a profile whose id is already listed before it.
pub proof fn law_user_vpns_add_no_listed_id(list: Seq<ProxyConfigV>, vpns: Seq<ApiVpnConfigV>)
    ensures
        with_user_vpns(list, vpns).len() >= list.len(),
        forall|k: int| 0 <= k < list.len() ==> with_user_vpns(list, vpns)[k] == list[k],
        forall|i: int, j: int|
            0 <= j < i < with_user_vpns(list, vpns).len() && i >= list.len() ==> with_user_vpns(
                list,
                vpns,
            )[j].id != with_user_vpns(list, vpns)[i].id,
    decreases vpns.len(),
{
    if vpns.len() > 0 {
        law_user_vpns_add_no_listed_id(list, vpns.drop_last());
        let l = with_user_vpns(list, vpns.drop_last());
        let r = with_user_vpns(list, vpns);
        match vpn_profile("vpn"@, None, vpns.last()) {
            Some(p) => {
                if !lists_id(l, p.id) {
                    assert forall|i: int, j: int|
                        0 <= j < i < r.len() && i >= list.len() implies r[j].id != r[i].id by {
                        if i == r.len() - 1 {
                            assert(r[j] == l[j]);
                            assert(!(l[j].id == p.id));
                        } else {
                            assert(r[j] == l[j] && r[i] == l[i]);
                        }
                    }
                }
            },
            None => {},
        }
    }
}

/// The balance text of a profile reply: the text of a number as the caller
/// formats it when the balance is one, else a balance string, else `0`.
pub open spec fn balance_text(balance: JsonV, number_text: Option<Seq<char>>) -> Seq<char> {
    match number_text {
        Some(t) => t,
        None => match json_as_str(balance) {
            Some(s) => s,
            None => match json_as_i64(balance) {
                Some(n) => signed_decimal(n),
                None => "0"@,
            },
        },
    }
}

/// Stores a fetched profile in the settings: the balance (`number_text` is
/// the formatted number when the balance is a number) and, when the reply
/// has one, the e-mail address.
pub fn store_profile(
    config: &mut AppConfig,
    balance: &Json,
    number_text: Option<String>,
    email: Option<String>,
)
    ensures
        opt_view(final(config).balance) == Some(balance_text(balance@, opt_view(number_text))),
        opt_view(final(config).email) == (match email {
            Some(e) => Some(e@),
            None => opt_view(old(config).email),
        }),
        *final(config) == (AppConfig { balance: final(config).balance, email: final(config).email, ..*old(config) }),
{
    let text = match number_text {
        Some(t) => t,
        None => match balance.as_str() {
            Some(s) => s,
            None => match balance.as_i64() {
                Some(n) => i64_to_string(n),
                None => String::from_str("0"),
            },
        },
    };
    config.balance = Some(text);
    if email.is_some() {
        config.email = email;
    }
}

} // verus!
