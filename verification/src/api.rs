//! Records of the proxu.pro user API and how its replies are read.
use vstd::prelude::*;
use crate::json::{Json, JsonV, JsonNumber, json_get, json_as_str, json_as_u64, members, elements, obj4, json_text_parse, parse_json};
use crate::text::{signed_decimal, lowercased, to_lowercase, str_eq, i64_to_string, u64_to_string, decimal, join};
use crate::xray::or_default;
use crate::profiles::link_name;
use crate::urls::url_parse;
use rand::Rng;
use crate::urls::opt_view;

verus! {

/// A proxy of the user as `GET /proxies` lists it.
#[derive(Debug, PartialEq)]
pub struct ApiResponseProxy {
    pub id: String,
    pub ip: Option<String>,
    pub domain: Option<String>,
    pub port: Json,
    pub protocol: Option<String>,
    pub link: Option<String>,
    pub connection_string: Option<String>,
    pub name: Option<String>,
    pub remarks: Option<String>,
}

/// A VPN configuration of the user.
#[derive(Debug, PartialEq)]
pub struct ApiVpnConfig {
    pub id: Json,
    pub vpn_id: Option<Json>,
    pub server_id: Option<Json>,
    pub protocol: Option<String>,
    pub host: Option<String>,
    pub port: Option<Json>,
    pub link: Option<String>,
    pub config: Option<String>,
    pub connection_string: Option<String>,
}

/// The profile of the user.
#[derive(Debug, PartialEq)]
pub struct ApiUserProfile {
    pub balance: Json,
    pub email: Option<String>,
}

#[derive(Debug, Clone, PartialEq)]
pub struct CreateProxyRequest {
    pub name: String,
    pub server: String,
    pub port: u16,
    pub protocol: String,
    pub link: String,
    pub type_: String,
}

#[derive(Debug, Clone, PartialEq)]
pub struct CreateProxyResponse {
    pub id: String,
    pub message: String,
}

#[derive(Debug, Clone, PartialEq)]
pub struct PaymentResponse {
    pub payment_id: String,
    pub status: String,
    pub payment_url: Option<String>,
    pub message: String,
}

/// A VPN server that profiles can be created on.
#[derive(Debug, PartialEq)]
pub struct VpnServer {
    pub id: Json,
    pub name: Option<String>,
    pub location: Option<String>,
    pub ip: Option<String>,
}

/// An inbound of a VPN server.
#[derive(Debug, Clone, PartialEq)]
pub struct VpnInbound {
    pub id: i64,
    pub protocol: Option<String>,
    pub port: Option<i64>,
    pub remark: Option<String>,
}

/// The profile that was created for the user.
#[derive(Debug, Clone, PartialEq)]
pub struct AutoCreateProfileResponse {
    pub id: String,
    pub link: String,
    pub name: String,
    pub server: String,
    pub port: u16,
    pub protocol: String,
}

#[derive(Debug, Clone, PartialEq)]
pub struct CreatePaymentResponse {
    pub payment_id: Option<String>,
    pub id: Option<String>,
    pub payment_url: Option<String>,
    pub status: Option<String>,
}

#[derive(Debug, Clone, PartialEq)]
pub struct PaymentStatusResponse {
    pub status: Option<String>,
    pub payment_id: Option<String>,
}

/// The model of `ApiVpnConfig`.
pub ghost struct ApiVpnConfigV {
    pub id: JsonV,
    pub vpn_id: Option<JsonV>,
    pub server_id: Option<JsonV>,
    pub protocol: Option<Seq<char>>,
    pub host: Option<Seq<char>>,
    pub port: Option<JsonV>,
    pub link: Option<Seq<char>>,
    pub config: Option<Seq<char>>,
    pub connection_string: Option<Seq<char>>,
}

pub open spec fn opt_json_view(o: Option<Json>) -> Option<JsonV> {
    match o {
        Some(j) => Some(j@),
        None => None,
    }
}

impl View for ApiVpnConfig {
    type V = ApiVpnConfigV;

    open spec fn view(&self) -> ApiVpnConfigV {
        ApiVpnConfigV {
            id: self.id@,
            vpn_id: opt_json_view(self.vpn_id),
            server_id: opt_json_view(self.server_id),
            protocol: opt_view(self.protocol),
            host: opt_view(self.host),
            port: opt_json_view(self.port),
            link: opt_view(self.link),
            config: opt_view(self.config),
            connection_string: opt_view(self.connection_string),
        }
    }
}

/// The names of the fields of a VPN configuration, in declaration order.
pub open spec fn vpn_field_name(i: int) -> Seq<char> {
    if i == 0 {
        "id"@
    } else if i == 1 {
        "vpn_id"@
    } else if i == 2 {
        "server_id"@
    } else if i == 3 {
        "protocol"@
    } else if i == 4 {
        "host"@
    } else if i == 5 {
        "port"@
    } else if i == 6 {
        "link"@
    } else if i == 7 {
        "config"@
    } else {
        "connection_string"@
    }
}

/// An optional JSON field: absent or null is none.
pub open spec fn json_field(v: Option<JsonV>) -> Option<JsonV> {
    match v {
        Some(JsonV::Null) => None,
        Some(x) => Some(x),
        None => None,
    }
}

/// An optional text field: absent or null is none, a string is itself, any
/// other value is an error (the outer `None`).
pub open spec fn text_field(v: Option<JsonV>) -> Option<Option<Seq<char>>> {
    match v {
        None => Some(None),
        Some(JsonV::Null) => Some(None),
        Some(JsonV::Str(s)) => Some(Some(s)),
        Some(_) => None,
    }
}

/// The configuration that the given field values make, or none when a text
/// field holds something other than a string or null. An absent `id` is null.
pub open spec fn vpn_config_of(f: Seq<Option<JsonV>>) -> Option<ApiVpnConfigV> {
    match (text_field(f[3]), text_field(f[4]), text_field(f[6]), text_field(f[7]), text_field(f[8])) {
        (Some(protocol), Some(host), Some(link), Some(config), Some(connection_string)) => Some(
            ApiVpnConfigV {
                id: match f[0] {
                    Some(x) => x,
                    None => JsonV::Null,
                },
                vpn_id: json_field(f[1]),
                server_id: json_field(f[2]),
                protocol: protocol,
                host: host,
                port: json_field(f[5]),
                link: link,
                config: config,
                connection_string: connection_string,
            },
        ),
        _ => None,
    }
}

/// How many members are named `k`.
pub open spec fn name_count(fs: Seq<(Seq<char>, JsonV)>, k: Seq<char>) -> nat
    decreases fs.len(),
{
    if fs.len() == 0 {
        0
    } else {
        name_count(fs.drop_last(), k) + if fs.last().0 == k {
            1nat
        } else {
            0nat
        }
    }
}

/// The value of the member named `k`, if any.
pub open spec fn member_value(fs: Seq<(Seq<char>, JsonV)>, k: Seq<char>) -> Option<JsonV> {
    json_get(JsonV::Object(fs), k)
}

/// What deserializing a VPN configuration from a JSON value gives, as the
/// derived `Deserialize` of the record reads it: from an object, each field
/// by its name (other members ignored, a field named twice is an error);
/// from an array of at most nine elements, the fields in declaration order;
/// any other value is an error.
pub open spec fn vpn_config_from_json(v: JsonV) -> Option<ApiVpnConfigV> {
    match v {
        JsonV::Object(fs) => if (forall|i: int| 0 <= i < 9 ==> name_count(fs, vpn_field_name(i)) <= 1) {
            vpn_config_of(Seq::new(9, |i: int| member_value(fs, vpn_field_name(i))))
        } else {
            None
        },
        JsonV::Array(a) => if a.len() <= 9 {
            vpn_config_of(Seq::new(9, |i: int| if 0 <= i < a.len() { Some(a[i]) } else { None }))
        } else {
            None
        },
        _ => None,
    }
}


pub open spec fn opt_json_seq(v: Seq<Option<Json>>) -> Seq<Option<JsonV>> {
    v.map_values(|o: Option<Json>| opt_json_view(o))
}

fn json_field_exec(v: Option<Json>) -> (r: Option<Json>)
    ensures
        opt_json_view(r) == json_field(opt_json_view(v)),
{
    match v {
        Some(Json::Null) => None,
        other => other,
    }
}

fn text_field_exec(v: &Option<Json>) -> (r: Option<Option<String>>)
    ensures
        match r {
            Some(o) => text_field(opt_json_view(*v)) == Some(opt_view(o)),
            None => text_field(opt_json_view(*v)) is None,
        },
{
    match v {
        None => Some(None),
        Some(Json::Null) => Some(None),
        Some(Json::Str(s)) => Some(Some(s.clone())),
        Some(_) => None,
    }
}

fn vpn_config_from_fields(f: Vec<Option<Json>>) -> (r: Option<ApiVpnConfig>)
    requires
        f@.len() == 9,
    ensures
        match r {
            Some(c) => vpn_config_of(opt_json_seq(f@)) == Some(c@),
            None => vpn_config_of(opt_json_seq(f@)) is None,
        },
{
    let ghost fv = opt_json_seq(f@);
    assert(forall|i: int| 0 <= i < 9 ==> fv[i] == opt_json_view(#[trigger] f@[i]));
    let protocol = match text_field_exec(&f[3]) {
        Some(x) => x,
        None => {
            return None;
        },
    };
    let host = match text_field_exec(&f[4]) {
        Some(x) => x,
        None => {
            return None;
        },
    };
    let link = match text_field_exec(&f[6]) {
        Some(x) => x,
        None => {
            return None;
        },
    };
    let config = match text_field_exec(&f[7]) {
        Some(x) => x,
        None => {
            return None;
        },
    };
    let connection_string = match text_field_exec(&f[8]) {
        Some(x) => x,
        None => {
            return None;
        },
    };
    let mut f = f;
    let f8 = f.pop();
    let f7 = f.pop();
    let f6 = f.pop();
    let f5 = f.pop();
    let f4 = f.pop();
    let f3 = f.pop();
    let f2 = f.pop();
    let f1 = f.pop();
    let f0 = f.pop();
    let id = match f0 {
        Some(Some(x)) => x,
        _ => Json::Null,
    };
    let vpn_id = match f1 {
        Some(x) => json_field_exec(x),
        None => None,
    };
    let server_id = match f2 {
        Some(x) => json_field_exec(x),
        None => None,
    };
    let port = match f5 {
        Some(x) => json_field_exec(x),
        None => None,
    };
    Some(
        ApiVpnConfig {
            id,
            vpn_id,
            server_id,
            protocol,
            host,
            port,
            link,
            config,
            connection_string,
        },
    )
}

/// Number of members of `fs` named `k`.
fn count_name(fs: &Vec<(String, Json)>, k: &str) -> (r: usize)
    ensures
        r == name_count(Seq::new(fs@.len(), |i: int| (fs@[i].0@, fs@[i].1@)), k@),
{
    let ghost vfs = Seq::new(fs@.len(), |i: int| (fs@[i].0@, fs@[i].1@));
    let key = String::from_str(k);
    let mut c: usize = 0;
    let mut i: usize = 0;
    while i < fs.len()
        invariant
            i <= fs@.len(),
            vfs == Seq::new(fs@.len(), |i: int| (fs@[i].0@, fs@[i].1@)),
            key@ == k@,
            c == name_count(vfs.take(i as int), k@),
            c <= i,
        decreases fs@.len() - i,
    {
        proof {
            assert(vfs.take(i + 1).drop_last() =~= vfs.take(i as int));
        }
        if fs[i].0 == key {
            c = c + 1;
        }
        i = i + 1;
    }
    assert(vfs.take(i as int) =~= vfs);
    c
}

impl ApiVpnConfig {
    /// Reads a VPN configuration from a JSON value as its derived
    /// `Deserialize` does.
    pub fn from_json(v: &Json) -> (r: Option<ApiVpnConfig>)
        ensures
            match r {
                Some(c) => vpn_config_from_json(v@) == Some(c@),
                None => vpn_config_from_json(v@) is None,
            },
    {
        match v {
            Json::Object(fs) => {
                let ghost vfs = members(v@);
                assert(vfs =~= Seq::new(fs@.len(), |i: int| (fs@[i].0@, fs@[i].1@)));
                let names: [&str; 9] = [
                    "id",
                    "vpn_id",
                    "server_id",
                    "protocol",
                    "host",
                    "port",
                    "link",
                    "config",
                    "connection_string",
                ];
                assert(forall|i: int| 0 <= i < 9 ==> (#[trigger] names@[i])@ == vpn_field_name(i));
                let mut f: Vec<Option<Json>> = Vec::new();
                let mut i: usize = 0;
                while i < 9
                    invariant
                        i <= 9,
                        v@ == JsonV::Object(vfs),
                        vfs == Seq::new(fs@.len(), |i: int| (fs@[i].0@, fs@[i].1@)),
                        forall|j: int| 0 <= j < 9 ==> (#[trigger] names@[j])@ == vpn_field_name(j),
                        forall|j: int| 0 <= j < i ==> name_count(vfs, vpn_field_name(j)) <= 1,
                        f@.len() == i,
                        forall|j: int|
                            0 <= j < i ==> opt_json_view(#[trigger] f@[j]) == member_value(
                                vfs,
                                vpn_field_name(j),
                            ),
                    decreases 9 - i,
                {
                    let cnt = count_name(fs, names[i]);
                    assert(cnt == name_count(vfs, vpn_field_name(i as int)));
                    if cnt > 1 {
                        return None;
                    }
                    let x = match v.get(names[i]) {
                        Some(x) => Some(x.copy()),
                        None => None,
                    };
                    f.push(x);
                    i = i + 1;
                }
                assert(opt_json_seq(f@) =~= Seq::new(
                    9,
                    |i: int| member_value(vfs, vpn_field_name(i)),
                ));
                vpn_config_from_fields(f)
            },
            Json::Array(a) => {
                if a.len() > 9 {
                    return None;
                }
                let ghost va = elements(v@);
                let mut f: Vec<Option<Json>> = Vec::new();
                let mut i: usize = 0;
                while i < 9
                    invariant
                        i <= 9,
                        a@.len() <= 9,
                        va.len() == a@.len(),
                        forall|j: int| 0 <= j < a@.len() ==> va[j] == (#[trigger] a@[j])@,
                        f@.len() == i,
                        forall|j: int|
                            0 <= j < i ==> opt_json_view(#[trigger] f@[j]) == (if j < va.len() {
                                Some(va[j])
                            } else {
                                None
                            }),
                    decreases 9 - i,
                {
                    if i < a.len() {
                        f.push(Some(a[i].copy()));
                    } else {
                        f.push(None);
                    }
                    i = i + 1;
                }
                assert(opt_json_seq(f@) =~= Seq::new(
                    9,
                    |i: int|
                        if 0 <= i < va.len() {
                            Some(va[i])
                        } else {
                            None
                        },
                ));
                vpn_config_from_fields(f)
            },
            _ => None,
        }
    }
}


/// The items of a VPN list reply: the reply itself when it is an array, else
/// the array under `vpns`, `vpn` or `data` (the first that is one), else the
/// reply as the only item when it is an object, else nothing.
pub open spec fn vpn_items(v: JsonV) -> Seq<JsonV> {
    match v {
        JsonV::Array(a) => a,
        _ => match json_get(v, "vpns"@) {
            Some(JsonV::Array(a)) => a,
            _ => match json_get(v, "vpn"@) {
                Some(JsonV::Array(a)) => a,
                _ => match json_get(v, "data"@) {
                    Some(JsonV::Array(a)) => a,
                    _ => if v is Object {
                        seq![v]
                    } else {
                        Seq::empty()
                    },
                },
            },
        },
    }
}

/// The configurations that the items give, in order; items that do not read
/// as a configuration are skipped.
pub open spec fn parsed_configs(items: Seq<JsonV>) -> Seq<ApiVpnConfigV>
    decreases items.len(),
{
    if items.len() == 0 {
        Seq::empty()
    } else {
        let rest = parsed_configs(items.drop_last());
        match vpn_config_from_json(items.last()) {
            Some(c) => rest.push(c),
            None => rest,
        }
    }
}

pub open spec fn configs_view(v: Seq<ApiVpnConfig>) -> Seq<ApiVpnConfigV> {
    v.map_values(|c: ApiVpnConfig| c@)
}

pub open spec fn items_view(a: Vec<Json>) -> Seq<JsonV> {
    elements(Json::Array(a)@)
}

fn configs_from_items(a: &Vec<Json>) -> (r: Vec<ApiVpnConfig>)
    ensures
        configs_view(r@) == parsed_configs(items_view(*a)),
{
    let ghost items = items_view(*a);
    let mut out: Vec<ApiVpnConfig> = Vec::new();
    let n = a.len();
    for i in 0..n
        invariant
            n == a@.len(),
            items == items_view(*a),
            items.len() == n,
            configs_view(out@) == parsed_configs(items.take(i as int)),
    {
        proof {
            assert(items.take(i + 1).drop_last() =~= items.take(i as int));
            assert(items.take(i + 1).last() == a@[i as int]@);
        }
        match ApiVpnConfig::from_json(&a[i]) {
            Some(c) => {
                let ghost before = configs_view(out@);
                out.push(c);
                proof {
                    assert(configs_view(out@) =~= before.push(c@));
                }
            },
            None => {},
        }
    }
    proof {
        assert(items.take(n as int) =~= items);
    }
    out
}

fn array_member<'a>(v: &'a Json, k: &str) -> (r: Option<&'a Vec<Json>>)
    ensures
        match r {
            Some(a) => json_get(v@, k@) == Some(Json::Array(*a)@),
            None => !(json_get(v@, k@) matches Some(JsonV::Array(_))),
        },
{
    match v.get(k) {
        Some(Json::Array(a)) => Some(a),
        _ => None,
    }
}

/// The VPN configurations of a VPN list reply.
pub fn parse_vpn_value(value: &Json) -> (r: Vec<ApiVpnConfig>)
    ensures
        configs_view(r@) == parsed_configs(vpn_items(value@)),
{
    match value {
        Json::Array(a) => configs_from_items(a),
        _ => {
            if let Some(a) = array_member(value, "vpns") {
                return configs_from_items(a);
            }
            if let Some(a) = array_member(value, "vpn") {
                return configs_from_items(a);
            }
            if let Some(a) = array_member(value, "data") {
                return configs_from_items(a);
            }
            if value.is_object() {
                let mut out: Vec<ApiVpnConfig> = Vec::new();
                match ApiVpnConfig::from_json(value) {
                    Some(c) => {
                        out.push(c);
                    },
                    None => {},
                }
                proof {
                    let items = seq![value@];
                    assert(items.drop_last() =~= Seq::<JsonV>::empty());
                    assert(items.len() == 1 && items.last() == value@);
                    assert(parsed_configs(items.drop_last()) =~= Seq::<ApiVpnConfigV>::empty());
                    assert(configs_view(out@) =~= parsed_configs(items));
                }
                out
            } else {
                Vec::new()
            }
        },
    }
}


/// The model of `ApiResponseProxy`.
pub ghost struct ApiResponseProxyV {
    pub id: Seq<char>,
    pub ip: Option<Seq<char>>,
    pub domain: Option<Seq<char>>,
    pub port: JsonV,
    pub protocol: Option<Seq<char>>,
    pub link: Option<Seq<char>>,
    pub connection_string: Option<Seq<char>>,
    pub name: Option<Seq<char>>,
    pub remarks: Option<Seq<char>>,
}

impl View for ApiResponseProxy {
    type V = ApiResponseProxyV;

    open spec fn view(&self) -> ApiResponseProxyV {
        ApiResponseProxyV {
            id: self.id@,
            ip: opt_view(self.ip),
            domain: opt_view(self.domain),
            port: self.port@,
            protocol: opt_view(self.protocol),
            link: opt_view(self.link),
            connection_string: opt_view(self.connection_string),
            name: opt_view(self.name),
            remarks: opt_view(self.remarks),
        }
    }
}


/// The model of a VPN server.
pub ghost struct VpnServerV {
    pub id: JsonV,
    pub name: Option<Seq<char>>,
    pub location: Option<Seq<char>>,
    pub ip: Option<Seq<char>>,
}

impl View for VpnServer {
    type V = VpnServerV;

    open spec fn view(&self) -> VpnServerV {
        VpnServerV {
            id: self.id@,
            name: opt_view(self.name),
            location: opt_view(self.location),
            ip: opt_view(self.ip),
        }
    }
}

/// The model of a server inbound.
pub ghost struct VpnInboundV {
    pub id: i64,
    pub protocol: Option<Seq<char>>,
    pub port: Option<i64>,
    pub remark: Option<Seq<char>>,
}

impl View for VpnInbound {
    type V = VpnInboundV;

    open spec fn view(&self) -> VpnInboundV {
        VpnInboundV {
            id: self.id,
            protocol: opt_view(self.protocol),
            port: self.port,
            remark: opt_view(self.remark),
        }
    }
}

impl VpnServer {
    /// A copy of the value.
    pub fn copy(&self) -> (r: VpnServer)
        ensures
            r@ == self@,
    {
        VpnServer {
            id: self.id.copy(),
            name: self.name.clone(),
            location: self.location.clone(),
            ip: self.ip.clone(),
        }
    }
}

impl VpnInbound {
    /// A copy of the value.
    pub fn copy(&self) -> (r: VpnInbound)
        ensures
            r@ == self@,
    {
        VpnInbound {
            id: self.id,
            protocol: self.protocol.clone(),
            port: self.port,
            remark: self.remark.clone(),
        }
    }
}

/// The text of a server id in a request path: a number's text or a string;
/// other ids have none.
pub open spec fn server_id_text_spec(id: JsonV) -> Option<Seq<char>> {
    match id {
        JsonV::Int(n) => Some(signed_decimal(n)),
        JsonV::Float(t) => Some(t),
        JsonV::Str(s) => Some(s),
        _ => None,
    }
}

/// The text of a server id in a request path.
pub fn server_id_text(id: &Json) -> (r: Option<String>)
    ensures
        opt_view(r) == server_id_text_spec(id@),
{
    match id {
        Json::Number(JsonNumber::PosInt(u)) => Some(u64_to_string(*u)),
        Json::Number(JsonNumber::NegInt(i)) => Some(i64_to_string(*i)),
        Json::Number(JsonNumber::Float(t)) => Some(t.clone()),
        Json::Str(s) => Some(s.clone()),
        _ => None,
    }
}

/// An inbound whose protocol is VLESS in any letter case.
pub open spec fn vless_inbound(i: VpnInboundV) -> bool {
    lowercased(or_default(i.protocol, Seq::empty())) == "vless"@
}

/// The VLESS inbounds of one server, each paired with the server.
pub open spec fn server_candidates(s: VpnServerV, ins: Seq<VpnInboundV>) -> Seq<
    (VpnServerV, VpnInboundV),
>
    decreases ins.len(),
{
    if ins.len() == 0 {
        Seq::empty()
    } else {
        let r = server_candidates(s, ins.drop_last());
        if vless_inbound(ins.last()) {
            r.push((s, ins.last()))
        } else {
            r
        }
    }
}

/// The VLESS inbounds of all servers whose id can be named, in order;
/// `inbounds[k]` are the inbounds fetched for `servers[k]`.
pub open spec fn all_candidates(servers: Seq<VpnServerV>, inbounds: Seq<Seq<VpnInboundV>>) -> Seq<
    (VpnServerV, VpnInboundV),
>
    decreases servers.len(),
{
    if servers.len() == 0 {
        Seq::empty()
    } else {
        let r = all_candidates(servers.drop_last(), inbounds.drop_last());
        if server_id_text_spec(servers.last().id) is Some {
            r + server_candidates(servers.last(), inbounds.last())
        } else {
            r
        }
    }
}

/// The candidates of one server are exactly its VLESS inbounds, each with
/// that server.
proof fn lemma_server_candidates(s: VpnServerV, ins: Seq<VpnInboundV>)
    ensures
        forall|c: (VpnServerV, VpnInboundV)|
            #[trigger] server_candidates(s, ins).contains(c) <==> (c.0 == s && ins.contains(c.1) && vless_inbound(
                c.1,
            )),
    decreases ins.len(),
{
    if ins.len() > 0 {
        let rest = ins.drop_last();
        lemma_server_candidates(s, rest);
        let r = server_candidates(s, rest);
        assert forall|c: (VpnServerV, VpnInboundV)|
            #[trigger] server_candidates(s, ins).contains(c) <==> (c.0 == s && ins.contains(c.1)
                && vless_inbound(c.1)) by {
            if ins.contains(c.1) {
                let j = choose|j: int| 0 <= j < ins.len() && ins[j] == c.1;
                if j < rest.len() {
                    assert(rest[j] == c.1);
                }
            }
            if rest.contains(c.1) {
                let j = choose|j: int| 0 <= j < rest.len() && rest[j] == c.1;
                assert(ins[j] == c.1);
            }
            if vless_inbound(ins.last()) {
                assert(server_candidates(s, ins) == r.push((s, ins.last())));
                if r.push((s, ins.last())).contains(c) && c != (s, ins.last()) {
                    let j = choose|j: int| 0 <= j < r.push((s, ins.last())).len() && r.push((s, ins.last()))[j] == c;
                    assert(r[j] == c);
                }
                if r.contains(c) {
                    let j = choose|j: int| 0 <= j < r.len() && r[j] == c;
                    assert(r.push((s, ins.last()))[j] == c);
                }
                assert(r.push((s, ins.last()))[r.len() as int] == (s, ins.last()));
            }
        }
    }
}

/// The candidates to create a profile on are exactly the VLESS inbounds (in
/// any letter case) of the servers whose id can be named, each paired with
/// the server it was fetched for.
pub proof fn law_candidates_are_vless_inbounds_of_their_server(
    servers: Seq<VpnServerV>,
    inbounds: Seq<Seq<VpnInboundV>>,
)
    requires
        inbounds.len() == servers.len(),
    ensures
        forall|c: (VpnServerV, VpnInboundV)|
            #[trigger] all_candidates(servers, inbounds).contains(c) <==> exists|k: int|
                0 <= k < servers.len() && servers[k] == c.0 && server_id_text_spec(servers[k].id) is Some
                    && #[trigger] inbounds[k].contains(c.1) && vless_inbound(c.1),
    decreases servers.len(),
{
    if servers.len() > 0 {
        let ss = servers.drop_last();
        let is = inbounds.drop_last();
        let n = servers.len() - 1;
        law_candidates_are_vless_inbounds_of_their_server(ss, is);
        lemma_server_candidates(servers.last(), inbounds.last());
        let r = all_candidates(ss, is);
        let named = server_id_text_spec(servers.last().id) is Some;
        let t = server_candidates(servers.last(), inbounds.last());
        assert forall|c: (VpnServerV, VpnInboundV)|
            #[trigger] all_candidates(servers, inbounds).contains(c) <==> exists|k: int|
                0 <= k < servers.len() && servers[k] == c.0 && server_id_text_spec(servers[k].id) is Some
                    && #[trigger] inbounds[k].contains(c.1) && vless_inbound(c.1) by {
            if named {
                assert(all_candidates(servers, inbounds) == r + t);
                if (r + t).contains(c) {
                    let j = choose|j: int| 0 <= j < (r + t).len() && (r + t)[j] == c;
                    if j < r.len() {
                        assert(r[j] == c);
                        assert(r.contains(c));
                        let k = choose|k: int|
                            0 <= k < ss.len() && ss[k] == c.0 && server_id_text_spec(ss[k].id) is Some
                                && #[trigger] is[k].contains(c.1) && vless_inbound(c.1);
                        assert(servers[k] == ss[k] && inbounds[k] == is[k]);
                    } else {
                        assert(t[j - r.len()] == c);
                        assert(t.contains(c));
                        assert(servers[n] == c.0 && inbounds[n] == inbounds.last());
                    }
                }
                if exists|k: int|
                    0 <= k < servers.len() && servers[k] == c.0 && server_id_text_spec(servers[k].id) is Some
                        && #[trigger] inbounds[k].contains(c.1) && vless_inbound(c.1) {
                    let k = choose|k: int|
                        0 <= k < servers.len() && servers[k] == c.0 && server_id_text_spec(servers[k].id) is Some
                            && #[trigger] inbounds[k].contains(c.1) && vless_inbound(c.1);
                    if k < n {
                        assert(ss[k] == servers[k] && is[k] == inbounds[k]);
                        assert(r.contains(c));
                        let j = choose|j: int| 0 <= j < r.len() && r[j] == c;
                        assert((r + t)[j] == c);
                    } else {
                        assert(t.contains(c));
                        let j = choose|j: int| 0 <= j < t.len() && t[j] == c;
                        assert((r + t)[r.len() + j] == c);
                    }
                }
            } else {
                assert(all_candidates(servers, inbounds) == r);
                if r.contains(c) {
                    let k = choose|k: int|
                        0 <= k < ss.len() && ss[k] == c.0 && server_id_text_spec(ss[k].id) is Some
                            && #[trigger] is[k].contains(c.1) && vless_inbound(c.1);
                    assert(servers[k] == ss[k] && inbounds[k] == is[k]);
                }
                if exists|k: int|
                    0 <= k < servers.len() && servers[k] == c.0 && server_id_text_spec(servers[k].id) is Some
                        && #[trigger] inbounds[k].contains(c.1) && vless_inbound(c.1) {
                    let k = choose|k: int|
                        0 <= k < servers.len() && servers[k] == c.0 && server_id_text_spec(servers[k].id) is Some
                            && #[trigger] inbounds[k].contains(c.1) && vless_inbound(c.1);
                    assert(k != n);
                    assert(ss[k] == servers[k] && is[k] == inbounds[k]);
                }
            }
        }
    }
}

pub open spec fn servers_view(v: Seq<VpnServer>) -> Seq<VpnServerV> {
    v.map_values(|s: VpnServer| s@)
}

pub open spec fn inbound_lists_view(v: Seq<Vec<VpnInbound>>) -> Seq<Seq<VpnInboundV>> {
    v.map_values(|l: Vec<VpnInbound>| l@.map_values(|i: VpnInbound| i@))
}

pub open spec fn pairs_of(v: Seq<(VpnServer, VpnInbound)>) -> Seq<(VpnServerV, VpnInboundV)> {
    v.map_values(|p: (VpnServer, VpnInbound)| (p.0@, p.1@))
}

fn add_server_candidates(out: &mut Vec<(VpnServer, VpnInbound)>, s: &VpnServer, ins: &Vec<VpnInbound>)
    ensures
        pairs_of(final(out)@) == pairs_of(old(out)@) + server_candidates(
            s@,
            ins@.map_values(|i: VpnInbound| i@),
        ),
{
    let ghost start = pairs_of(out@);
    let ghost iv = ins@.map_values(|i: VpnInbound| i@);
    let n = ins.len();
    assert(start + server_candidates(s@, iv.take(0)) =~= start);
    for k in 0..n
        invariant
            n == ins@.len(),
            iv == ins@.map_values(|i: VpnInbound| i@),
            pairs_of(out@) == start + server_candidates(s@, iv.take(k as int)),
    {
        proof {
            assert(iv.take(k + 1).drop_last() =~= iv.take(k as int));
            assert(iv.take(k + 1).last() == ins@[k as int]@);
        }
        let proto = match &ins[k].protocol {
            Some(p) => p.clone(),
            None => String::from_str(""),
        };
        proof {
            reveal_strlit("");
            assert(""@ =~= Seq::<char>::empty());
        }
        let lower = to_lowercase(proto.as_str());
        if str_eq(lower.as_str(), "vless") {
            let ghost before = pairs_of(out@);
            let pair = (s.copy(), ins[k].copy());
            let ghost pv = (pair.0@, pair.1@);
            out.push(pair);
            proof {
                assert(pairs_of(out@) =~= before.push(pv));
                assert(start + server_candidates(s@, iv.take(k + 1)) =~= (start
                    + server_candidates(s@, iv.take(k as int))).push(pv));
            }
        }
    }
    proof {
        assert(iv.take(n as int) =~= iv);
    }
}

/// The VLESS inbounds that a profile can be created on.
pub fn vless_candidates(servers: &Vec<VpnServer>, inbounds: &Vec<Vec<VpnInbound>>) -> (r: Vec<
    (VpnServer, VpnInbound),
>)
    requires
        inbounds@.len() == servers@.len(),
    ensures
        pairs_of(r@) == all_candidates(servers_view(servers@), inbound_lists_view(inbounds@)),
{
    let ghost sv = servers_view(servers@);
    let ghost bv = inbound_lists_view(inbounds@);
    let mut out: Vec<(VpnServer, VpnInbound)> = Vec::new();
    let n = servers.len();
    assert(pairs_of(out@) =~= Seq::<(VpnServerV, VpnInboundV)>::empty());
    for k in 0..n
        invariant
            n == servers@.len(),
            inbounds@.len() == n,
            sv == servers_view(servers@),
            bv == inbound_lists_view(inbounds@),
            pairs_of(out@) == all_candidates(sv.take(k as int), bv.take(k as int)),
    {
        proof {
            assert(sv.take(k + 1).drop_last() =~= sv.take(k as int));
            assert(bv.take(k + 1).drop_last() =~= bv.take(k as int));
            assert(sv.take(k + 1).last() == servers@[k as int]@);
            assert(bv.take(k + 1).last() == inbounds@[k as int]@.map_values(|i: VpnInbound| i@));
        }
        match server_id_text(&servers[k].id) {
            Some(_) => {
                add_server_candidates(&mut out, &servers[k], &inbounds[k]);
            },
            None => {},
        }
    }
    proof {
        assert(sv.take(n as int) =~= sv);
        assert(bv.take(n as int) =~= bv);
    }
    out
}

/// `rand::thread_rng().gen_range(0..n)`: some index below `n`, chosen at
/// random; which one is not stated.
#[verifier::external_body]
fn random_index(n: usize) -> (r: usize)
    requires
        n > 0,
    ensures
        r < n,
{
    rand::thread_rng().gen_range(0..n)
}

/// The server and inbound to create a profile on, once `pick` is drawn: an
/// error when there is no server or no VLESS inbound, else the VLESS inbound
/// at position `pick` among all of them, with its server.
pub fn profile_target_at(servers: &Vec<VpnServer>, inbounds: &Vec<Vec<VpnInbound>>, pick: usize) -> (r: Result<
    (VpnServer, VpnInbound),
    String,
>)
    requires
        inbounds@.len() == servers@.len(),
        all_candidates(servers_view(servers@), inbound_lists_view(inbounds@)).len() > 0 ==> pick
            < all_candidates(servers_view(servers@), inbound_lists_view(inbounds@)).len(),
    ensures
        servers@.len() == 0 ==> (r matches Err(e) && e@ == "No VPN servers available"@),
        servers@.len() > 0 && all_candidates(servers_view(servers@), inbound_lists_view(inbounds@)).len()
            == 0 ==> (r matches Err(e) && e@ == "No available VLESS inbounds found on any server"@),
        servers@.len() > 0 && all_candidates(servers_view(servers@), inbound_lists_view(inbounds@)).len()
            > 0 ==> (r matches Ok(p) && (p.0@, p.1@) == all_candidates(
            servers_view(servers@),
            inbound_lists_view(inbounds@),
        )[pick as int]),
{
    if servers.len() == 0 {
        return Err(String::from_str("No VPN servers available"));
    }
    let mut cands = vless_candidates(servers, inbounds);
    if cands.len() == 0 {
        return Err(String::from_str("No available VLESS inbounds found on any server"));
    }
    let ghost all = pairs_of(cands@);
    let picked = cands.remove(pick);
    assert(all[pick as int] == (picked.0@, picked.1@));
    Ok(picked)
}

/// The server and inbound to create a profile on: an error when there is no
/// server or no VLESS inbound, else one of the VLESS inbounds chosen at
/// random (`rand::thread_rng().gen_range` over their number), with its server.
pub fn choose_profile_target(servers: &Vec<VpnServer>, inbounds: &Vec<Vec<VpnInbound>>) -> (r: Result<
    (VpnServer, VpnInbound),
    String,
>)
    requires
        inbounds@.len() == servers@.len(),
    ensures
        servers@.len() == 0 ==> (r matches Err(e) && e@ == "No VPN servers available"@),
        servers@.len() > 0 && all_candidates(servers_view(servers@), inbound_lists_view(inbounds@)).len()
            == 0 ==> (r matches Err(e) && e@ == "No available VLESS inbounds found on any server"@),
        r matches Ok(p) ==> all_candidates(
            servers_view(servers@),
            inbound_lists_view(inbounds@),
        ).contains((p.0@, p.1@)),
        servers@.len() > 0 && all_candidates(servers_view(servers@), inbound_lists_view(inbounds@)).len()
            > 0 ==> r is Ok,
{
    let count = if servers.len() == 0 {
        0
    } else {
        vless_candidates(servers, inbounds).len()
    };
    let pick = if count > 0 {
        random_index(count)
    } else {
        0
    };
    let r = profile_target_at(servers, inbounds, pick);
    proof {
        if r is Ok {
            let all = all_candidates(servers_view(servers@), inbound_lists_view(inbounds@));
            assert(all[pick as int] == (r->Ok_0.0@, r->Ok_0.1@));
        }
    }
    r
}

/// The request that creates one VPN profile on the server's inbound.
pub fn profile_request_body(server: &VpnServer, inbound: &VpnInbound) -> (r: Json)
    ensures
        r@ == JsonV::Object(
            seq![
                ("type"@, JsonV::Str("vpn"@)),
                ("quantity"@, JsonV::Int(1)),
                ("xui_server_id"@, server.id@),
                ("xui_inbound_id"@, JsonV::Int(inbound.id as int)),
            ],
        ),
{
    obj4(
        "type",
        Json::string("vpn"),
        "quantity",
        Json::unsigned(1),
        "xui_server_id",
        server.id.copy(),
        "xui_inbound_id",
        Json::signed(inbound.id),
    )
}

/// The text of a member, when the value is an object with such a member
/// holding a string.
pub open spec fn member_text(v: JsonV, k: Seq<char>) -> Option<Seq<char>> {
    match json_get(v, k) {
        Some(x) => json_as_str(x),
        None => None,
    }
}

fn member_text_exec(v: &Json, k: &str) -> (r: Option<String>)
    ensures
        opt_view(r) == member_text(v@, k@),
{
    match v.get(k) {
        Some(x) => x.as_str(),
        None => None,
    }
}

/// The model of `AutoCreateProfileResponse`.
pub ghost struct CreatedProfileV {
    pub id: Seq<char>,
    pub link: Seq<char>,
    pub name: Seq<char>,
    pub server: Seq<char>,
    pub port: u16,
    pub protocol: Seq<char>,
}

impl View for AutoCreateProfileResponse {
    type V = CreatedProfileV;

    open spec fn view(&self) -> CreatedProfileV {
        CreatedProfileV {
            id: self.id@,
            link: self.link@,
            name: self.name@,
            server: self.server@,
            port: self.port,
            protocol: self.protocol@,
        }
    }
}

/// The created proxy in a reply: the first of a `proxies` array, else the
/// reply itself.
pub open spec fn created_proxy(v: JsonV) -> JsonV {
    match json_get(v, "proxies"@) {
        Some(JsonV::Array(a)) => if a.len() > 0 {
            a[0]
        } else {
            v
        },
        _ => v,
    }
}

/// The profile that a creation reply describes, or none when it lacks the id
/// or the link. The name is the link's name, else the server's name, else
/// the proxy's domain, else `VPN`; the server is the proxy's domain, else the
/// link's host, else `unknown`; the port is the proxy's port (low 16 bits),
/// else the link's port, else 443.
pub open spec fn created_profile(v: JsonV, server: VpnServerV) -> Option<CreatedProfileV> {
    let p = created_proxy(v);
    let id = or_default(member_text(p, "id"@), Seq::empty());
    let link = or_default(member_text(p, "link"@), Seq::empty());
    if link.len() == 0 || id.len() == 0 {
        None
    } else {
        let parsed = url_parse(link);
        let name = match link_name(link) {
            Some(n) => n,
            None => match server.name {
                Some(n) => n,
                None => or_default(member_text(p, "domain"@), "VPN"@),
            },
        };
        let host = match member_text(p, "domain"@) {
            Some(d) => d,
            None => match parsed {
                Ok(u) => or_default(u.host, "unknown"@),
                Err(_) => "unknown"@,
            },
        };
        let port: u16 = match json_get(p, "port"@) {
            Some(x) => match json_as_u64(x) {
                Some(n) => (n % 65536) as u16,
                None => match parsed {
                    Ok(u) => match u.port {
                        Some(q) => q,
                        None => 443,
                    },
                    Err(_) => 443,
                },
            },
            None => match parsed {
                Ok(u) => match u.port {
                    Some(q) => q,
                    None => 443,
                },
                Err(_) => 443,
            },
        };
        Some(
            CreatedProfileV {
                id: id,
                link: link,
                name: name,
                server: host,
                port: port,
                protocol: "vless"@,
            },
        )
    }
}

/// The profile that a creation reply describes; none means the reply is
/// incomplete.
pub fn profile_from_reply(value: &Json, server: &VpnServer) -> (r: Option<AutoCreateProfileResponse>)
    ensures
        match r {
            Some(p) => created_profile(value@, server@) == Some(p@),
            None => created_profile(value@, server@) is None,
        },
{
    proof {
        reveal_strlit("");
    }
    assert(""@ =~= Seq::<char>::empty());
    let first: Option<&Json> = match value.get("proxies") {
        Some(Json::Array(a)) => if a.len() > 0 {
            Some(&a[0])
        } else {
            None
        },
        _ => None,
    };
    let p: &Json = match first {
        Some(x) => x,
        None => value,
    };
    assert(p@ == created_proxy(value@));
    let id = match member_text_exec(p, "id") {
        Some(t) => t,
        None => String::from_str(""),
    };
    let link = match member_text_exec(p, "link") {
        Some(t) => t,
        None => String::from_str(""),
    };
    if link.as_str().unicode_len() == 0 || id.as_str().unicode_len() == 0 {
        return None;
    }
    let parsed = crate::urls::parse_url(link.as_str());
    let name = match crate::profiles::extract_vless_name(link.as_str()) {
        Some(n) => n,
        None => match &server.name {
            Some(n) => n.clone(),
            None => match member_text_exec(p, "domain") {
                Some(d) => d,
                None => String::from_str("VPN"),
            },
        },
    };
    let host = match member_text_exec(p, "domain") {
        Some(d) => d,
        None => match &parsed {
            Ok(u) => match &u.host {
                Some(h) => h.clone(),
                None => String::from_str("unknown"),
            },
            Err(_) => String::from_str("unknown"),
        },
    };
    let url_port: u16 = match &parsed {
        Ok(u) => match u.port {
            Some(q) => q,
            None => 443,
        },
        Err(_) => 443,
    };
    let port: u16 = match p.get("port") {
        Some(x) => match x.as_u64() {
            Some(n) => (n % 65536) as u16,
            None => url_port,
        },
        None => url_port,
    };
    Some(
        AutoCreateProfileResponse {
            id,
            link,
            name,
            server: host,
            port,
            protocol: String::from_str("vless"),
        },
    )
}

/// What a payment creation reply says: the payment id (`payment_id`, else
/// `id`), the id, the payment page and the status, each when a string.
pub fn payment_from_reply(value: &Json) -> (r: CreatePaymentResponse)
    ensures
        opt_view(r.payment_id) == (match member_text(value@, "payment_id"@) {
            Some(t) => Some(t),
            None => member_text(value@, "id"@),
        }),
        opt_view(r.id) == member_text(value@, "id"@),
        opt_view(r.payment_url) == member_text(value@, "payment_url"@),
        opt_view(r.status) == member_text(value@, "status"@),
{
    let payment_id = match member_text_exec(value, "payment_id") {
        Some(t) => Some(t),
        None => member_text_exec(value, "id"),
    };
    CreatePaymentResponse {
        payment_id,
        id: member_text_exec(value, "id"),
        payment_url: member_text_exec(value, "payment_url"),
        status: member_text_exec(value, "status"),
    }
}

/// What a payment status reply says: the status and the payment id, each
/// when a string.
pub fn payment_status_from_reply(value: &Json) -> (r: PaymentStatusResponse)
    ensures
        opt_view(r.status) == member_text(value@, "status"@),
        opt_view(r.payment_id) == member_text(value@, "payment_id"@),
{
    PaymentStatusResponse {
        status: member_text_exec(value, "status"),
        payment_id: member_text_exec(value, "payment_id"),
    }
}

/// The query of a transaction history request.
pub fn transaction_query(page: u32, per_page: u32) -> (r: Vec<(String, String)>)
    ensures
        r@.len() == 2,
        r@[0].0@ == "page"@ && r@[0].1@ == decimal(page as nat),
        r@[1].0@ == "per_page"@ && r@[1].1@ == decimal(per_page as nat),
{
    let mut v: Vec<(String, String)> = Vec::new();
    v.push((String::from_str("page"), u64_to_string(page as u64)));
    v.push((String::from_str("per_page"), u64_to_string(per_page as u64)));
    v
}

/// How a reply of the user API is read: an error status gives the status and
/// the body, else the body must be JSON.
pub open spec fn json_response_spec(status_ok: bool, status: Seq<char>, body: Seq<char>, context: Seq<char>) -> Result<
    JsonV,
    Seq<char>,
> {
    if !status_ok {
        Err("Server returned error code: "@ + status + ": "@ + body)
    } else {
        match json_text_parse(body) {
            Ok(v) => Ok(v),
            Err(e) => Err("Failed parse "@ + context + " JSON: "@ + e),
        }
    }
}

/// The JSON value of a reply of the user API whose status is `status`
/// (success or not as `status_ok` says) and whose body is `body`; `context`
/// names the request in the error.
pub fn json_response(status_ok: bool, status: &str, body: &str, context: &str) -> (r: Result<Json, String>)
    ensures
        match r {
            Ok(j) => json_response_spec(status_ok, status@, body@, context@) == Ok::<JsonV, Seq<char>>(j@),
            Err(e) => json_response_spec(status_ok, status@, body@, context@) == Err::<JsonV, Seq<char>>(e@),
        },
{
    if !status_ok {
        let a = join("Server returned error code: ", status);
        let b = join(a.as_str(), ": ");
        return Err(join(b.as_str(), body));
    }
    match parse_json(body) {
        Ok(v) => Ok(v),
        Err(e) => {
            let a = join("Failed parse ", context);
            let b = join(a.as_str(), " JSON: ");
            Err(join(b.as_str(), e.as_str()))
        },
    }
}

} // verus!
