use proxudesktop::api::{
    choose_profile_target, parse_vpn_value, profile_target_at, payment_from_reply, payment_status_from_reply, profile_from_reply,
    profile_request_body, server_id_text, transaction_query, vless_candidates, ApiVpnConfig, PaymentStatusResponse,
    VpnInbound, VpnServer,
};
use proxudesktop::json::{arr1, obj1, obj2, obj3, Json, JsonNumber};

fn s(t: &str) -> Json {
    Json::string(t)
}

fn n(v: u64) -> Json {
    Json::unsigned(v)
}

#[test]
fn parse_vpn_array_response() {
    let reply = arr1(obj3("id", s("vpn_1"), "server_id", n(7), "link", s("vless://user@example.com:443")));
    let parsed = parse_vpn_value(&reply);

    assert_eq!(parsed.len(), 1);
    assert_eq!(parsed[0].id, s("vpn_1"));
    assert_eq!(parsed[0].server_id, Some(n(7)));
    assert_eq!(parsed[0].link.as_deref(), Some("vless://user@example.com:443"));
}

#[test]
fn parse_vpn_object_with_vpns_array() {
    let reply = obj1("vpns", arr1(obj2("vpn_id", s("vpn_2"), "config", s("vmess://encoded"))));
    let parsed = parse_vpn_value(&reply);

    assert_eq!(parsed.len(), 1);
    assert_eq!(parsed[0].vpn_id, Some(s("vpn_2")));
    assert_eq!(parsed[0].config.as_deref(), Some("vmess://encoded"));
}

#[test]
fn parse_vpn_data_array_response() {
    let reply = obj1("data", arr1(obj2("id", n(3), "link", s("vless://user@example.net:8443"))));
    let parsed = parse_vpn_value(&reply);

    assert_eq!(parsed.len(), 1);
    assert_eq!(parsed[0].id, n(3));
}

#[test]
fn parse_single_vpn_object_response() {
    let reply = obj2("id", s("vpn_4"), "link", s("vless://user@example.org:443"));
    let parsed = parse_vpn_value(&reply);

    assert_eq!(parsed.len(), 1);
    assert_eq!(parsed[0].id, s("vpn_4"));
}

#[test]
fn vpn_list_under_vpn_member() {
    let reply = obj1("vpn", Json::Array(vec![obj1("id", s("a")), obj1("id", s("b"))]));
    let parsed = parse_vpn_value(&reply);
    assert_eq!(parsed.len(), 2);
    assert_eq!(parsed[1].id, s("b"));
}

#[test]
fn vpn_item_with_wrong_text_field_is_skipped() {
    let reply = Json::Array(vec![obj1("link", n(5)), obj1("id", s("ok"))]);
    let parsed = parse_vpn_value(&reply);
    assert_eq!(parsed.len(), 1);
    assert_eq!(parsed[0].id, s("ok"));
}

#[test]
fn vpn_item_without_id_has_null_id() {
    let parsed = parse_vpn_value(&obj1("host", s("h")));
    assert_eq!(parsed.len(), 1);
    assert_eq!(parsed[0].id, Json::Null);
    assert_eq!(parsed[0].host.as_deref(), Some("h"));
}

#[test]
fn vpn_item_with_duplicate_field_is_skipped() {
    let item = Json::Object(vec![("id".to_string(), s("x")), ("id".to_string(), s("y"))]);
    assert_eq!(parse_vpn_value(&Json::Array(vec![item])).len(), 0);
}

#[test]
fn vpn_item_as_positional_array() {
    let item = Json::Array(vec![s("pid"), Json::Null, n(9), s("vless")]);
    let parsed = parse_vpn_value(&Json::Array(vec![item]));
    assert_eq!(parsed.len(), 1);
    assert_eq!(parsed[0].id, s("pid"));
    assert_eq!(parsed[0].server_id, Some(n(9)));
    assert_eq!(parsed[0].protocol.as_deref(), Some("vless"));
}

#[test]
fn scalar_vpn_reply_has_no_items() {
    assert_eq!(parse_vpn_value(&s("nothing")).len(), 0);
    assert_eq!(parse_vpn_value(&Json::Null).len(), 0);
}

#[test]
fn from_json_reads_object() {
    let c = ApiVpnConfig::from_json(&obj2("id", n(1), "port", s("443"))).unwrap();
    assert_eq!(c.id, n(1));
    assert_eq!(c.port, Some(s("443")));
    assert!(ApiVpnConfig::from_json(&Json::Bool(true)).is_none());
}

fn server(id: Json, name: Option<&str>) -> VpnServer {
    VpnServer { id, name: name.map(|x| x.to_string()), location: None, ip: None }
}

fn inbound(id: i64, protocol: &str) -> VpnInbound {
    VpnInbound { id, protocol: Some(protocol.to_string()), port: Some(443), remark: None }
}

#[test]
fn server_id_text_of_number_and_string() {
    assert_eq!(server_id_text(&n(12)).as_deref(), Some("12"));
    assert_eq!(server_id_text(&Json::signed(-3)).as_deref(), Some("-3"));
    assert_eq!(server_id_text(&s("abc")).as_deref(), Some("abc"));
    assert_eq!(server_id_text(&Json::Null), None);
}

#[test]
fn vless_candidates_keep_vless_inbounds_of_named_servers() {
    let servers = vec![server(n(1), Some("a")), server(Json::Null, Some("b")), server(s("s3"), None)];
    let inbounds = vec![
        vec![inbound(10, "VLESS"), inbound(11, "vmess")],
        vec![inbound(20, "vless")],
        vec![inbound(30, "vless")],
    ];
    let c = vless_candidates(&servers, &inbounds);
    assert_eq!(c.len(), 2);
    assert_eq!(c[0].1.id, 10);
    assert_eq!(c[1].1.id, 30);
}

#[test]
fn choose_profile_target_errors() {
    let e = choose_profile_target(&vec![], &vec![]).unwrap_err();
    assert_eq!(e, "No VPN servers available");
    let e = choose_profile_target(&vec![server(n(1), None)], &vec![vec![inbound(1, "trojan")]]).unwrap_err();
    assert_eq!(e, "No available VLESS inbounds found on any server");
}

#[test]
fn choose_profile_target_picks_a_vless_inbound() {
    let servers = vec![server(n(1), None), server(n(2), None)];
    let inbounds = vec![vec![inbound(5, "vless")], vec![inbound(6, "vless"), inbound(7, "vmess")]];
    for _ in 0..20 {
        let (sv, ib) = choose_profile_target(&servers, &inbounds).unwrap();
        assert!(ib.id == 5 || ib.id == 6);
        assert_eq!(sv.id, if ib.id == 5 { n(1) } else { n(2) });
    }
}

#[test]
fn profile_request_body_names_server_and_inbound() {
    let body = profile_request_body(&server(n(4), None), &inbound(9, "vless"));
    assert_eq!(body.index("type"), s("vpn"));
    assert_eq!(body.index("quantity"), n(1));
    assert_eq!(body.index("xui_server_id"), n(4));
    assert_eq!(body.index("xui_inbound_id"), Json::Number(JsonNumber::PosInt(9)));
}

#[test]
fn profile_from_reply_in_proxies_array() {
    let proxy = obj3("id", s("p1"), "link", s("vless://u@host.example:8443#My%20VPN"), "domain", s("dom.example"));
    let reply = obj1("proxies", arr1(proxy));
    let p = profile_from_reply(&reply, &server(n(1), Some("Server A"))).unwrap();
    assert_eq!(p.id, "p1");
    assert_eq!(p.name, "My VPN");
    assert_eq!(p.server, "dom.example");
    assert_eq!(p.port, 8443);
    assert_eq!(p.protocol, "vless");
}

#[test]
fn profile_from_reply_defaults() {
    let reply = obj2("id", s("p2"), "link", s("vless://u@link.example"));
    let p = profile_from_reply(&reply, &server(n(1), Some("Server A"))).unwrap();
    assert_eq!(p.name, "Server A");
    assert_eq!(p.server, "link.example");
    assert_eq!(p.port, 443);
    let p = profile_from_reply(&obj3("id", s("p3"), "link", s("vless://u@x.example"), "port", n(70000)), &server(n(1), None)).unwrap();
    assert_eq!(p.name, "VPN");
    assert_eq!(p.port, 70000u64 as u16);
}

#[test]
fn profile_from_incomplete_reply() {
    assert!(profile_from_reply(&obj1("id", s("p")), &server(n(1), None)).is_none());
    assert!(profile_from_reply(&obj2("id", s(""), "link", s("vless://a@b")), &server(n(1), None)).is_none());
}

#[test]
fn payment_reply_fields() {
    let r = payment_from_reply(&obj3("id", s("i1"), "payment_url", s("https://pay"), "status", s("pending")));
    assert_eq!(r.payment_id.as_deref(), Some("i1"));
    assert_eq!(r.id.as_deref(), Some("i1"));
    assert_eq!(r.payment_url.as_deref(), Some("https://pay"));
    assert_eq!(r.status.as_deref(), Some("pending"));
    let r = payment_from_reply(&obj2("payment_id", s("p9"), "id", n(3)));
    assert_eq!(r.payment_id.as_deref(), Some("p9"));
    assert_eq!(r.id, None);
}

#[test]
fn payment_status_reply_fields() {
    let r: PaymentStatusResponse = payment_status_from_reply(&obj2("status", s("succeeded"), "payment_id", s("x")));
    assert_eq!(r.status.as_deref(), Some("succeeded"));
    assert_eq!(r.payment_id.as_deref(), Some("x"));
    let r = payment_status_from_reply(&Json::Null);
    assert_eq!(r.status, None);
}

#[test]
fn transaction_query_pairs() {
    let q = transaction_query(2, 50);
    assert_eq!(q, vec![("page".to_string(), "2".to_string()), ("per_page".to_string(), "50".to_string())]);
}

#[test]
fn profile_target_at_takes_the_drawn_inbound() {
    let servers = vec![server(n(1), None), server(n(2), None)];
    let inbounds = vec![vec![inbound(5, "vless"), inbound(8, "vmess")], vec![inbound(6, "VLESS"), inbound(7, "vless")]];
    let (sv, ib) = profile_target_at(&servers, &inbounds, 0).unwrap();
    assert_eq!((sv.id, ib.id), (n(1), 5));
    let (sv, ib) = profile_target_at(&servers, &inbounds, 2).unwrap();
    assert_eq!((sv.id, ib.id), (n(2), 7));
    assert_eq!(profile_target_at(&vec![], &vec![], 0).unwrap_err(), "No VPN servers available");
    assert_eq!(
        profile_target_at(&vec![server(n(1), None)], &vec![vec![inbound(1, "trojan")]], 0).unwrap_err(),
        "No available VLESS inbounds found on any server"
    );
}
