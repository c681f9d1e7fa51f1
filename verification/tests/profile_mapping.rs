use proxudesktop::api::{ApiResponseProxy, ApiVpnConfig};
use proxudesktop::config::{AppConfig, ProxyConfig};
use proxudesktop::json::Json;
use proxudesktop::profiles::{
    assemble_profiles, extract_vless_name, is_supported_link, merge_user_vpns, normalize_vpn_id, plan_api_proxy,
    proxy_from_vpn_config, store_profile, store_profiles, value_to_string, value_to_u16, ProxyPlan,
};

fn vpn(id: Json, link: Option<&str>) -> ApiVpnConfig {
    ApiVpnConfig {
        id,
        vpn_id: None,
        server_id: None,
        protocol: None,
        host: None,
        port: None,
        link: link.map(|l| l.to_string()),
        config: None,
        connection_string: None,
    }
}

fn listed(id: &str, link: Option<&str>) -> ApiResponseProxy {
    ApiResponseProxy {
        id: id.to_string(),
        ip: None,
        domain: None,
        port: Json::Null,
        protocol: None,
        link: link.map(|l| l.to_string()),
        connection_string: None,
        name: None,
        remarks: None,
    }
}

fn profile(id: &str) -> ProxyConfig {
    ProxyConfig {
        id: id.to_string(),
        name: id.to_string(),
        server: "s".to_string(),
        port: 1,
        protocol: "vless".to_string(),
        link: None,
    }
}

#[test]
fn proxy_from_vpn_config_keeps_server_proxy_id() {
    let vpn = ApiVpnConfig {
        id: Json::string("vpn_mpdh7fxpok38cw0"),
        vpn_id: None,
        server_id: None,
        protocol: Some("vless".to_string()),
        host: Some("lukjanow.ru".to_string()),
        port: Some(Json::string("8443")),
        link: Some("vless://user@lukjanow.ru:8443?security=reality".to_string()),
        config: None,
        connection_string: None,
    };

    let proxy = proxy_from_vpn_config("vpn_mpdh7fxpok38cw0", None, &vpn).unwrap();
    assert_eq!(proxy.id, "vpn_mpdh7fxpok38cw0");
    assert_eq!(proxy.server, "lukjanow.ru");
    assert_eq!(proxy.port, 8443);
    assert_eq!(proxy.protocol, "vless");
}

#[test]
fn vpn_profile_fallbacks() {
    let mut v = vpn(Json::Null, Some("vmess://[zz"));
    v.host = Some("h.example".to_string());
    v.port = Some(Json::unsigned(2053));
    v.vpn_id = Some(Json::unsigned(77));
    let p = proxy_from_vpn_config("hint", None, &v).unwrap();
    assert_eq!(p.id, "vpn_77");
    assert_eq!(p.server, "h.example");
    assert_eq!(p.port, 2053);
    assert_eq!(p.protocol, "vmess");
    assert_eq!(p.name, "VPN h.example");
    assert_eq!(p.link.as_deref(), Some("vmess://[zz"));

    let v = vpn(Json::string(""), Some("vless://u@a.example#Home%20Node"));
    let p = proxy_from_vpn_config("42", Some("hinted"), &v).unwrap();
    assert_eq!(p.id, "vpn_42");
    assert_eq!(p.name, "Home Node");
    assert_eq!(p.port, 443);
}

#[test]
fn vpn_profile_name_hint_and_unsupported_link() {
    let p = proxy_from_vpn_config("x", Some("node-1"), &vpn(Json::unsigned(5), Some("vless://u@b.example:80"))).unwrap();
    assert_eq!(p.name, "node-1");
    assert_eq!(p.id, "vpn_5");
    assert!(proxy_from_vpn_config("x", None, &vpn(Json::unsigned(5), Some("trojan://u@b"))).is_none());
    assert!(proxy_from_vpn_config("x", None, &vpn(Json::unsigned(5), None)).is_none());
}

#[test]
fn value_conversions() {
    assert_eq!(value_to_string(&Json::string("abc")).as_deref(), Some("abc"));
    assert_eq!(value_to_string(&Json::string("")), None);
    assert_eq!(value_to_string(&Json::signed(-4)).as_deref(), Some("-4"));
    assert_eq!(value_to_string(&Json::unsigned(u64::MAX)).as_deref(), Some("18446744073709551615"));
    assert_eq!(value_to_string(&Json::Bool(true)), None);
    assert_eq!(value_to_u16(&Json::unsigned(8080)), Some(8080));
    assert_eq!(value_to_u16(&Json::unsigned(70000)), None);
    assert_eq!(value_to_u16(&Json::string("+443")), Some(443));
    assert_eq!(value_to_u16(&Json::string("65536")), None);
    assert_eq!(value_to_u16(&Json::string("x1")), None);
}

#[test]
fn port_value_roundtrip_examples() {
    for p in [0u16, 1, 443, 8443, 65535] {
        assert_eq!(value_to_u16(&Json::unsigned(p as u64)), Some(p));
        assert_eq!(value_to_u16(&Json::string(&p.to_string())), Some(p));
    }
}

#[test]
fn supported_links_and_ids() {
    assert!(is_supported_link("vless://a@b"));
    assert!(is_supported_link("vmess://abc"));
    assert!(!is_supported_link("ss://abc"));
    assert_eq!(normalize_vpn_id("123"), "vpn_123");
    assert_eq!(normalize_vpn_id("vpn_123"), "vpn_123");
    assert_eq!(normalize_vpn_id(&normalize_vpn_id("7")), normalize_vpn_id("7"));
}

#[test]
fn vless_names() {
    assert_eq!(extract_vless_name("vless://u@h.example:443#%D0%9C%D0%BE%D1%81%D0%BA%D0%B2%D0%B0").as_deref(), Some("Москва"));
    assert_eq!(extract_vless_name("vless://u@h.example:443#%FF").as_deref(), Some("%FF"));
    assert_eq!(extract_vless_name("vless://u@h.example:443"), None);
    assert_eq!(extract_vless_name("not a url"), None);
    assert_eq!(extract_vless_name("vless://u@h.example#a%2Bb+c%").as_deref(), Some("a+b+c%"));
    assert_eq!(extract_vless_name("vless://u@h.example#%4G%41%4").as_deref(), Some("%4GA%4"));
    assert_eq!(extract_vless_name("vless://u@h.example#%e2%9c%93").as_deref(), Some("\u{2713}"));
}

#[test]
fn plans_for_listed_proxies() {
    let mut ap = listed("p1", Some("vless://u@x.example:443#Fast"));
    ap.port = Json::string("443");
    ap.ip = Some("1.2.3.4".to_string());
    match plan_api_proxy(&ap) {
        ProxyPlan::Ready(p) => {
            assert_eq!(p.id, "p1");
            assert_eq!(p.name, "Fast");
            assert_eq!(p.server, "1.2.3.4");
            assert_eq!(p.port, 443);
            assert_eq!(p.protocol, "vless");
        }
        _ => panic!("expected a ready profile"),
    }
    let mut ap = listed("p2", None);
    ap.connection_string = Some("vmess://zzz".to_string());
    ap.domain = Some("d.example".to_string());
    match plan_api_proxy(&ap) {
        ProxyPlan::Ready(p) => {
            assert_eq!(p.name, "Server d.example");
            assert_eq!(p.port, 0);
            assert_eq!(p.protocol, "vmess");
        }
        _ => panic!("expected a ready profile"),
    }
    match plan_api_proxy(&listed("p3", Some("vless://u@y"))) {
        ProxyPlan::Ready(p) => assert_eq!(p.name, "Proxy p3"),
        _ => panic!("expected a ready profile"),
    }
    let mut ap = listed("p4", None);
    ap.protocol = Some("VPN".to_string());
    ap.domain = Some("dom".to_string());
    match plan_api_proxy(&ap) {
        ProxyPlan::FetchVpnConfig { id, name_hint } => {
            assert_eq!(id, "p4");
            assert_eq!(name_hint.as_deref(), Some("dom"));
        }
        _ => panic!("expected a VPN fetch"),
    }
    assert!(matches!(plan_api_proxy(&listed("vpn_9", None)), ProxyPlan::FetchVpnConfig { .. }));
    assert!(matches!(plan_api_proxy(&listed("p5", Some("http://x"))), ProxyPlan::Skip));
}

#[test]
fn assembled_profiles_skip_duplicate_user_vpns() {
    let aps = vec![
        listed("vpn_1", None),
        listed("p2", Some("vless://u@two.example:2#Two")),
        listed("p3", Some("https://x")),
    ];
    let fetched = vec![Some(vpn(Json::string("vpn_1"), Some("vless://u@one.example:1#One"))), None, None];
    let user = Some(vec![
        vpn(Json::unsigned(1), Some("vless://u@dup.example")),
        vpn(Json::unsigned(9), Some("vless://u@nine.example#Nine")),
    ]);
    let list = assemble_profiles(&aps, &fetched, &user);
    let ids: Vec<&str> = list.iter().map(|p| p.id.as_str()).collect();
    assert_eq!(ids, vec!["vpn_1", "p2", "vpn_9"]);
    assert_eq!(list[0].name, "One");
    assert_eq!(list[2].name, "Nine");
}

#[test]
fn merge_user_vpns_keeps_list() {
    let mut list = vec![profile("vpn_3")];
    merge_user_vpns(&mut list, &vec![vpn(Json::unsigned(3), Some("vless://a@b")), vpn(Json::unsigned(4), Some("vless://a@c"))]);
    assert_eq!(list.len(), 2);
    assert_eq!(list[0].name, "vpn_3");
    assert_eq!(list[1].id, "vpn_4");
}

#[test]
fn stored_profiles_keep_or_reset_active() {
    let mut cfg = AppConfig::default();
    cfg.active_proxy_id = Some("b".to_string());
    store_profiles(&mut cfg, vec![profile("a"), profile("b")]);
    assert_eq!(cfg.active_proxy_id.as_deref(), Some("b"));
    store_profiles(&mut cfg, vec![profile("c")]);
    assert_eq!(cfg.active_proxy_id.as_deref(), Some("c"));
    assert_eq!(cfg.proxies.len(), 1);
    store_profiles(&mut cfg, vec![]);
    assert_eq!(cfg.active_proxy_id, None);
}

#[test]
fn stored_profile_balance_and_email() {
    let mut cfg = AppConfig::default();
    cfg.email = Some("old@example.com".to_string());
    store_profile(&mut cfg, &Json::string("12.50"), None, None);
    assert_eq!(cfg.balance.as_deref(), Some("12.50"));
    assert_eq!(cfg.email.as_deref(), Some("old@example.com"));
    store_profile(&mut cfg, &Json::signed(-5), None, Some("new@example.com".to_string()));
    assert_eq!(cfg.balance.as_deref(), Some("-5"));
    assert_eq!(cfg.email.as_deref(), Some("new@example.com"));
    store_profile(&mut cfg, &Json::Null, None, None);
    assert_eq!(cfg.balance.as_deref(), Some("0"));
    store_profile(&mut cfg, &Json::unsigned(3), Some("3".to_string()), None);
    assert_eq!(cfg.balance.as_deref(), Some("3"));
}
