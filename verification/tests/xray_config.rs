use base64::Engine;
use proxudesktop::config::AppConfig;
use proxudesktop::json::Json;
use proxudesktop::xray::{generate_xray_config, link_outbound, normalize_network, parse_vless_link, parse_vmess_link, query_value};

fn at(j: &Json, i: usize) -> Json {
    match j {
        Json::Array(a) => a[i].copy(),
        _ => Json::Null,
    }
}

fn len(j: &Json) -> usize {
    match j {
        Json::Array(a) => a.len(),
        _ => 0,
    }
}

fn s(t: &str) -> Json {
    Json::string(t)
}

fn vmess(json_text: &str) -> String {
    format!("vmess://{}", base64::engine::general_purpose::STANDARD.encode(json_text))
}

#[test]
fn vless_reality_uses_current_xray_password_field() {
    let app_config = AppConfig::default();
    let json = generate_xray_config(
        "vless://00000000-0000-0000-0000-000000000000@example.com:443?security=reality&type=tcp&sni=example.com&fp=chrome&pbk=public_key&sid=abcdef&spx=%2F&flow=xtls-rprx-vision",
        &app_config,
    )
    .unwrap();

    let proxy = at(&json.index("outbounds"), 0);
    let stream = proxy.index("streamSettings");
    let reality = stream.index("realitySettings");

    assert_eq!(stream.index("network"), s("raw"));
    assert_eq!(reality.index("password"), s("public_key"));
    assert!(reality.get("publicKey").is_none());
    assert_eq!(proxy.index("tag"), s("proxy"));
}

#[test]
fn vless_outbound_fields() {
    let o = parse_vless_link("vless://uid@srv.example:8443?type=ws&security=tls&path=%2Fws&host=cdn.example#Name").unwrap();
    assert_eq!(o.index("protocol"), s("vless"));
    let vnext = at(&o.index("settings").index("vnext"), 0);
    assert_eq!(vnext.index("address"), s("srv.example"));
    assert_eq!(vnext.index("port"), Json::unsigned(8443));
    let user = at(&vnext.index("users"), 0);
    assert_eq!(user.index("id"), s("uid"));
    assert_eq!(user.index("encryption"), s("none"));
    assert_eq!(user.index("flow"), s(""));
    let stream = o.index("streamSettings");
    assert_eq!(stream.index("network"), s("websocket"));
    assert_eq!(stream.index("security"), s("tls"));
    let tls = stream.index("tlsSettings");
    assert_eq!(tls.index("serverName"), s("cdn.example"));
    assert_eq!(tls.index("fingerprint"), s("chrome"));
    assert_eq!(stream.index("wsSettings").index("path"), s("/ws"));
    assert_eq!(stream.index("wsSettings").index("headers").index("Host"), s("cdn.example"));
}

#[test]
fn vless_grpc_and_defaults() {
    let o = parse_vless_link("vless://uid@g.example?type=grpc&serviceName=svc").unwrap();
    let stream = o.index("streamSettings");
    assert_eq!(stream.index("network"), s("grpc"));
    assert_eq!(stream.index("security"), s("none"));
    assert_eq!(stream.index("grpcSettings").index("serviceName"), s("svc"));
    let vnext = at(&o.index("settings").index("vnext"), 0);
    assert_eq!(vnext.index("port"), Json::unsigned(443));
}

#[test]
fn vless_errors() {
    assert_eq!(parse_vless_link("http://a@b").unwrap_err(), "Not VLESS link");
    assert_eq!(parse_vless_link("vless:opaque").unwrap_err(), "VLESS URL missing host");
    assert!(parse_vless_link("vless://[zz").unwrap_err().starts_with("Invalid VLESS URL: "));
}

#[test]
fn vmess_outbound_fields() {
    let link = vmess(r#"{"add":"v.example","port":"2096","id":"vid","net":"ws","path":"/p","tls":"tls","sni":"sni.example"}"#);
    let o = parse_vmess_link(&link).unwrap();
    assert_eq!(o.index("protocol"), s("vmess"));
    let vnext = at(&o.index("settings").index("vnext"), 0);
    assert_eq!(vnext.index("address"), s("v.example"));
    assert_eq!(vnext.index("port"), Json::unsigned(2096));
    let user = at(&vnext.index("users"), 0);
    assert_eq!(user.index("id"), s("vid"));
    assert_eq!(user.index("security"), s("auto"));
    let stream = o.index("streamSettings");
    assert_eq!(stream.index("network"), s("websocket"));
    assert_eq!(stream.index("security"), s("tls"));
    assert_eq!(stream.index("tlsSettings").index("serverName"), s("sni.example"));
    assert_eq!(stream.index("wsSettings").index("headers").index("Host"), s("sni.example"));
}

#[test]
fn vmess_unpadded_url_safe_payload() {
    let text = r#"{"add":"u.example","port":443,"id":"x?y>"}"#;
    let b64 = base64::engine::general_purpose::URL_SAFE_NO_PAD.encode(text);
    let o = parse_vmess_link(&format!("vmess://{}\n", b64)).unwrap();
    let vnext = at(&o.index("settings").index("vnext"), 0);
    assert_eq!(vnext.index("address"), s("u.example"));
    assert_eq!(vnext.index("port"), Json::unsigned(443));
    assert_eq!(o.index("streamSettings").index("security"), s("none"));
    assert_eq!(o.index("streamSettings").index("network"), s("raw"));
}

#[test]
fn vmess_errors() {
    assert_eq!(parse_vmess_link("vless://a@b").unwrap_err(), "Not VMess link");
    assert!(parse_vmess_link("vmess://!!!!").unwrap_err().starts_with("VMess base64 decode failed: "));
    assert!(parse_vmess_link(&vmess("not json")).unwrap_err().starts_with("VMess JSON parse failed: "));
    let raw = base64::engine::general_purpose::STANDARD.encode([0xffu8, 0xfe, 0x41]);
    assert!(parse_vmess_link(&format!("vmess://{}", raw)).unwrap_err().starts_with("VMess link not UTF-8: "));
    assert_eq!(parse_vmess_link(&vmess(r#"{"id":"x"}"#)).unwrap_err(), "VMess JSON missing add field");
    assert_eq!(parse_vmess_link(&vmess(r#"{"add":"a"}"#)).unwrap_err(), "VMess JSON missing field");
}

#[test]
fn unsupported_link() {
    assert_eq!(link_outbound("trojan://x").unwrap_err(), "Unsupported proxy protocol link. MVP supports VLESS VMess.");
    assert!(generate_xray_config("ss://x", &AppConfig::default()).is_err());
}

#[test]
fn config_outbounds_with_fragment_and_mux() {
    let mut cfg = AppConfig::default();
    cfg.fragment_enabled = true;
    cfg.mux_enabled = true;
    cfg.mux_concurrency = 4;
    cfg.allow_insecure = true;
    let doc = generate_xray_config("vless://u@h.example:443?security=tls", &cfg).unwrap();
    let obs = doc.index("outbounds");
    assert_eq!(len(&obs), 3);
    let proxy = at(&obs, 0);
    assert_eq!(proxy.index("tag"), s("proxy"));
    assert_eq!(proxy.index("mux").index("enabled"), Json::Bool(true));
    assert_eq!(proxy.index("mux").index("concurrency"), Json::signed(4));
    assert_eq!(proxy.index("streamSettings").index("tlsSettings").index("allowInsecure"), Json::Bool(true));
    assert_eq!(proxy.index("streamSettings").index("sockopt").index("dialerProxy"), s("fragment"));
    assert_eq!(at(&obs, 1).index("tag"), s("fragment"));
    assert_eq!(at(&obs, 1).index("settings").index("packets"), s("tlshello"));
    assert_eq!(at(&obs, 2).index("tag"), s("direct"));
}

#[test]
fn config_outbounds_plain() {
    let doc = generate_xray_config("vless://u@h.example", &AppConfig::default()).unwrap();
    let obs = doc.index("outbounds");
    assert_eq!(len(&obs), 2);
    assert_eq!(at(&obs, 0).index("tag"), s("proxy"));
    assert_eq!(at(&obs, 0).get("mux"), None);
    assert_eq!(at(&obs, 1).index("protocol"), s("freedom"));
}

#[test]
fn config_inbounds_and_dns() {
    let mut cfg = AppConfig::default();
    cfg.socks_username = "alice".to_string();
    cfg.socks_password = "secret".to_string();
    cfg.local_dns_enabled = true;
    cfg.remote_dns = " 1.1.1.1 , ,8.8.8.8".to_string();
    cfg.domestic_dns = "".to_string();
    let doc = generate_xray_config("vless://u@h.example", &cfg).unwrap();
    let inb = doc.index("inbounds");
    assert_eq!(len(&inb), 3);
    let socks = at(&inb, 0);
    assert_eq!(socks.index("port"), Json::unsigned(cfg.socks_port as u64));
    assert_eq!(socks.index("settings").index("auth"), s("password"));
    let acct = at(&socks.index("settings").index("accounts"), 0);
    assert_eq!(acct.index("user"), s("alice"));
    assert_eq!(acct.index("pass"), s("secret"));
    assert_eq!(at(&inb, 1).index("protocol"), s("http"));
    assert_eq!(at(&inb, 2).index("port"), Json::unsigned(10085));
    let servers = doc.index("dns").index("servers");
    assert_eq!(len(&servers), 2);
    assert_eq!(at(&servers, 0), s("1.1.1.1"));
    assert_eq!(at(&servers, 1), s("8.8.8.8"));
    assert_eq!(doc.index("log").index("loglevel"), s("warning"));
}

#[test]
fn config_without_dns_servers_has_no_dns() {
    let mut cfg = AppConfig::default();
    cfg.local_dns_enabled = true;
    cfg.remote_dns = " , ".to_string();
    cfg.domestic_dns = String::new();
    let doc = generate_xray_config("vless://u@h.example", &cfg).unwrap();
    assert!(doc.get("dns").is_none());
}

#[test]
fn network_names() {
    assert_eq!(normalize_network("tcp"), "raw");
    assert_eq!(normalize_network("ws"), "websocket");
    assert_eq!(normalize_network("kcp"), "mkcp");
    assert_eq!(normalize_network("grpc"), "grpc");
    for n in ["tcp", "ws", "kcp", "raw", "h2"] {
        assert_eq!(normalize_network(&normalize_network(n)), normalize_network(n));
    }
}

#[test]
fn query_values_take_last_and_skip_empty() {
    let q = vec![
        ("sni".to_string(), "".to_string()),
        ("peer".to_string(), "p1".to_string()),
        ("peer".to_string(), "p2".to_string()),
    ];
    assert_eq!(query_value(&q, &["sni", "peer"]).as_deref(), Some("p2"));
    assert_eq!(query_value(&q, &["host"]), None);
}

#[test]
fn vless_upper_case_settings() {
    let o = parse_vless_link("vless://u@h.example?security=TLS&type=WS").unwrap();
    let stream = o.index("streamSettings");
    assert_eq!(stream.index("security"), s("tls"));
    assert_eq!(stream.index("network"), s("websocket"));
    assert!(stream.get("tlsSettings").is_some());
}
