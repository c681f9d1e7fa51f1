use proxudesktop::json::{arr1, obj1, obj2, Json};
use proxudesktop::setup::{
    asset_download_url, get_xray_bin_path, gsettings_commands, reg_commands, release_download_url,
    target_xray_asset_name, validation_failure_message,
};
use proxudesktop::traffic::{has_socket_traffic, ss_traffic_totals, traffic_from_stats, traffic_from_stats_body, TrafficStatsResponse};

#[test]
fn asset_names_per_platform() {
    assert_eq!(target_xray_asset_name("linux", "x86_64").unwrap(), "Xray-linux-64.zip");
    assert_eq!(target_xray_asset_name("linux", "i686").unwrap(), "Xray-linux-32.zip");
    assert_eq!(target_xray_asset_name("linux", "x86").unwrap(), "Xray-linux-32.zip");
    assert_eq!(target_xray_asset_name("linux", "aarch64").unwrap(), "Xray-linux-arm64-v8a.zip");
    assert_eq!(target_xray_asset_name("windows", "x86_64").unwrap(), "Xray-windows-64.zip");
    assert_eq!(target_xray_asset_name("windows", "x86").unwrap(), "Xray-windows-32.zip");
    assert_eq!(
        target_xray_asset_name("macos", "aarch64").unwrap_err(),
        "Unsupported platform for bundled Xray: macos-aarch64"
    );
}

fn asset(name: &str, url: Option<&str>) -> Json {
    match url {
        Some(u) => obj2("name", Json::string(name), "browser_download_url", Json::string(u)),
        None => obj1("name", Json::string(name)),
    }
}

#[test]
fn asset_url_first_match() {
    let release = obj1(
        "assets",
        Json::Array(vec![
            asset("Xray-linux-32.zip", Some("https://x/32")),
            asset("Xray-linux-64.zip", Some("https://x/64")),
            asset("Xray-linux-64.zip", Some("https://x/64-second")),
        ]),
    );
    assert_eq!(asset_download_url(&release, "Xray-linux-64.zip").unwrap(), "https://x/64");
}

#[test]
fn asset_url_errors() {
    let release = obj1("assets", arr1(asset("Xray-linux-64.zip", None)));
    assert_eq!(
        asset_download_url(&release, "Xray-linux-64.zip").unwrap_err(),
        "Asset Xray-linux-64.zip missing browser_download_url"
    );
    assert_eq!(
        asset_download_url(&release, "Xray-windows-64.zip").unwrap_err(),
        "Xray asset not found in latest release: Xray-windows-64.zip"
    );
    assert_eq!(
        asset_download_url(&obj1("tag_name", Json::string("v1")), "a").unwrap_err(),
        "Xray release response missing assets array"
    );
}

#[test]
fn release_text() {
    let body = r#"{"assets":[{"name":"a.zip","browser_download_url":"https://d/a.zip"}]}"#;
    assert_eq!(release_download_url(body, "a.zip").unwrap(), "https://d/a.zip");
    assert!(release_download_url("{oops", "a.zip").unwrap_err().starts_with("Failed to parse Xray release JSON: "));
}

#[test]
fn validation_message() {
    assert_eq!(
        validation_failure_message("  bad config \n", "  \n"),
        "Xray config validation failed: bad config"
    );
    assert_eq!(
        validation_failure_message("err", " detail "),
        "Xray config validation failed: err\ndetail"
    );
}

#[test]
fn xray_binary_paths() {
    assert_eq!(get_xray_bin_path("/home/u/.local/share/proxudesktop/xray", "linux"), "/home/u/.local/share/proxudesktop/xray/xray");
    assert_eq!(get_xray_bin_path("/data/", "linux"), "/data/xray");
    assert_eq!(get_xray_bin_path("C:\\Data\\xray", "windows"), "C:\\Data\\xray\\xray.exe");
    assert_eq!(get_xray_bin_path("", "linux"), "xray");
}

#[test]
fn gnome_proxy_commands() {
    let on = gsettings_commands(true, 10808, 10809);
    assert_eq!(on.len(), 7);
    assert_eq!(on[0], vec!["set", "org.gnome.system.proxy", "mode", "manual"]);
    assert_eq!(on[2], vec!["set", "org.gnome.system.proxy.http", "port", "10809"]);
    assert_eq!(on[6], vec!["set", "org.gnome.system.proxy.socks", "port", "10808"]);
    let off = gsettings_commands(false, 1, 2);
    assert_eq!(off, vec![vec!["set", "org.gnome.system.proxy", "mode", "none"]]);
}

#[test]
fn windows_proxy_commands() {
    let key = "HKCU\\Software\\Microsoft\\Windows\\CurrentVersion\\Internet Settings";
    let on = reg_commands(true, 8080);
    assert_eq!(on.len(), 2);
    assert_eq!(on[0], vec!["add", key, "/v", "ProxyEnable", "/t", "REG_DWORD", "/d", "1", "/f"]);
    assert_eq!(on[1], vec!["add", key, "/v", "ProxyServer", "/t", "REG_SZ", "/d", "127.0.0.1:8080", "/f"]);
    let off = reg_commands(false, 8080);
    assert_eq!(off.len(), 1);
    assert_eq!(off[0][7], "0");
}

const SS_OUTPUT: &str = "State Recv-Q Send-Q Local Address:Port Peer Address:Port\n\
ESTAB 0 0 127.0.0.1:10808 127.0.0.1:51000\n\
\t cubic wscale:7,7 bytes_sent:100 bytes_acked:100 bytes_received:40 segs_out:3\n\
ESTAB 0 0 127.0.0.1:51000 127.0.0.1:10808\n\
\t cubic bytes_sent:999 bytes_received:999\n\
ESTAB 0 0 [::1]:10809 [::1]:40000\r\n\
\t bytes_sent:5 bytes_received:7 bytes_received:1\r\n";

#[test]
fn socket_traffic_counts_proxy_listeners_only() {
    let t = ss_traffic_totals(SS_OUTPUT);
    assert_eq!(t.in_bytes, 40 + 7 + 1);
    assert_eq!(t.out_bytes, 100 + 5);
    assert!(has_socket_traffic(&t));
}

#[test]
fn socket_traffic_needs_counter_line_right_after() {
    let out = "ESTAB 0 0 1.2.3.4:10808 5.6.7.8:1\nnothing here\n bytes_sent:10 bytes_received:20\nESTAB 0 0 x:1 y:2\n bytes_sent:3\n";
    let t = ss_traffic_totals(out);
    assert_eq!((t.in_bytes, t.out_bytes), (20, 10));
    let t = ss_traffic_totals("");
    assert!(!has_socket_traffic(&t));
    let t = ss_traffic_totals("ESTAB 0 0 a:10808\n bytes_sent:5\n");
    assert_eq!((t.in_bytes, t.out_bytes), (0, 0));
}

#[test]
fn socket_traffic_wraps_around() {
    let out = "ESTAB 0 0 a:10808 b:1\n bytes_sent:18446744073709551615\nESTAB 0 0 a:10809 b:2\n bytes_sent:1\n";
    let t = ss_traffic_totals(out);
    assert_eq!((t.in_bytes, t.out_bytes), (0, 0));
    let out = "ESTAB 0 0 a:10808 b:1\n bytes_sent:18446744073709551615 bytes_sent:5 bytes_received:9\n";
    let t = ss_traffic_totals(out);
    assert_eq!((t.in_bytes, t.out_bytes), (9, 4));
    let out = "ESTAB 0 0 a:10808 b:1\n bytes_sent:18446744073709551616 bytes_received:x\n";
    let t = ss_traffic_totals(out);
    assert_eq!((t.in_bytes, t.out_bytes), (0, 0));
}

#[test]
fn stats_api_counters() {
    let reply = obj1(
        "stat",
        Json::Array(vec![
            obj2("name", Json::string("outbound>>>proxy>>>traffic>>>downlink"), "value", Json::unsigned(500)),
            obj2("name", Json::string("outbound>>>proxy>>>traffic>>>uplink"), "value", Json::unsigned(70)),
            obj1("name", Json::string("outbound>>>proxy>>>traffic>>>uplink")),
        ]),
    );
    let t: TrafficStatsResponse = traffic_from_stats(&reply);
    assert_eq!(t.in_bytes, 500);
    assert_eq!(t.out_bytes, 0);
    let t = traffic_from_stats_body(r#"{"stat":[{"name":"x>>>downlink","value":12},{"name":"y>>>uplink","value":"3"}]}"#);
    assert_eq!((t.in_bytes, t.out_bytes), (12, 0));
    let t = traffic_from_stats_body("not json");
    assert_eq!((t.in_bytes, t.out_bytes), (0, 0));
    let t = traffic_from_stats(&obj1("stat", Json::Null));
    assert_eq!((t.in_bytes, t.out_bytes), (0, 0));
}
