use proxudesktop::service::{command_outcome, linux, spawn_failure, stub, windows, ServiceConfig, ServiceStatus, RoutingAction, RoutingRule};

#[test]
fn default_service_config() {
    let c = ServiceConfig::default();
    assert!(!c.enabled);
    assert_eq!(c.tun_interface, "tun0");
    assert_eq!(c.tun_ip, "10.10.0.2");
    assert_eq!(c.tun_gateway, "10.10.0.1");
    assert_eq!(c.tun_dns, vec!["1.1.1.1", "8.8.8.8"]);
    assert_eq!(c.tun_mtu, 1500);
    assert_eq!(c.bypass_apps, vec!["proxudesktop"]);
    assert!(c.routing_rules.is_empty());
}

#[test]
fn routing_rule_holds_action() {
    let r = RoutingRule { domain: Some("example.com".to_string()), ip_cidr: None, app_name: None, action: RoutingAction::Direct };
    assert_eq!(r.action, RoutingAction::Direct);
    assert_ne!(r.action, RoutingAction::Block);
}

#[test]
fn stub_refuses_everything() {
    let cfg = ServiceConfig::default();
    assert_eq!(stub::install_service(&cfg).unwrap_err(), "Service mode not supported on this platform");
    assert_eq!(stub::uninstall_service().unwrap_err(), "Service mode not supported on this platform");
    assert_eq!(stub::start_service().unwrap_err(), "Service mode not supported on this platform");
    assert_eq!(stub::stop_service().unwrap_err(), "Service mode not supported on this platform");
    assert_eq!(stub::get_service_status().unwrap_err(), "Service mode not supported on this platform");
    assert!(!stub::is_service_running());
    assert_eq!(stub::setup_tun_interface("tun0", "10.0.0.2", "10.0.0.1").unwrap_err(), "TUN not supported on this platform");
    assert_eq!(stub::teardown_tun_interface("tun0").unwrap_err(), "TUN not supported on this platform");
    assert_eq!(stub::configure_routing("tun0", "10.0.0.1").unwrap_err(), "Routing not supported on this platform");
    assert_eq!(stub::restore_routing().unwrap_err(), "Routing not supported on this platform");
}

#[test]
fn linux_status_from_systemctl() {
    let st = linux::get_service_status(Ok("ActiveState=active\nLoadState=loaded\n".to_string())).unwrap();
    assert!(st.running && st.enabled);
    assert!(st.interface_name.is_none() && !st.tun_mode && !st.proxy_mode && st.error.is_none());
    let st = linux::get_service_status(Ok("ActiveState=inactive\nLoadState=not-found\n".to_string())).unwrap();
    assert!(!st.running && !st.enabled);
    let e = linux::get_service_status(Err("no such file".to_string())).unwrap_err();
    assert_eq!(e, "Failed to get service status: no such file");
    assert!(!linux::is_service_running(&Err(e)));
    assert!(linux::is_service_running(&linux::get_service_status(Ok("ActiveState=active".to_string()))));
}

#[test]
fn linux_unit_and_commands() {
    assert_eq!(linux::unit_file_name(), "proxudesktop-daemon.service");
    assert_eq!(linux::systemd_user_dir(), ".config/systemd/user");
    let unit = linux::generate_systemd_service(&ServiceConfig::default());
    assert!(unit.starts_with("[Unit]\nDescription=Proxu Desktop VPN Service\n"));
    assert!(unit.contains("ExecStart=%h/.local/share/proxudesktop/proxudesktop-daemon\n"));
    assert!(unit.ends_with("WantedBy=default.target\n"));
    assert_eq!(linux::systemctl_args("start"), vec!["--user", "start", "proxudesktop-daemon"]);
    assert_eq!(
        linux::status_query_args(),
        vec!["--user", "show", "proxudesktop-daemon", "--property=ActiveState,LoadState"]
    );
    let steps = linux::tun_setup_commands("tun0", "10.10.0.2");
    assert_eq!(steps.len(), 3);
    assert_eq!(steps[0].0, vec!["ip", "tuntap", "add", "dev", "tun0", "mode", "tun"]);
    assert_eq!(steps[2].0, vec!["ip", "addr", "add", "10.10.0.2/24", "dev", "tun0"]);
    assert_eq!(spawn_failure(&steps[2].1, "denied"), "Failed to assign IP to TUN: denied");
    let down = linux::tun_teardown_commands("tun0");
    assert_eq!(down[0].0, vec!["ip", "link", "set", "dev", "tun0", "down"]);
    assert_eq!(down[1].1, "delete TUN interface");
    let (route, why) = linux::configure_routing("tun0", "10.10.0.1");
    assert_eq!(route, vec!["ip", "route", "add", "default", "dev", "tun0", "metric", "100"]);
    assert_eq!(why, "add TUN route");
    assert_eq!(linux::nftables_teardown_args(), vec!["nft", "delete", "table", "inet", "proxudesktop"]);
}

#[test]
fn linux_routes_saved_and_restored() {
    assert_eq!(linux::route_to_save(""), None);
    assert_eq!(linux::route_to_save("default via 192.168.1.1 dev eth0\n").as_deref(), Some("default via 192.168.1.1 dev eth0"));
    assert_eq!(linux::restore_routing(""), None);
    assert_eq!(
        linux::restore_routing("default via 192.168.1.1 dev eth0").unwrap(),
        vec!["ip", "route", "add", "default via 192.168.1.1 dev eth0"]
    );
}

#[test]
fn linux_nftables_script() {
    let script = linux::nftables_script("tun7");
    assert!(script.starts_with("table inet proxudesktop {\n"));
    assert_eq!(script.matches("\"tun7\"").count(), 4);
    assert!(script.contains("oifname \"tun7\" masquerade\n"));
    assert!(script.contains("iifname \"tun7\" accept\n            }\n        }"));
}

#[test]
fn windows_status_from_sc() {
    let st = windows::get_service_status(Ok("STATE : 4 RUNNING".to_string())).unwrap();
    assert!(st.running && st.enabled);
    let st = windows::get_service_status(Ok("STATE : 3 STOP_PENDING".to_string())).unwrap();
    assert!(!st.running && !st.enabled);
    let st = windows::get_service_status(Ok("STATE : 1 STOPPED".to_string())).unwrap();
    assert!(!st.enabled);
    let st = windows::get_service_status(Ok("FAILED 1060".to_string())).unwrap();
    assert!(!st.running && st.enabled);
    assert_eq!(windows::get_service_status(Err("x".to_string())).unwrap_err(), "Failed to query service: x");
    let ok: Result<ServiceStatus, String> = windows::get_service_status(Ok("RUNNING".to_string()));
    assert!(windows::is_service_running(&ok));
}

#[test]
fn windows_wintun() {
    assert_eq!(windows::get_wintun_download_url().unwrap(), "https://www.wintun.net/builds/wintun-0.14.1.zip");
    assert_eq!(windows::install_wintun_driver(true).unwrap(), None);
    assert_eq!(
        windows::install_wintun_driver(false).unwrap().as_deref(),
        Some("https://www.wintun.net/builds/wintun-0.14.1.zip")
    );
    assert!(windows::create_wintun_adapter("wg").is_ok());
    assert_eq!(windows::wintun_arch("x86_64").unwrap(), "amd64");
    assert_eq!(windows::wintun_arch("x86").unwrap(), "x86");
    assert_eq!(windows::wintun_arch("aarch64").unwrap(), "arm64");
    assert_eq!(windows::wintun_arch("riscv64").unwrap_err(), "Unsupported architecture");
    assert!(windows::is_wintun_dll_entry("wintun/bin/amd64/wintun.dll", "amd64"));
    assert!(windows::is_wintun_dll_entry("other/wintun.dll", "arm64"));
    assert!(!windows::is_wintun_dll_entry("wintun/README.md", "amd64"));
}

#[test]
fn windows_commands() {
    assert_eq!(windows::sc_args("start"), vec!["start", "ProxuDesktop"]);
    assert_eq!(
        windows::sc_create_args("C:\\app.exe"),
        vec!["create", "ProxuDesktop", "binPath=", "C:\\app.exe --service", "DisplayName=", "Proxu Desktop VPN Service", "start=", "auto"]
    );
    let steps = windows::adapter_setup_commands("wt0", "10.0.0.2", "10.0.0.1");
    assert_eq!(steps[0].0, vec!["interface", "ip", "set", "address", "name=\"wt0\"", "static", "10.0.0.2", "255.255.255.0", "10.0.0.1"]);
    assert_eq!(steps[1].0, vec!["interface", "ip", "set", "interface", "\"wt0\"", "metric=1"]);
    assert_eq!(steps[1].1, "set TUN metric");
    assert_eq!(windows::adapter_disable_args("wt0"), vec!["interface", "set", "interface", "\"wt0\"", "disable"]);
    assert_eq!(
        windows::configure_routing("wt0", "10.0.0.1"),
        vec!["add", "0.0.0.0", "mask", "0.0.0.0", "10.0.0.1", "metric", "1", "if", "wt0"]
    );
    let r = windows::restore_routing(true);
    assert_eq!(r.len(), 2);
    assert_eq!(r[0], vec!["delete", "0.0.0.0"]);
    assert_eq!(r[1], vec!["add", "0.0.0.0", "mask", "0.0.0.0", "192.168.1.1", "metric", "10"]);
    assert_eq!(windows::restore_routing(false).len(), 1);
}

#[test]
fn command_outcomes() {
    assert!(command_outcome("start service", true, "ignored").is_ok());
    assert_eq!(command_outcome("stop service", false, "boom").unwrap_err(), "Failed to stop service: boom");
}
