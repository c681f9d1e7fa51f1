//! Local application settings and the proxy profiles kept in them.
use vstd::prelude::*;
use crate::urls::opt_view;

verus! {

/// A proxy profile as the application stores it.
#[derive(Debug)]
pub struct ProxyConfig {
    pub id: String,
    pub name: String,
    pub server: String,
    pub port: u16,
    pub protocol: String,
    pub link: Option<String>,
}

/// The settings file of the application.
#[derive(Debug)]
pub struct AppConfig {
    pub token: Option<String>,
    pub email: Option<String>,
    pub balance: Option<String>,
    pub active_proxy_id: Option<String>,
    pub proxies: Vec<ProxyConfig>,
    pub system_proxy_enabled: bool,
    pub vpn_dns: String,
    pub vpn_mtu: u16,
    pub ipv6_enabled: bool,
    pub local_dns_enabled: bool,
    pub fake_dns_enabled: bool,
    pub socks_port: u16,
    pub http_port: u16,
    pub remote_dns: String,
    pub domestic_dns: String,
    pub sniffing_enabled: bool,
    pub allow_insecure: bool,
    pub socks_username: String,
    pub socks_password: String,
    pub socks_enable_udp: bool,
    pub mux_enabled: bool,
    pub mux_concurrency: i32,
    pub fragment_enabled: bool,
    pub fragment_length: String,
    pub fragment_interval: String,
    pub latency_test_url: String,
    pub ip_check_url: String,
}

/// The URL probed by the latency test unless the settings name another.
pub fn default_latency_url() -> (r: String)
    ensures
        r@ == "https://www.gstatic.com/generate_204"@,
{
    String::from_str("https://www.gstatic.com/generate_204")
}

/// The URL asked for the public address unless the settings name another.
pub fn default_ip_check_url() -> (r: String)
    ensures
        r@ == "https://api.ip.sb/geoip"@,
{
    String::from_str("https://api.ip.sb/geoip")
}

impl Default for AppConfig {
    fn default() -> (r: AppConfig)
        ensures
            r.token is None,
            r.email is None,
            r.balance is None,
            r.active_proxy_id is None,
            r.proxies@.len() == 0,
            r.system_proxy_enabled,
            r.vpn_dns@ == "1.1.1.1,8.8.8.8"@,
            r.vpn_mtu == 1500,
            !r.ipv6_enabled,
            r.local_dns_enabled,
            !r.fake_dns_enabled,
            r.socks_port == 10808,
            r.http_port == 10809,
            r.remote_dns@ == "1.1.1.1,8.8.8.8"@,
            r.domestic_dns@ == "8.8.8.8,1.1.1.1"@,
            r.sniffing_enabled,
            !r.allow_insecure,
            r.socks_username@ == ""@,
            r.socks_password@ == ""@,
            r.socks_enable_udp,
            !r.mux_enabled,
            r.mux_concurrency == 8,
            !r.fragment_enabled,
            r.fragment_length@ == "50-100"@,
            r.fragment_interval@ == "10-20"@,
            r.latency_test_url@ == "https://www.gstatic.com/generate_204"@,
            r.ip_check_url@ == "https://api.ip.sb/geoip"@,
    {
        AppConfig {
            token: None,
            email: None,
            balance: None,
            active_proxy_id: None,
            proxies: Vec::new(),
            system_proxy_enabled: true,
            vpn_dns: String::from_str("1.1.1.1,8.8.8.8"),
            vpn_mtu: 1500,
            ipv6_enabled: false,
            local_dns_enabled: true,
            fake_dns_enabled: false,
            socks_port: 10808,
            http_port: 10809,
            remote_dns: String::from_str("1.1.1.1,8.8.8.8"),
            domestic_dns: String::from_str("8.8.8.8,1.1.1.1"),
            sniffing_enabled: true,
            allow_insecure: false,
            socks_username: String::from_str(""),
            socks_password: String::from_str(""),
            socks_enable_udp: true,
            mux_enabled: false,
            mux_concurrency: 8,
            fragment_enabled: false,
            fragment_length: String::from_str("50-100"),
            fragment_interval: String::from_str("10-20"),
            latency_test_url: default_latency_url(),
            ip_check_url: default_ip_check_url(),
        }
    }
}


/// The model of a proxy profile.
pub ghost struct ProxyConfigV {
    pub id: Seq<char>,
    pub name: Seq<char>,
    pub server: Seq<char>,
    pub port: u16,
    pub protocol: Seq<char>,
    pub link: Option<Seq<char>>,
}

impl View for ProxyConfig {
    type V = ProxyConfigV;

    open spec fn view(&self) -> ProxyConfigV {
        ProxyConfigV {
            id: self.id@,
            name: self.name@,
            server: self.server@,
            port: self.port,
            protocol: self.protocol@,
            link: opt_view(self.link),
        }
    }
}

pub open spec fn profiles_view(v: Seq<ProxyConfig>) -> Seq<ProxyConfigV> {
    v.map_values(|p: ProxyConfig| p@)
}

impl ProxyConfig {
    /// A profile with the same contents.
    pub fn copy(&self) -> (r: ProxyConfig)
        ensures
            r@ == self@,
    {
        ProxyConfig {
            id: self.id.clone(),
            name: self.name.clone(),
            server: self.server.clone(),
            port: self.port,
            protocol: self.protocol.clone(),
            link: match &self.link {
                Some(l) => Some(l.clone()),
                None => None,
            },
        }
    }
}

} // verus!
