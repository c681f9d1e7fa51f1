//! The background service and TUN mode: their settings, their state, and,
//! per platform, the decisions around the system tools that run them.
pub mod linux;
pub mod windows;
pub mod stub;

use vstd::prelude::*;
use crate::text::join;

verus! {

/// How the service runs the tunnel.
#[derive(Debug, Clone)]
pub struct ServiceConfig {
    pub enabled: bool,
    pub tun_interface: String,
    pub tun_ip: String,
    pub tun_gateway: String,
    pub tun_dns: Vec<String>,
    pub tun_mtu: u16,
    pub bypass_apps: Vec<String>,
    pub routing_rules: Vec<RoutingRule>,
}

/// A rule that routes matching traffic.
#[derive(Debug, Clone)]
pub struct RoutingRule {
    pub domain: Option<String>,
    pub ip_cidr: Option<String>,
    pub app_name: Option<String>,
    pub action: RoutingAction,
}

/// Where matching traffic goes.
#[derive(Debug, Clone, Copy, PartialEq, Eq, Structural)]
pub enum RoutingAction {
    Proxy,
    Direct,
    Block,
}

/// What is known of the service.
#[derive(Debug, Clone)]
pub struct ServiceStatus {
    pub running: bool,
    pub enabled: bool,
    pub interface_name: Option<String>,
    pub interface_ip: Option<String>,
    pub tun_mode: bool,
    pub proxy_mode: bool,
    pub error: Option<String>,
}

/// The texts of a list of strings.
pub open spec fn texts(v: Seq<String>) -> Seq<Seq<char>> {
    v.map_values(|s: String| s@)
}

impl Default for ServiceConfig {
    fn default() -> (r: ServiceConfig)
        ensures
            !r.enabled,
            r.tun_interface@ == "tun0"@,
            r.tun_ip@ == "10.10.0.2"@,
            r.tun_gateway@ == "10.10.0.1"@,
            texts(r.tun_dns@) == seq!["1.1.1.1"@, "8.8.8.8"@],
            r.tun_mtu == 1500,
            texts(r.bypass_apps@) == seq!["proxudesktop"@],
            r.routing_rules@.len() == 0,
    {
        let r = ServiceConfig {
            enabled: false,
            tun_interface: String::from_str("tun0"),
            tun_ip: String::from_str("10.10.0.2"),
            tun_gateway: String::from_str("10.10.0.1"),
            tun_dns: vec![String::from_str("1.1.1.1"), String::from_str("8.8.8.8")],
            tun_mtu: 1500,
            bypass_apps: vec![String::from_str("proxudesktop")],
            routing_rules: Vec::new(),
        };
        assert(texts(r.tun_dns@) =~= seq!["1.1.1.1"@, "8.8.8.8"@]);
        assert(texts(r.bypass_apps@) =~= seq!["proxudesktop"@]);
        r
    }
}

/// A status with only the running and enabled flags known.
pub open spec fn plain_status(s: ServiceStatus, running: bool, enabled: bool) -> bool {
    &&& s.running == running
    &&& s.enabled == enabled
    &&& s.interface_name is None
    &&& s.interface_ip is None
    &&& !s.tun_mode
    &&& !s.proxy_mode
    &&& s.error is None
}

/// A status with only the running and enabled flags known.
pub fn status_of(running: bool, enabled: bool) -> (r: ServiceStatus)
    ensures
        plain_status(r, running, enabled),
{
    ServiceStatus {
        running,
        enabled,
        interface_name: None,
        interface_ip: None,
        tun_mode: false,
        proxy_mode: false,
        error: None,
    }
}

/// Whether the service runs, from the outcome of asking for its status: a
/// status that could not be had counts as not running.
pub open spec fn running_from(status: Result<ServiceStatus, String>) -> bool {
    match status {
        Ok(s) => s.running,
        Err(_) => false,
    }
}

/// The outcome of a service command: success, or `Failed to <action>: ` and
/// what the command wrote to its error output.
pub fn command_outcome(action: &str, success: bool, stderr: &str) -> (r: Result<(), String>)
    ensures
        success ==> r is Ok,
        !success ==> (r matches Err(e) && e@ == "Failed to "@ + action@ + ": "@ + stderr@),
{
    if success {
        Ok(())
    } else {
        let a = join("Failed to ", action);
        let b = join(a.as_str(), ": ");
        Err(join(b.as_str(), stderr))
    }
}

/// The error for a command that could not be started: `Failed to <action>: `
/// and the reason.
pub fn spawn_failure(action: &str, reason: &str) -> (r: String)
    ensures
        r@ == "Failed to "@ + action@ + ": "@ + reason@,
{
    let a = join("Failed to ", action);
    let b = join(a.as_str(), ": ");
    join(b.as_str(), reason)
}

/// The texts of a list of string slices.
pub open spec fn str_texts(v: Seq<&str>) -> Seq<Seq<char>> {
    v.map_values(|s: &str| s@)
}

/// Owned copies of a list of string slices, in order.
pub fn owned_args(v: Vec<&str>) -> (r: Vec<String>)
    ensures
        texts(r@) == str_texts(v@),
{
    let mut out: Vec<String> = Vec::new();
    let n = v.len();
    for i in 0..n
        invariant
            n == v@.len(),
            out@.len() == i,
            texts(out@) == str_texts(v@).take(i as int),
    {
        let a = String::from_str(v[i]);
        let ghost before = out@;
        out.push(a);
        proof {
            assert(out@ == before.push(a));
            assert(a@ == v@[i as int]@);
            assert(texts(out@) =~= str_texts(v@).take(i + 1));
        }
    }
    proof {
        assert(str_texts(v@).take(n as int) =~= str_texts(v@));
    }
    out
}

} // verus!
