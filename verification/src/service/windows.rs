//! Service mode on Windows: a service registered with `sc`, and a WinTun
//! adapter set up with `netsh` and `route`.
use vstd::prelude::*;
use super::{ServiceStatus, texts, str_texts, owned_args, status_of, plain_status, running_from};
use crate::text::{contains, has_infix, has_suffix, join, ends_with};

verus! {

/// The name the service is registered under.
pub open spec fn service_name() -> Seq<char> {
    "ProxuDesktop"@
}

/// `sc` arguments that apply `verb` (`start`, `stop`, `delete`, `query`) to
/// the service.
pub fn sc_args(verb: &str) -> (r: Vec<String>)
    ensures
        texts(r@) == seq![verb@, service_name()],
{
    let v = vec![verb, "ProxuDesktop"];
    let a = owned_args(v);
    assert(str_texts(v@) =~= seq![verb@, service_name()]);
    a
}

/// `sc` arguments that register the service to start `exe_path --service`
/// automatically.
pub fn sc_create_args(exe_path: &str) -> (r: Vec<String>)
    ensures
        texts(r@) == seq![
            "create"@,
            service_name(),
            "binPath="@,
            exe_path@ + " --service"@,
            "DisplayName="@,
            "Proxu Desktop VPN Service"@,
            "start="@,
            "auto"@,
        ],
{
    let bin = join(exe_path, " --service");
    let v = vec!["create", "ProxuDesktop", "binPath=", bin.as_str(), "DisplayName=", "Proxu Desktop VPN Service", "start=", "auto"];
    let a = owned_args(v);
    assert(str_texts(v@) =~= seq![
        "create"@,
        service_name(),
        "binPath="@,
        exe_path@ + " --service"@,
        "DisplayName="@,
        "Proxu Desktop VPN Service"@,
        "start="@,
        "auto"@,
    ]);
    a
}

/// The service's status from what `sc query` printed, or the error when it
/// could not be run: it runs when the state reads `RUNNING`, and counts as
/// enabled unless the state reads `STOPPED` or `STOP_PENDING`.
pub fn get_service_status(query_output: Result<String, String>) -> (r: Result<ServiceStatus, String>)
    ensures
        match query_output {
            Ok(out) => r matches Ok(s) && plain_status(
                s,
                has_infix(out@, "RUNNING"@),
                !(has_infix(out@, "STOPPED"@) || has_infix(out@, "STOP_PENDING"@)),
            ),
            Err(e) => r matches Err(m) && m@ == "Failed to query service: "@ + e@,
        },
{
    match query_output {
        Ok(out) => {
            let running = contains(out.as_str(), "RUNNING");
            let stopped = contains(out.as_str(), "STOPPED") || contains(out.as_str(), "STOP_PENDING");
            Ok(status_of(running, !stopped))
        },
        Err(e) => Err(join("Failed to query service: ", e.as_str())),
    }
}

/// Whether the service runs, from the outcome of asking for its status.
pub fn is_service_running(status: &Result<ServiceStatus, String>) -> (r: bool)
    ensures
        r == running_from(*status),
{
    match status {
        Ok(s) => s.running,
        Err(_) => false,
    }
}

/// Where the WinTun driver archive is downloaded from.
pub fn get_wintun_download_url() -> (r: Result<String, String>)
    ensures
        r matches Ok(u) && u@ == "https://www.wintun.net/builds/wintun-0.14.1.zip"@,
{
    Ok(String::from_str("https://www.wintun.net/builds/wintun-0.14.1.zip"))
}

/// The WinTun library must be downloaded only when it is not yet installed:
/// the archive to fetch then, nothing otherwise.
pub fn install_wintun_driver(wintun_installed: bool) -> (r: Result<Option<String>, String>)
    ensures
        wintun_installed ==> r matches Ok(None),
        !wintun_installed ==> (r matches Ok(Some(u)) && u@ == "https://www.wintun.net/builds/wintun-0.14.1.zip"@),
{
    if wintun_installed {
        Ok(None)
    } else {
        match get_wintun_download_url() {
            Ok(u) => Ok(Some(u)),
            Err(e) => Err(e),
        }
    }
}

/// The adapter appears with the WinTun library; nothing is left to create.
pub fn create_wintun_adapter(_name: &str) -> (r: Result<(), String>)
    ensures
        r is Ok,
{
    Ok(())
}

/// The directory name of the WinTun build for a target architecture (as
/// `std::env::consts::ARCH` names it).
pub open spec fn wintun_arch_spec(arch: Seq<char>) -> Result<Seq<char>, Seq<char>> {
    if arch == "x86_64"@ {
        Ok("amd64"@)
    } else if arch == "x86"@ {
        Ok("x86"@)
    } else if arch == "aarch64"@ {
        Ok("arm64"@)
    } else {
        Err("Unsupported architecture"@)
    }
}

/// The WinTun build directory for the architecture, or the error for one
/// without a build.
pub fn wintun_arch(arch: &str) -> (r: Result<String, String>)
    ensures
        match r {
            Ok(a) => wintun_arch_spec(arch@) == Ok::<Seq<char>, Seq<char>>(a@),
            Err(e) => wintun_arch_spec(arch@) == Err::<Seq<char>, Seq<char>>(e@),
        },
{
    let x = String::from_str(arch);
    if x == String::from_str("x86_64") {
        Ok(String::from_str("amd64"))
    } else if x == String::from_str("x86") {
        Ok(String::from_str("x86"))
    } else if x == String::from_str("aarch64") {
        Ok(String::from_str("arm64"))
    } else {
        Err(String::from_str("Unsupported architecture"))
    }
}

/// The archive entry that holds the library: the build for the architecture,
/// or any entry whose name ends in `wintun.dll`.
pub open spec fn is_wintun_dll(name: Seq<char>, arch: Seq<char>) -> bool {
    has_infix(name, "wintun/bin/"@ + arch + "/wintun.dll"@) || has_suffix(name, "wintun.dll"@)
}

/// Whether an archive entry is the WinTun library to install.
pub fn is_wintun_dll_entry(name: &str, arch: &str) -> (r: bool)
    ensures
        r == is_wintun_dll(name@, arch@),
{
    let a = join("wintun/bin/", arch);
    let p = join(a.as_str(), "/wintun.dll");
    contains(name, p.as_str()) || ends_with(name, "wintun.dll")
}

/// The `netsh` steps that give the adapter its address and the lowest metric,
/// in this order, with what each is for.
pub open spec fn adapter_setup_steps(name: Seq<char>, ip: Seq<char>, gateway: Seq<char>) -> Seq<(Seq<Seq<char>>, Seq<char>)> {
    seq![
        (
            seq![
                "interface"@,
                "ip"@,
                "set"@,
                "address"@,
                "name=\""@ + name + "\""@,
                "static"@,
                ip,
                "255.255.255.0"@,
                gateway,
            ],
            "configure TUN interface"@,
        ),
        (
            seq!["interface"@, "ip"@, "set"@, "interface"@, "\""@ + name + "\""@, "metric=1"@],
            "set TUN metric"@,
        ),
    ]
}

/// Views of a list of steps.
pub open spec fn steps_view(v: Seq<(Vec<String>, String)>) -> Seq<(Seq<Seq<char>>, Seq<char>)> {
    v.map_values(|p: (Vec<String>, String)| (texts(p.0@), p.1@))
}

/// The `netsh` steps that configure the adapter after it is created.
pub fn adapter_setup_commands(interface_name: &str, ip: &str, gateway: &str) -> (r: Vec<(Vec<String>, String)>)
    ensures
        steps_view(r@) == adapter_setup_steps(interface_name@, ip@, gateway@),
{
    let n1 = join("name=\"", interface_name);
    let named = join(n1.as_str(), "\"");
    let q1 = join("\"", interface_name);
    let quoted = join(q1.as_str(), "\"");
    let v1 = vec!["interface", "ip", "set", "address", named.as_str(), "static", ip, "255.255.255.0", gateway];
    let v2 = vec!["interface", "ip", "set", "interface", quoted.as_str(), "metric=1"];
    let a1 = owned_args(v1);
    let a2 = owned_args(v2);
    proof {
        assert(str_texts(v1@) =~= adapter_setup_steps(interface_name@, ip@, gateway@)[0].0);
        assert(str_texts(v2@) =~= adapter_setup_steps(interface_name@, ip@, gateway@)[1].0);
    }
    let r = vec![(a1, String::from_str("configure TUN interface")), (a2, String::from_str("set TUN metric"))];
    assert(steps_view(r@) =~= adapter_setup_steps(interface_name@, ip@, gateway@));
    r
}

/// The `netsh` arguments that disable the adapter.
pub fn adapter_disable_args(interface_name: &str) -> (r: Vec<String>)
    ensures
        texts(r@) == seq!["interface"@, "set"@, "interface"@, "\""@ + interface_name@ + "\""@, "disable"@],
{
    let q1 = join("\"", interface_name);
    let quoted = join(q1.as_str(), "\"");
    let v = vec!["interface", "set", "interface", quoted.as_str(), "disable"];
    let a = owned_args(v);
    assert(str_texts(v@) =~= seq!["interface"@, "set"@, "interface"@, "\""@ + interface_name@ + "\""@, "disable"@]);
    a
}

/// The `route` arguments that send all traffic through the adapter's gateway.
pub fn configure_routing(interface_name: &str, gateway: &str) -> (r: Vec<String>)
    ensures
        texts(r@) == seq!["add"@, "0.0.0.0"@, "mask"@, "0.0.0.0"@, gateway@, "metric"@, "1"@, "if"@, interface_name@],
{
    let v = vec!["add", "0.0.0.0", "mask", "0.0.0.0", gateway, "metric", "1", "if", interface_name];
    let a = owned_args(v);
    assert(str_texts(v@) =~= seq!["add"@, "0.0.0.0"@, "mask"@, "0.0.0.0"@, gateway@, "metric"@, "1"@, "if"@, interface_name@]);
    a
}

/// The `route` commands that undo the tunnel's routing: the default route
/// through the adapter is deleted, and the fixed default route is added back
/// when a route was saved before.
pub fn restore_routing(route_saved: bool) -> (r: Vec<Vec<String>>)
    ensures
        route_saved ==> r@.len() == 2 && texts(r@[1]@) == seq![
            "add"@,
            "0.0.0.0"@,
            "mask"@,
            "0.0.0.0"@,
            "192.168.1.1"@,
            "metric"@,
            "10"@,
        ],
        !route_saved ==> r@.len() == 1,
        texts(r@[0]@) == seq!["delete"@, "0.0.0.0"@],
{
    let v1 = vec!["delete", "0.0.0.0"];
    let a1 = owned_args(v1);
    assert(str_texts(v1@) =~= seq!["delete"@, "0.0.0.0"@]);
    let mut out: Vec<Vec<String>> = Vec::new();
    out.push(a1);
    if route_saved {
        let v2 = vec!["add", "0.0.0.0", "mask", "0.0.0.0", "192.168.1.1", "metric", "10"];
        let a2 = owned_args(v2);
        assert(str_texts(v2@) =~= seq!["add"@, "0.0.0.0"@, "mask"@, "0.0.0.0"@, "192.168.1.1"@, "metric"@, "10"@]);
        out.push(a2);
    }
    out
}

} // verus!
