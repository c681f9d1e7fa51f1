//! Service mode on Linux: a systemd user unit, and a TUN interface set up
//! with `ip` and `nft` through `pkexec`.
use vstd::prelude::*;
use super::{ServiceConfig, ServiceStatus, texts, str_texts, owned_args, status_of, plain_status, running_from};
use crate::text::{contains, has_infix, join, trim, trim_str};

verus! {

/// The systemd unit that runs the daemon.
pub open spec fn service_name() -> Seq<char> {
    "proxudesktop-daemon"@
}

/// The file name of the unit, `proxudesktop-daemon.service`, written under
/// the user's `.config/systemd/user`.
pub fn unit_file_name() -> (r: String)
    ensures
        r@ == service_name() + ".service"@,
{
    join("proxudesktop-daemon", ".service")
}

/// The directory of user units, relative to the home directory.
pub fn systemd_user_dir() -> (r: String)
    ensures
        r@ == ".config/systemd/user"@,
{
    String::from_str(".config/systemd/user")
}

/// The text of the unit file. It starts the daemon from the user's data
/// directory and restarts it after a failure; the configuration does not
/// enter it.
pub open spec fn systemd_unit_text() -> Seq<char> {
    "[Unit]\nDescription=Proxu Desktop VPN Service\nAfter=network.target\n\n[Service]\nType=simple\nExecStart=%h/.local/share/proxudesktop/proxudesktop-daemon\nRestart=on-failure\nRestartSec=5\n\n[Install]\nWantedBy=default.target\n"@
}

/// The unit file for the service.
pub fn generate_systemd_service(_config: &ServiceConfig) -> (r: String)
    ensures
        r@ == systemd_unit_text(),
{
    String::from_str(
        "[Unit]\nDescription=Proxu Desktop VPN Service\nAfter=network.target\n\n[Service]\nType=simple\nExecStart=%h/.local/share/proxudesktop/proxudesktop-daemon\nRestart=on-failure\nRestartSec=5\n\n[Install]\nWantedBy=default.target\n",
    )
}

/// `systemctl` arguments that apply `verb` to the user unit.
pub fn systemctl_args(verb: &str) -> (r: Vec<String>)
    ensures
        texts(r@) == seq!["--user"@, verb@, service_name()],
{
    let v = vec!["--user", verb, "proxudesktop-daemon"];
    let r = owned_args(v);
    assert(str_texts(v@) =~= seq!["--user"@, verb@, service_name()]);
    r
}

/// `systemctl` arguments that ask for the unit's active and load states.
pub fn status_query_args() -> (r: Vec<String>)
    ensures
        texts(r@) == seq!["--user"@, "show"@, service_name(), "--property=ActiveState,LoadState"@],
{
    let v = vec!["--user", "show", "proxudesktop-daemon", "--property=ActiveState,LoadState"];
    let r = owned_args(v);
    assert(str_texts(v@) =~= seq!["--user"@, "show"@, service_name(), "--property=ActiveState,LoadState"@]);
    r
}

/// The service's status from what `systemctl show` printed, or the error
/// when it could not be run: it runs when the unit is active, and counts as
/// enabled when the unit is loaded.
pub fn get_service_status(show_output: Result<String, String>) -> (r: Result<ServiceStatus, String>)
    ensures
        match show_output {
            Ok(out) => r matches Ok(s) && plain_status(
                s,
                has_infix(out@, "ActiveState=active"@),
                has_infix(out@, "LoadState=loaded"@),
            ),
            Err(e) => r matches Err(m) && m@ == "Failed to get service status: "@ + e@,
        },
{
    match show_output {
        Ok(out) => {
            let running = contains(out.as_str(), "ActiveState=active");
            let loaded = contains(out.as_str(), "LoadState=loaded");
            Ok(status_of(running, loaded))
        },
        Err(e) => Err(join("Failed to get service status: ", e.as_str())),
    }
}

/// Whether the service runs, from the outcome of asking for its status.
pub fn is_service_running(status: &Result<ServiceStatus, String>) -> (r: bool)
    ensures
        r == running_from(*status),
{
    match status {
        Ok(s) => s.running,
        Err(_) => false,
    }
}

/// A `pkexec` step: the arguments of the command and what it is for, which
/// the error names when the command cannot be started.
pub open spec fn steps_view(v: Seq<(Vec<String>, String)>) -> Seq<(Seq<Seq<char>>, Seq<char>)> {
    v.map_values(|p: (Vec<String>, String)| (texts(p.0@), p.1@))
}

/// The `pkexec` steps that create the TUN interface, bring it up and give it
/// the address `ip/24`, in this order.
pub open spec fn tun_setup_steps(interface_name: Seq<char>, ip: Seq<char>) -> Seq<(Seq<Seq<char>>, Seq<char>)> {
    seq![
        (seq!["ip"@, "tuntap"@, "add"@, "dev"@, interface_name, "mode"@, "tun"@], "create TUN interface"@),
        (seq!["ip"@, "link"@, "set"@, "dev"@, interface_name, "up"@], "bring up TUN interface"@),
        (seq!["ip"@, "addr"@, "add"@, ip + "/24"@, "dev"@, interface_name], "assign IP to TUN"@),
    ]
}

/// A step that runs `ip link set dev <interface> <state>`.
pub open spec fn is_link_set(args: Seq<Seq<char>>) -> bool {
    args.len() == 6 && args[0] == "ip"@ && args[1] == "link"@ && args[2] == "set"@ && args[3] == "dev"@
}

/// Setting up the TUN interface creates the named interface first, and the
/// step that brings it up runs `ip link set dev <name> up`: every
/// `ip link set` step of the setup names that interface and sets it up,
/// never down.
pub proof fn law_tun_setup_brings_interface_up(name: Seq<char>, ip: Seq<char>)
    ensures
        tun_setup_steps(name, ip).len() > 0,
        tun_setup_steps(name, ip)[0].0.take(5) == seq!["ip"@, "tuntap"@, "add"@, "dev"@, name],
        exists|i: int|
            0 <= i < tun_setup_steps(name, ip).len() && (#[trigger] tun_setup_steps(name, ip)[i]).1
                == "bring up TUN interface"@,
        forall|i: int|
            0 <= i < tun_setup_steps(name, ip).len() && (#[trigger] tun_setup_steps(name, ip)[i]).1
                == "bring up TUN interface"@ ==> tun_setup_steps(name, ip)[i].0 == seq![
                "ip"@,
                "link"@,
                "set"@,
                "dev"@,
                name,
                "up"@,
            ],
        forall|i: int|
            0 <= i < tun_setup_steps(name, ip).len() && is_link_set(
                (#[trigger] tun_setup_steps(name, ip)[i]).0,
            ) ==> tun_setup_steps(name, ip)[i].0[4] == name && tun_setup_steps(name, ip)[i].0[5] == "up"@,
{
    let s = tun_setup_steps(name, ip);
    reveal_strlit("link");
    reveal_strlit("addr");
    reveal_strlit("tuntap");
    reveal_strlit("create TUN interface");
    reveal_strlit("bring up TUN interface");
    reveal_strlit("assign IP to TUN");
    assert("link"@ != "addr"@ && "link"@ != "tuntap"@) by {
        assert("link"@[0] != "addr"@[0]);
        assert("link"@.len() != "tuntap"@.len());
    }
    assert("create TUN interface"@ != "bring up TUN interface"@) by {
        assert("create TUN interface"@.len() != "bring up TUN interface"@.len());
    }
    assert("assign IP to TUN"@ != "bring up TUN interface"@) by {
        assert("assign IP to TUN"@.len() != "bring up TUN interface"@.len());
    }
    assert(s[0].0.take(5) =~= seq!["ip"@, "tuntap"@, "add"@, "dev"@, name]);
    assert(s[1].1 == "bring up TUN interface"@);
}

/// Setting up the TUN interface gives the interface it created the address
/// `ip/24`, after the interface is created.
pub proof fn law_tun_setup_assigns_address(name: Seq<char>, ip: Seq<char>)
    ensures
        exists|i: int|
            0 < i < tun_setup_steps(name, ip).len() && (#[trigger] tun_setup_steps(name, ip)[i]).0 == seq![
                "ip"@,
                "addr"@,
                "add"@,
                ip + "/24"@,
                "dev"@,
                name,
            ],
{
    assert(tun_setup_steps(name, ip)[2].0 == seq!["ip"@, "addr"@, "add"@, ip + "/24"@, "dev"@, name]);
}

/// Tearing the TUN interface down brings that interface down before it is
/// deleted, and never brings it up.
pub proof fn law_tun_teardown_brings_interface_down(name: Seq<char>)
    ensures
        tun_teardown_steps(name).len() == 2,
        tun_teardown_steps(name)[0].0 == seq!["ip"@, "link"@, "set"@, "dev"@, name, "down"@],
        tun_teardown_steps(name)[1].0.take(5) == seq!["ip"@, "tuntap"@, "del"@, "dev"@, name],
        forall|i: int|
            0 <= i < tun_teardown_steps(name).len() && is_link_set((#[trigger] tun_teardown_steps(name)[i]).0)
                ==> tun_teardown_steps(name)[i].0[4] == name && tun_teardown_steps(name)[i].0[5] == "down"@,
{
    let s = tun_teardown_steps(name);
    reveal_strlit("link");
    reveal_strlit("tuntap");
    assert("link"@ != "tuntap"@) by {
        assert("link"@.len() != "tuntap"@.len());
    }
    assert(s[1].0.take(5) =~= seq!["ip"@, "tuntap"@, "del"@, "dev"@, name]);
}

/// Tearing down undoes setting up: the interface that setup creates is the
/// one that teardown deletes, named and in the mode it was created with
/// (the two commands differ only in `add` and `del`), and the interface
/// that setup brings up is the one that teardown brings down.
pub proof fn law_tun_teardown_undoes_setup(name: Seq<char>, ip: Seq<char>)
    ensures
        ({
            let created = tun_setup_steps(name, ip)[0].0;
            let deleted = tun_teardown_steps(name)[tun_teardown_steps(name).len() - 1].0;
            &&& created.len() == deleted.len()
            &&& created[2] == "add"@ && deleted[2] == "del"@
            &&& forall|j: int| 0 <= j < created.len() && j != 2 ==> #[trigger] created[j] == deleted[j]
        }),
        ({
            let up = tun_setup_steps(name, ip)[1].0;
            let down = tun_teardown_steps(name)[0].0;
            &&& is_link_set(up) && is_link_set(down)
            &&& up[4] == down[4] && up[4] == name
            &&& up[5] == "up"@ && down[5] == "down"@
        }),
{
}

/// The steps that set up the TUN interface before the routes and the
/// firewall table.
pub fn tun_setup_commands(interface_name: &str, ip: &str) -> (r: Vec<(Vec<String>, String)>)
    ensures
        steps_view(r@) == tun_setup_steps(interface_name@, ip@),
{
    let cidr = join(ip, "/24");
    let v1 = vec!["ip", "tuntap", "add", "dev", interface_name, "mode", "tun"];
    let v2 = vec!["ip", "link", "set", "dev", interface_name, "up"];
    let v3 = vec!["ip", "addr", "add", cidr.as_str(), "dev", interface_name];
    let a1 = owned_args(v1);
    let a2 = owned_args(v2);
    let a3 = owned_args(v3);
    proof {
        assert(str_texts(v1@) =~= tun_setup_steps(interface_name@, ip@)[0].0);
        assert(str_texts(v2@) =~= tun_setup_steps(interface_name@, ip@)[1].0);
        assert(str_texts(v3@) =~= tun_setup_steps(interface_name@, ip@)[2].0);
    }
    let r = vec![
        (a1, String::from_str("create TUN interface")),
        (a2, String::from_str("bring up TUN interface")),
        (a3, String::from_str("assign IP to TUN")),
    ];
    assert(steps_view(r@) =~= tun_setup_steps(interface_name@, ip@));
    r
}

/// The `pkexec` steps that bring the TUN interface down and delete it, in
/// this order, after the firewall table and the routes are gone.
pub open spec fn tun_teardown_steps(interface_name: Seq<char>) -> Seq<(Seq<Seq<char>>, Seq<char>)> {
    seq![
        (seq!["ip"@, "link"@, "set"@, "dev"@, interface_name, "down"@], "bring down TUN interface"@),
        (seq!["ip"@, "tuntap"@, "del"@, "dev"@, interface_name, "mode"@, "tun"@], "delete TUN interface"@),
    ]
}

/// The steps that remove the TUN interface.
pub fn tun_teardown_commands(interface_name: &str) -> (r: Vec<(Vec<String>, String)>)
    ensures
        steps_view(r@) == tun_teardown_steps(interface_name@),
{
    let v1 = vec!["ip", "link", "set", "dev", interface_name, "down"];
    let v2 = vec!["ip", "tuntap", "del", "dev", interface_name, "mode", "tun"];
    let a1 = owned_args(v1);
    let a2 = owned_args(v2);
    proof {
        assert(str_texts(v1@) =~= tun_teardown_steps(interface_name@)[0].0);
        assert(str_texts(v2@) =~= tun_teardown_steps(interface_name@)[1].0);
    }
    let r = vec![
        (a1, String::from_str("bring down TUN interface")),
        (a2, String::from_str("delete TUN interface")),
    ];
    assert(steps_view(r@) =~= tun_teardown_steps(interface_name@));
    r
}

/// The `pkexec` step that sends the default route through the TUN interface,
/// taken after the current default route is saved.
pub fn configure_routing(interface_name: &str, _gateway: &str) -> (r: (Vec<String>, String))
    ensures
        texts(r.0@) == seq!["ip"@, "route"@, "add"@, "default"@, "dev"@, interface_name@, "metric"@, "100"@],
        r.1@ == "add TUN route"@,
{
    let v = vec!["ip", "route", "add", "default", "dev", interface_name, "metric", "100"];
    let a = owned_args(v);
    assert(str_texts(v@) =~= seq!["ip"@, "route"@, "add"@, "default"@, "dev"@, interface_name@, "metric"@, "100"@]);
    (a, String::from_str("add TUN route"))
}

/// What of `ip route show default` is saved: its trimmed text, when it
/// printed anything.
pub fn route_to_save(route_output: &str) -> (r: Option<String>)
    ensures
        route_output@.len() == 0 ==> r is None,
        route_output@.len() > 0 ==> (r matches Some(t) && t@ == trim(route_output@)),
{
    if route_output.unicode_len() == 0 {
        None
    } else {
        Some(trim_str(route_output))
    }
}

/// The `pkexec` arguments that put a saved default route back, or nothing
/// when no route was saved.
pub fn restore_routing(saved_route: &str) -> (r: Option<Vec<String>>)
    ensures
        saved_route@.len() == 0 ==> r is None,
        saved_route@.len() > 0 ==> (r matches Some(a) && texts(a@) == seq!["ip"@, "route"@, "add"@, saved_route@]),
{
    if saved_route.unicode_len() == 0 {
        None
    } else {
        let v = vec!["ip", "route", "add", saved_route];
        let a = owned_args(v);
        assert(str_texts(v@) =~= seq!["ip"@, "route"@, "add"@, saved_route@]);
        Some(a)
    }
}

/// The `nft` table that masquerades traffic leaving through the TUN interface
/// and accepts what passes through it.
pub open spec fn nftables_script_spec(name: Seq<char>) -> Seq<char> {
    "table inet proxudesktop {\n            chain prerouting {\n                type nat hook prerouting priority mangle; policy accept;\n            }\n            chain postrouting {\n                type nat hook postrouting priority srcnat; policy accept;\n                oifname \""@
        + name + "\" masquerade\n            }\n            chain input {\n                type filter hook input priority mangle; policy accept;\n                iifname \""@
        + name + "\" accept\n            }\n            chain forward {\n                type filter hook forward priority mangle; policy accept;\n                oifname \""@
        + name + "\" accept\n                iifname \""@ + name + "\" accept\n            }\n        }"@
}

/// The script handed to `nft -f -` when the TUN interface is set up.
pub fn nftables_script(interface_name: &str) -> (r: String)
    ensures
        r@ == nftables_script_spec(interface_name@),
{
    let p1 = join(
        "table inet proxudesktop {\n            chain prerouting {\n                type nat hook prerouting priority mangle; policy accept;\n            }\n            chain postrouting {\n                type nat hook postrouting priority srcnat; policy accept;\n                oifname \"",
        interface_name,
    );
    let p2 = join(
        p1.as_str(),
        "\" masquerade\n            }\n            chain input {\n                type filter hook input priority mangle; policy accept;\n                iifname \"",
    );
    let p3 = join(p2.as_str(), interface_name);
    let p4 = join(
        p3.as_str(),
        "\" accept\n            }\n            chain forward {\n                type filter hook forward priority mangle; policy accept;\n                oifname \"",
    );
    let p5 = join(p4.as_str(), interface_name);
    let p6 = join(p5.as_str(), "\" accept\n                iifname \"");
    let p7 = join(p6.as_str(), interface_name);
    join(p7.as_str(), "\" accept\n            }\n        }")
}

/// The `pkexec` arguments that delete the firewall table.
pub fn nftables_teardown_args() -> (r: Vec<String>)
    ensures
        texts(r@) == seq!["nft"@, "delete"@, "table"@, "inet"@, "proxudesktop"@],
{
    let v = vec!["nft", "delete", "table", "inet", "proxudesktop"];
    let a = owned_args(v);
    assert(str_texts(v@) =~= seq!["nft"@, "delete"@, "table"@, "inet"@, "proxudesktop"@]);
    a
}

} // verus!
