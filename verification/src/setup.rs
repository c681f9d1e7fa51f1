//! Installing and running Xray-core: which release asset fits the platform,
//! where to download it, how a failed configuration check reads, and which
//! commands switch the system proxy.
use vstd::prelude::*;
use crate::json::{Json, JsonV, json_index, json_as_str, elements, json_text_parse, parse_json};
use crate::text::{str_eq, join, trim, trim_str, decimal, u64_to_string, chars_of, push_char, has_prefix, has_suffix};

verus! {

/// The Xray-core release asset for an operating system and architecture,
/// or the error for a platform without one.
pub open spec fn xray_asset_spec(os: Seq<char>, arch: Seq<char>) -> Result<Seq<char>, Seq<char>> {
    if os == "linux"@ && arch == "x86_64"@ {
        Ok("Xray-linux-64.zip"@)
    } else if os == "linux"@ && (arch == "x86"@ || arch == "i686"@) {
        Ok("Xray-linux-32.zip"@)
    } else if os == "linux"@ && arch == "aarch64"@ {
        Ok("Xray-linux-arm64-v8a.zip"@)
    } else if os == "windows"@ && arch == "x86_64"@ {
        Ok("Xray-windows-64.zip"@)
    } else if os == "windows"@ && (arch == "x86"@ || arch == "i686"@) {
        Ok("Xray-windows-32.zip"@)
    } else {
        Err("Unsupported platform for bundled Xray: "@ + os + "-"@ + arch)
    }
}

/// The release asset for a supported platform is the zip archive named
/// after the operating system; every other platform is refused with its
/// operating system and architecture named.
pub proof fn law_asset_names_platform(os: Seq<char>, arch: Seq<char>)
    ensures
        xray_asset_spec(os, arch) is Ok ==> has_prefix(xray_asset_spec(os, arch)->Ok_0, "Xray-"@ + os + "-"@)
            && has_suffix(xray_asset_spec(os, arch)->Ok_0, ".zip"@),
        xray_asset_spec(os, arch) is Ok ==> os == "linux"@ || os == "windows"@,
        xray_asset_spec(os, arch) is Err ==> xray_asset_spec(os, arch)->Err_0
            == "Unsupported platform for bundled Xray: "@ + os + "-"@ + arch,
{
    reveal_strlit("linux");
    reveal_strlit("windows");
    reveal_strlit("Xray-");
    reveal_strlit("-");
    reveal_strlit(".zip");
    reveal_strlit("Xray-linux-64.zip");
    reveal_strlit("Xray-linux-32.zip");
    reveal_strlit("Xray-linux-arm64-v8a.zip");
    reveal_strlit("Xray-windows-64.zip");
    reveal_strlit("Xray-windows-32.zip");
    let r = xray_asset_spec(os, arch);
    if r is Ok {
        let a = r->Ok_0;
        let p = "Xray-"@ + os + "-"@;
        assert(a.take(p.len() as int) =~= p);
        assert(a.skip(a.len() - 4) =~= ".zip"@);
    }
}

pub open spec fn text_result(r: Result<String, String>) -> Result<Seq<char>, Seq<char>> {
    match r {
        Ok(s) => Ok(s@),
        Err(e) => Err(e@),
    }
}

/// The release asset for the platform that `os` and `arch` name (as
/// `std::env::consts::OS` and `ARCH` do).
pub fn target_xray_asset_name(os: &str, arch: &str) -> (r: Result<String, String>)
    ensures
        text_result(r) == xray_asset_spec(os@, arch@),
{
    let linux = str_eq(os, "linux");
    let windows = str_eq(os, "windows");
    let x64 = str_eq(arch, "x86_64");
    let x86 = str_eq(arch, "x86") || str_eq(arch, "i686");
    if linux && x64 {
        Ok(String::from_str("Xray-linux-64.zip"))
    } else if linux && x86 {
        Ok(String::from_str("Xray-linux-32.zip"))
    } else if linux && str_eq(arch, "aarch64") {
        Ok(String::from_str("Xray-linux-arm64-v8a.zip"))
    } else if windows && x64 {
        Ok(String::from_str("Xray-windows-64.zip"))
    } else if windows && x86 {
        Ok(String::from_str("Xray-windows-32.zip"))
    } else {
        let a = join("Unsupported platform for bundled Xray: ", os);
        let b = join(a.as_str(), "-");
        Err(join(b.as_str(), arch))
    }
}

/// The download address of the first asset named `name` in a list of release
/// assets, or the error for a matching asset without one, or for no match.
pub open spec fn asset_url_in(assets: Seq<JsonV>, name: Seq<char>) -> Result<Seq<char>, Seq<char>>
    decreases assets.len(),
{
    if assets.len() == 0 {
        Err("Xray asset not found in latest release: "@ + name)
    } else if json_as_str(json_index(assets[0], "name"@)) == Some(name) {
        match json_as_str(json_index(assets[0], "browser_download_url"@)) {
            Some(u) => Ok(u),
            None => Err("Asset "@ + name + " missing browser_download_url"@),
        }
    } else {
        asset_url_in(assets.drop_first(), name)
    }
}

/// The name of a release asset, where it has one.
pub open spec fn asset_name(a: JsonV) -> Option<Seq<char>> {
    json_as_str(json_index(a, "name"@))
}

/// The first asset named `name` decides the download address: it is that
/// asset's address, or the error that it has none; when no asset bears the
/// name, the asset is reported as not found.
pub proof fn law_first_named_asset_decides(assets: Seq<JsonV>, name: Seq<char>)
    ensures
        (forall|j: int| 0 <= j < assets.len() ==> #[trigger] asset_name(assets[j]) != Some(name))
            ==> asset_url_in(assets, name) == Err::<Seq<char>, Seq<char>>(
            "Xray asset not found in latest release: "@ + name,
        ),
        forall|i: int|
            0 <= i < assets.len() && #[trigger] asset_name(assets[i]) == Some(name) && (forall|j: int|
                0 <= j < i ==> #[trigger] asset_name(assets[j]) != Some(name)) ==> asset_url_in(assets, name)
                == match json_as_str(json_index(assets[i], "browser_download_url"@)) {
                Some(u) => Ok::<Seq<char>, Seq<char>>(u),
                None => Err("Asset "@ + name + " missing browser_download_url"@),
            },
    decreases assets.len(),
{
    if assets.len() > 0 {
        let rest = assets.drop_first();
        law_first_named_asset_decides(rest, name);
        if forall|j: int| 0 <= j < assets.len() ==> #[trigger] asset_name(assets[j]) != Some(name) {
            assert(asset_name(assets[0]) != Some(name));
            assert forall|j: int| 0 <= j < rest.len() implies #[trigger] asset_name(rest[j]) != Some(name) by {
                assert(rest[j] == assets[j + 1]);
                assert(asset_name(assets[j + 1]) != Some(name));
            }
        }
        assert forall|i: int|
            0 <= i < assets.len() && #[trigger] asset_name(assets[i]) == Some(name) && (forall|j: int|
                0 <= j < i ==> #[trigger] asset_name(assets[j]) != Some(name)) implies asset_url_in(assets, name)
            == match json_as_str(json_index(assets[i], "browser_download_url"@)) {
            Some(u) => Ok::<Seq<char>, Seq<char>>(u),
            None => Err("Asset "@ + name + " missing browser_download_url"@),
        } by {
            if i > 0 {
                assert(asset_name(assets[0]) != Some(name));
                assert(rest[i - 1] == assets[i]);
                assert(asset_name(rest[i - 1]) == Some(name));
                assert forall|j: int| 0 <= j < i - 1 implies #[trigger] asset_name(rest[j]) != Some(name) by {
                    assert(rest[j] == assets[j + 1]);
                    assert(asset_name(assets[j + 1]) != Some(name));
                }
            }
        }
    }
}

/// Where a GitHub release description says the asset `name` is downloaded.
pub open spec fn release_asset_url(release: JsonV, name: Seq<char>) -> Result<Seq<char>, Seq<char>> {
    match json_index(release, "assets"@) {
        JsonV::Array(assets) => asset_url_in(assets, name),
        _ => Err("Xray release response missing assets array"@),
    }
}

/// The download address of the asset `asset_name` in a release description:
/// the first asset of that name decides.
#[verifier::loop_isolation(false)]
pub fn asset_download_url(release: &Json, asset_name: &str) -> (r: Result<String, String>)
    ensures
        text_result(r) == release_asset_url(release@, asset_name@),
{
    let assets = match release.get("assets") {
        Some(Json::Array(a)) => a,
        _ => {
            return Err(String::from_str("Xray release response missing assets array"));
        },
    };
    let ghost va = elements(json_index(release@, "assets"@));
    assert(va.len() == assets@.len());
    assert(forall|m: int| 0 <= m < va.len() ==> #[trigger] va[m] == assets@[m]@);
    assert(va.skip(0) =~= va);
    let n = assets.len();
    let mut i: usize = 0;
    while i < n
        invariant
            i <= n,
            n == va.len(),
            asset_url_in(va, asset_name@) == asset_url_in(va.skip(i as int), asset_name@),
        decreases n - i,
    {
        let a = &assets[i];
        proof {
            assert(va.skip(i as int)[0] == a@);
            assert(va.skip(i as int).drop_first() =~= va.skip(i + 1));
        }
        if let Some(Json::Str(nm)) = a.get("name") {
            if str_eq(nm.as_str(), asset_name) {
                return match a.get("browser_download_url") {
                    Some(Json::Str(u)) => Ok(u.clone()),
                    _ => {
                        let m = join("Asset ", asset_name);
                        Err(join(m.as_str(), " missing browser_download_url"))
                    },
                };
            }
        }
        i = i + 1;
    }
    proof {
        assert(va.skip(n as int) =~= Seq::<JsonV>::empty());
    }
    Err(join("Xray asset not found in latest release: ", asset_name))
}

/// Reads a release description from its JSON text and finds the asset
/// `asset_name` in it.
pub fn release_download_url(body: &str, asset_name: &str) -> (r: Result<String, String>)
    ensures
        text_result(r) == (match json_text_parse(body@) {
            Ok(v) => release_asset_url(v, asset_name@),
            Err(e) => Err("Failed to parse Xray release JSON: "@ + e),
        }),
{
    match parse_json(body) {
        Ok(doc) => asset_download_url(&doc, asset_name),
        Err(e) => Err(join("Failed to parse Xray release JSON: ", e.as_str())),
    }
}

/// The message for a configuration that `xray run -test` refused: its
/// trimmed error output, then its trimmed standard output on a line of its
/// own when there is any.
pub open spec fn validation_failure_spec(stderr: Seq<char>, stdout: Seq<char>) -> Seq<char> {
    "Xray config validation failed: "@ + trim(stderr) + (if trim(stdout).len() == 0 {
        Seq::<char>::empty()
    } else {
        "\n"@ + trim(stdout)
    })
}

/// The message for a refused configuration leads with Xray's trimmed error
/// output; Xray's standard output follows on a line of its own exactly when
/// it holds more than white space.
pub proof fn law_validation_failure_message(stderr: Seq<char>, stdout: Seq<char>)
    ensures
        has_prefix(validation_failure_spec(stderr, stdout), "Xray config validation failed: "@ + trim(stderr)),
        trim(stdout).len() == 0 ==> validation_failure_spec(stderr, stdout) == "Xray config validation failed: "@
            + trim(stderr),
        trim(stdout).len() > 0 ==> has_suffix(validation_failure_spec(stderr, stdout), "\n"@ + trim(stdout)),
{
    let head = "Xray config validation failed: "@ + trim(stderr);
    let m = validation_failure_spec(stderr, stdout);
    if trim(stdout).len() == 0 {
        assert(m =~= head);
        assert(m.take(head.len() as int) =~= head);
    } else {
        let tail = "\n"@ + trim(stdout);
        assert(m =~= head + tail);
        assert(m.take(head.len() as int) =~= head);
        assert(m.skip(m.len() - tail.len()) =~= tail);
    }
}

/// The error for a configuration that Xray refused, from what the check printed.
pub fn validation_failure_message(stderr: &str, stdout: &str) -> (r: String)
    ensures
        r@ == validation_failure_spec(stderr@, stdout@),
{
    let e = trim_str(stderr);
    let o = trim_str(stdout);
    let head = join("Xray config validation failed: ", e.as_str());
    if o.as_str().unicode_len() == 0 {
        head
    } else {
        let tail = join("\n", o.as_str());
        join(head.as_str(), tail.as_str())
    }
}

/// `PathBuf::push` of a relative path onto a directory.
pub fn join_path(dir: &str, name: &str, windows: bool) -> (r: String)
    ensures
        r@ == path_push(dir@, name@, windows),
{
    let d = chars_of(dir);
    if d.len() == 0 {
        return String::from_str(name);
    }
    let last = d[d.len() - 1];
    let mut out = String::from_str(dir);
    if !(last == '/' || (windows && last == '\\')) {
        push_char(&mut out, if windows { '\\' } else { '/' });
    }
    out.append(name);
    out
}

/// The name of the Xray executable on an operating system.
pub open spec fn xray_bin_name(os: Seq<char>) -> Seq<char> {
    if os == "windows"@ {
        "xray.exe"@
    } else {
        "xray"@
    }
}

/// `PathBuf::push` of a relative name: the name after the directory, with a
/// separator between them unless the directory is empty or already ends in one.
pub open spec fn path_push(dir: Seq<char>, name: Seq<char>, windows: bool) -> Seq<char> {
    let sep = if windows { '\\' } else { '/' };
    if dir.len() == 0 {
        name
    } else if dir.last() == '/' || (windows && dir.last() == '\\') {
        dir + name
    } else {
        dir.push(sep) + name
    }
}

/// Joining a name onto a directory keeps the directory in front and the
/// name at the end, with at most one separator between them.
pub proof fn law_path_push_keeps_dir_and_name(dir: Seq<char>, name: Seq<char>, windows: bool)
    ensures
        has_prefix(path_push(dir, name, windows), dir),
        has_suffix(path_push(dir, name, windows), name),
        dir.len() + name.len() <= path_push(dir, name, windows).len() <= dir.len() + name.len() + 1,
        path_push(dir, name, windows).len() == dir.len() + name.len() + 1 ==> path_push(dir, name, windows)[dir.len() as int]
            == (if windows { '\\' } else { '/' }),
{
    let r = path_push(dir, name, windows);
    if dir.len() == 0 {
        assert(r.take(0) =~= dir);
        assert(r.skip(0) =~= name);
    } else if dir.last() == '/' || (windows && dir.last() == '\\') {
        assert(r.take(dir.len() as int) =~= dir);
        assert(r.skip(r.len() - name.len()) =~= name);
    } else {
        let sep = if windows { '\\' } else { '/' };
        assert(r == dir.push(sep) + name);
        assert(r.take(dir.len() as int) =~= dir);
        assert(r.skip(r.len() - name.len()) =~= name);
        assert(r[dir.len() as int] == sep);
    }
}

/// The Xray executable lies in the Xray directory: the path starts with the
/// directory and ends with `xray.exe` on Windows, `xray` elsewhere.
pub proof fn law_xray_bin_path(xray_dir: Seq<char>, os: Seq<char>)
    ensures
        has_prefix(path_push(xray_dir, xray_bin_name(os), os == "windows"@), xray_dir),
        has_suffix(
            path_push(xray_dir, xray_bin_name(os), os == "windows"@),
            if os == "windows"@ {
                "xray.exe"@
            } else {
                "xray"@
            },
        ),
{
    law_path_push_keeps_dir_and_name(xray_dir, xray_bin_name(os), os == "windows"@);
}

/// Where the Xray executable lies in the Xray directory `xray_dir` on the
/// operating system `os` (as `std::env::consts::OS` names it).
pub fn get_xray_bin_path(xray_dir: &str, os: &str) -> (r: String)
    ensures
        r@ == path_push(xray_dir@, xray_bin_name(os@), os@ == "windows"@),
{
    let windows = str_eq(os, "windows");
    let name = if windows {
        String::from_str("xray.exe")
    } else {
        String::from_str("xray")
    };
    let d = chars_of(xray_dir);
    if d.len() == 0 {
        return name;
    }
    let last = d[d.len() - 1];
    let mut out = String::from_str(xray_dir);
    if !(last == '/' || (windows && last == '\\')) {
        push_char(&mut out, if windows { '\\' } else { '/' });
    }
    out.append(name.as_str());
    out
}

/// The views of a list of command argument lists.
pub open spec fn commands_view(v: Seq<Vec<String>>) -> Seq<Seq<Seq<char>>> {
    v.map_values(|c: Vec<String>| c@.map_values(|a: String| a@))
}

/// A command's arguments, from four texts.
fn args4(a: &str, b: &str, c: &str, d: &str) -> (r: Vec<String>)
    ensures
        r@.map_values(|x: String| x@) == seq![a@, b@, c@, d@],
{
    let r = vec![String::from_str(a), String::from_str(b), String::from_str(c), String::from_str(d)];
    assert(r@.map_values(|x: String| x@) =~= seq![a@, b@, c@, d@]);
    r
}

/// The `gsettings` argument lists that switch the GNOME proxy: the mode
/// always, then, when enabling, the local HTTP, HTTPS and SOCKS endpoints.
pub open spec fn gsettings_commands_spec(enable: bool, socks_port: u16, http_port: u16) -> Seq<Seq<Seq<char>>> {
    let mode = if enable {
        "manual"@
    } else {
        "none"@
    };
    let first = seq![seq!["set"@, "org.gnome.system.proxy"@, "mode"@, mode]];
    if enable {
        let http = decimal(http_port as nat);
        let socks = decimal(socks_port as nat);
        first + seq![
            seq!["set"@, "org.gnome.system.proxy.http"@, "host"@, "127.0.0.1"@],
            seq!["set"@, "org.gnome.system.proxy.http"@, "port"@, http],
            seq!["set"@, "org.gnome.system.proxy.https"@, "host"@, "127.0.0.1"@],
            seq!["set"@, "org.gnome.system.proxy.https"@, "port"@, http],
            seq!["set"@, "org.gnome.system.proxy.socks"@, "host"@, "127.0.0.1"@],
            seq!["set"@, "org.gnome.system.proxy.socks"@, "port"@, socks],
        ]
    } else {
        first
    }
}

/// The `gsettings` invocations that turn the system proxy on or off on Linux.
pub fn gsettings_commands(enable: bool, socks_port: u16, http_port: u16) -> (r: Vec<Vec<String>>)
    ensures
        commands_view(r@) == gsettings_commands_spec(enable, socks_port, http_port),
{
    let mode = if enable {
        "manual"
    } else {
        "none"
    };
    let mut out: Vec<Vec<String>> = Vec::new();
    out.push(args4("set", "org.gnome.system.proxy", "mode", mode));
    if enable {
        let http = u64_to_string(http_port as u64);
        let socks = u64_to_string(socks_port as u64);
        out.push(args4("set", "org.gnome.system.proxy.http", "host", "127.0.0.1"));
        out.push(args4("set", "org.gnome.system.proxy.http", "port", http.as_str()));
        out.push(args4("set", "org.gnome.system.proxy.https", "host", "127.0.0.1"));
        out.push(args4("set", "org.gnome.system.proxy.https", "port", http.as_str()));
        out.push(args4("set", "org.gnome.system.proxy.socks", "host", "127.0.0.1"));
        out.push(args4("set", "org.gnome.system.proxy.socks", "port", socks.as_str()));
    }
    assert(commands_view(out@) =~= gsettings_commands_spec(enable, socks_port, http_port));
    out
}

/// Some command after the first sets `key` of the settings schema `schema`.
pub open spec fn sets_key(cmds: Seq<Seq<Seq<char>>>, schema: Seq<char>, key: Seq<char>) -> bool {
    exists|i: int| 1 <= i < cmds.len() && (#[trigger] cmds[i])[1] == schema && cmds[i][2] == key
}

/// The GNOME proxy settings: the first command sets the mode (manual when
/// enabling, none when disabling) and disabling sets nothing else; enabling
/// sets a host and a port for each of HTTP, HTTPS and SOCKS, every host being
/// 127.0.0.1 and every port the local HTTP port, or the SOCKS port for SOCKS.
pub proof fn law_gsettings_point_at_local_proxy(enable: bool, socks_port: u16, http_port: u16)
    ensures
        gsettings_commands_spec(enable, socks_port, http_port).len() >= 1,
        gsettings_commands_spec(enable, socks_port, http_port)[0] == seq![
            "set"@,
            "org.gnome.system.proxy"@,
            "mode"@,
            if enable {
                "manual"@
            } else {
                "none"@
            },
        ],
        !enable ==> gsettings_commands_spec(enable, socks_port, http_port).len() == 1,
        enable ==> forall|i: int|
            1 <= i < gsettings_commands_spec(enable, socks_port, http_port).len() ==> {
                let c = #[trigger] gsettings_commands_spec(enable, socks_port, http_port)[i];
                &&& c.len() == 4
                &&& c[0] == "set"@
                &&& c[2] == "host"@ ==> c[3] == "127.0.0.1"@
                &&& c[2] == "port"@ ==> c[3] == decimal(
                    if c[1] == "org.gnome.system.proxy.socks"@ {
                        socks_port
                    } else {
                        http_port
                    } as nat,
                )
            },
        enable ==> {
            let c = gsettings_commands_spec(enable, socks_port, http_port);
            &&& sets_key(c, "org.gnome.system.proxy.http"@, "host"@)
            &&& sets_key(c, "org.gnome.system.proxy.http"@, "port"@)
            &&& sets_key(c, "org.gnome.system.proxy.https"@, "host"@)
            &&& sets_key(c, "org.gnome.system.proxy.https"@, "port"@)
            &&& sets_key(c, "org.gnome.system.proxy.socks"@, "host"@)
            &&& sets_key(c, "org.gnome.system.proxy.socks"@, "port"@)
        },
{
    reveal_strlit("host");
    reveal_strlit("port");
    reveal_strlit("org.gnome.system.proxy.http");
    reveal_strlit("org.gnome.system.proxy.https");
    reveal_strlit("org.gnome.system.proxy.socks");
    assert("host"@ != "port"@) by {
        assert("host"@[0] != "port"@[0]);
    }
    assert("org.gnome.system.proxy.http"@ != "org.gnome.system.proxy.socks"@) by {
        assert("org.gnome.system.proxy.http"@.len() != "org.gnome.system.proxy.socks"@.len());
    }
    assert("org.gnome.system.proxy.https"@ != "org.gnome.system.proxy.socks"@) by {
        assert("org.gnome.system.proxy.https"@[23] != "org.gnome.system.proxy.socks"@[23]);
    }
    if enable {
        let c = gsettings_commands_spec(enable, socks_port, http_port);
        assert(c[1][1] == "org.gnome.system.proxy.http"@ && c[1][2] == "host"@);
        assert(c[2][1] == "org.gnome.system.proxy.http"@ && c[2][2] == "port"@);
        assert(c[3][1] == "org.gnome.system.proxy.https"@ && c[3][2] == "host"@);
        assert(c[4][1] == "org.gnome.system.proxy.https"@ && c[4][2] == "port"@);
        assert(c[5][1] == "org.gnome.system.proxy.socks"@ && c[5][2] == "host"@);
        assert(c[6][1] == "org.gnome.system.proxy.socks"@ && c[6][2] == "port"@);
    }
}

/// The registry key of the per-user Internet settings.
pub open spec fn internet_settings_key() -> Seq<char> {
    "HKCU\\Software\\Microsoft\\Windows\\CurrentVersion\\Internet Settings"@
}

/// The `reg` argument lists that switch the Windows proxy: `ProxyEnable`
/// always, then, when enabling, `ProxyServer` pointing at the local HTTP port.
pub open spec fn reg_commands_spec(enable: bool, http_port: u16) -> Seq<Seq<Seq<char>>> {
    let flag = if enable {
        "1"@
    } else {
        "0"@
    };
    let first = seq![
        seq!["add"@, internet_settings_key(), "/v"@, "ProxyEnable"@, "/t"@, "REG_DWORD"@, "/d"@, flag, "/f"@],
    ];
    if enable {
        first + seq![
            seq![
                "add"@,
                internet_settings_key(),
                "/v"@,
                "ProxyServer"@,
                "/t"@,
                "REG_SZ"@,
                "/d"@,
                "127.0.0.1:"@ + decimal(http_port as nat),
                "/f"@,
            ],
        ]
    } else {
        first
    }
}

/// A `reg add` of one value under the Internet settings key.
fn reg_add(value: &str, kind: &str, data: &str) -> (r: Vec<String>)
    ensures
        r@.map_values(|x: String| x@) == seq!["add"@, internet_settings_key(), "/v"@, value@, "/t"@, kind@, "/d"@, data@, "/f"@],
{
    let r = vec![
        String::from_str("add"),
        String::from_str("HKCU\\Software\\Microsoft\\Windows\\CurrentVersion\\Internet Settings"),
        String::from_str("/v"),
        String::from_str(value),
        String::from_str("/t"),
        String::from_str(kind),
        String::from_str("/d"),
        String::from_str(data),
        String::from_str("/f"),
    ];
    assert(r@.map_values(|x: String| x@) =~= seq!["add"@, internet_settings_key(), "/v"@, value@, "/t"@, kind@, "/d"@, data@, "/f"@]);
    r
}

/// The `reg` invocations that turn the system proxy on or off on Windows.
pub fn reg_commands(enable: bool, http_port: u16) -> (r: Vec<Vec<String>>)
    ensures
        commands_view(r@) == reg_commands_spec(enable, http_port),
{
    let flag = if enable {
        "1"
    } else {
        "0"
    };
    let mut out: Vec<Vec<String>> = Vec::new();
    out.push(reg_add("ProxyEnable", "REG_DWORD", flag));
    if enable {
        let port = u64_to_string(http_port as u64);
        let server = join("127.0.0.1:", port.as_str());
        out.push(reg_add("ProxyServer", "REG_SZ", server.as_str()));
    }
    assert(commands_view(out@) =~= reg_commands_spec(enable, http_port));
    out
}

/// Installing Xray starts only when its executable is missing: the answer
/// when it is already there, nothing when it must be downloaded.
pub fn install_needed(bin_present: bool) -> (r: Option<String>)
    ensures
        bin_present ==> (r matches Some(m) && m@ == "Xray already installed"@),
        !bin_present ==> r is None,
{
    if bin_present {
        Some(String::from_str("Xray already installed"))
    } else {
        None
    }
}

/// The download of the archive must have succeeded; `status` is the HTTP
/// status as it prints.
pub fn download_status(success: bool, status: &str) -> (r: Result<(), String>)
    ensures
        success ==> r is Ok,
        !success ==> (r matches Err(e) && e@ == "Xray download failed: HTTP "@ + status@),
{
    if success {
        Ok(())
    } else {
        Err(join("Xray download failed: HTTP ", status))
    }
}

/// The outcome of an installation, once the archive is extracted: the
/// executable must be there.
pub fn install_outcome(bin_present: bool) -> (r: Result<String, String>)
    ensures
        bin_present ==> (r matches Ok(m) && m@ == "Xray installed successfully"@),
        !bin_present ==> (r matches Err(e) && e@ == "Xray archive extracted, but xray binary not found"@),
{
    if bin_present {
        Ok(String::from_str("Xray installed successfully"))
    } else {
        Err(String::from_str("Xray archive extracted, but xray binary not found"))
    }
}

/// Xray can be started only when its executable is installed.
pub fn launch_check(bin_present: bool) -> (r: Result<(), String>)
    ensures
        bin_present ==> r is Ok,
        !bin_present ==> (r matches Err(e) && e@ == "Xray binary not found. Install Xray-Core first."@),
{
    if bin_present {
        Ok(())
    } else {
        Err(String::from_str("Xray binary not found. Install Xray-Core first."))
    }
}

/// The arguments that run Xray on a configuration file, checking it only
/// when `test_only` is set.
pub fn xray_run_args(config_path: &str, test_only: bool) -> (r: Vec<String>)
    ensures
        test_only ==> r@.map_values(|a: String| a@) == seq!["run"@, "-config"@, config_path@, "-test"@],
        !test_only ==> r@.map_values(|a: String| a@) == seq!["run"@, "-config"@, config_path@],
{
    let mut r = vec![String::from_str("run"), String::from_str("-config"), String::from_str(config_path)];
    if test_only {
        r.push(String::from_str("-test"));
        assert(r@.map_values(|a: String| a@) =~= seq!["run"@, "-config"@, config_path@, "-test"@]);
    } else {
        assert(r@.map_values(|a: String| a@) =~= seq!["run"@, "-config"@, config_path@]);
    }
    r
}

/// The Windows proxy settings: the first command writes `ProxyEnable` as 1
/// when enabling and 0 when disabling, and disabling writes nothing else;
/// enabling also writes `ProxyServer` as `127.0.0.1:<HTTP port>`. Every
/// command writes under the per-user Internet settings key.
pub proof fn law_reg_points_at_local_proxy(enable: bool, http_port: u16)
    ensures
        reg_commands_spec(enable, http_port).len() == (if enable { 2int } else { 1int }),
        forall|i: int|
            0 <= i < reg_commands_spec(enable, http_port).len() ==> (#[trigger] reg_commands_spec(
                enable,
                http_port,
            )[i]).len() == 9 && reg_commands_spec(enable, http_port)[i][0] == "add"@ && reg_commands_spec(
                enable,
                http_port,
            )[i][1] == internet_settings_key(),
        reg_commands_spec(enable, http_port)[0][3] == "ProxyEnable"@,
        reg_commands_spec(enable, http_port)[0][7] == (if enable {
            "1"@
        } else {
            "0"@
        }),
        enable ==> reg_commands_spec(enable, http_port)[1][3] == "ProxyServer"@ && reg_commands_spec(
            enable,
            http_port,
        )[1][7] == "127.0.0.1:"@ + decimal(http_port as nat),
{
}

} // verus!
