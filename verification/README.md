# proxudesktop

The core of Proxu Desktop, a desktop client for the proxu.pro proxy service,
written in Verus: each function states what it does in its contract, and Verus
proves the code against it.

## Layout

- `src/` — the verified library.
  - `text.rs`, `json.rs` — strings and JSON values with their models.
  - `urls.rs`, `codec.rs` — the parts of URL parsing, percent, base64 and
    UTF-8 decoding that the link logic reads (calls into `url`,
    `urlencoding`, `base64` and std).
  - `xray.rs` — VLESS and VMess links to Xray outbounds, and the whole Xray
    configuration built from a link and the settings.
  - `api.rs` — the records of the proxu.pro user API and how its replies are
    read; the choice of an inbound for a new profile.
  - `profiles.rs` — the profile list built from the API, and how it is stored
    in the settings.
  - `commands.rs` — login credentials, latency and address checks, payment
    status.
  - `setup.rs`, `archive.rs` — installing Xray (release asset, zip
    extraction) and the system proxy commands.
  - `traffic.rs` — traffic counters from `ss -tni` or from Xray's API.
  - `service/` — service mode: systemd and `ip`/`nft` on Linux, `sc`,
    `netsh`, `route` and WinTun on Windows, refusal elsewhere.
- `tests/` — tests of the library on concrete values.
- `app/` — the desktop side: settings file, HTTP requests, processes, files,
  and the commands the window calls.
