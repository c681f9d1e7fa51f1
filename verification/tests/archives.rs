use proxudesktop::archive::{wintun_dll_from_archive, xray_extraction, ExtractAction};
use proxudesktop::setup::{download_status, install_needed, install_outcome, launch_check, xray_run_args};
use std::io::{Cursor, Write};

fn zip_of(entries: &[(&str, Option<&[u8]>)]) -> Vec<u8> {
    let mut w = zip::ZipWriter::new(Cursor::new(Vec::new()));
    let opts = zip::write::SimpleFileOptions::default();
    for (name, data) in entries {
        match data {
            Some(d) => {
                w.start_file(name.to_string(), opts).unwrap();
                w.write_all(d).unwrap();
            }
            None => {
                w.add_directory(name.to_string(), opts).unwrap();
            }
        }
    }
    w.finish().unwrap().into_inner()
}

#[test]
fn xray_archive_actions() {
    let bytes = zip_of(&[
        ("geo/", None),
        ("geo/geoip.dat", Some(b"GEO")),
        ("xray", Some(b"\x7fELF")),
        ("README.md", Some(b"readme")),
    ]);
    let (actions, err) = xray_extraction(bytes, "/opt/x", false);
    assert!(err.is_none());
    assert_eq!(actions.len(), 4);
    match &actions[0] {
        ExtractAction::CreateDir(p) => assert_eq!(p, "/opt/x/geo/"),
        _ => panic!("expected a directory"),
    }
    match &actions[1] {
        ExtractAction::WriteFile { path, data, executable } => {
            assert_eq!(path, "/opt/x/geo/geoip.dat");
            assert_eq!(data, b"GEO");
            assert!(!executable);
        }
        _ => panic!("expected a file"),
    }
    match &actions[2] {
        ExtractAction::WriteFile { path, data, executable } => {
            assert_eq!(path, "/opt/x/xray");
            assert_eq!(data, b"\x7fELF");
            assert!(*executable);
        }
        _ => panic!("expected a file"),
    }
}

#[test]
fn xray_archive_on_windows_and_unsafe_names() {
    let bytes = zip_of(&[("../evil", Some(b"x")), ("xray.exe", Some(b"MZ")), ("sub/xray", Some(b"y"))]);
    let (actions, err) = xray_extraction(bytes, "C:\\X", true);
    assert!(err.is_none());
    assert_eq!(actions.len(), 2);
    match &actions[0] {
        ExtractAction::WriteFile { path, executable, .. } => {
            assert_eq!(path, "C:\\X\\xray.exe");
            assert!(!executable);
        }
        _ => panic!("expected a file"),
    }
    match &actions[1] {
        ExtractAction::WriteFile { path, executable, .. } => {
            assert_eq!(path, "C:\\X\\sub/xray");
            assert!(!executable);
        }
        _ => panic!("expected a file"),
    }
}

#[test]
fn xray_archive_not_a_zip() {
    let (actions, err) = xray_extraction(b"plain text".to_vec(), "/opt/x", false);
    assert!(actions.is_empty());
    assert!(err.unwrap().starts_with("Failed to read Xray zip archive: "));
}

#[test]
fn wintun_dll_is_found() {
    let bytes = zip_of(&[
        ("wintun/README.md", Some(b"r")),
        ("wintun/bin/arm64/wintun.dll", Some(b"ARM")),
        ("wintun/bin/amd64/wintun.dll", Some(b"AMD")),
    ]);
    assert_eq!(wintun_dll_from_archive(bytes.clone(), "x86_64").unwrap(), b"ARM".to_vec());
    let bytes2 = zip_of(&[("wintun/README.md", Some(b"r")), ("wintun/bin/amd64/wintun.dll", Some(b"AMD"))]);
    assert_eq!(wintun_dll_from_archive(bytes2, "x86_64").unwrap(), b"AMD".to_vec());
    assert_eq!(wintun_dll_from_archive(bytes, "mips").unwrap_err(), "Unsupported architecture");
}

#[test]
fn wintun_dll_missing() {
    let bytes = zip_of(&[("wintun/README.md", Some(b"r"))]);
    assert_eq!(wintun_dll_from_archive(bytes, "aarch64").unwrap_err(), "WinTun DLL not found in archive");
    assert!(wintun_dll_from_archive(vec![1, 2, 3], "x86_64").is_err());
}

#[test]
fn install_steps() {
    assert_eq!(install_needed(true).as_deref(), Some("Xray already installed"));
    assert_eq!(install_needed(false), None);
    assert!(download_status(true, "200 OK").is_ok());
    assert_eq!(download_status(false, "404 Not Found").unwrap_err(), "Xray download failed: HTTP 404 Not Found");
    assert_eq!(install_outcome(true).unwrap(), "Xray installed successfully");
    assert_eq!(install_outcome(false).unwrap_err(), "Xray archive extracted, but xray binary not found");
    assert!(launch_check(true).is_ok());
    assert_eq!(launch_check(false).unwrap_err(), "Xray binary not found. Install Xray-Core first.");
    assert_eq!(xray_run_args("/c.json", true), vec!["run", "-config", "/c.json", "-test"]);
    assert_eq!(xray_run_args("/c.json", false), vec!["run", "-config", "/c.json"]);
}
