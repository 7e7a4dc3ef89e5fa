use musicserver_desktop::backend::settings as backend_settings;
use musicserver_desktop::frontend::settings as frontend_settings;
use musicserver_desktop::paths::{BaseDir, FsPath};

fn under(base: BaseDir, parts: &[&str]) -> FsPath {
    FsPath::Under(base, parts.iter().map(|p| p.to_string()).collect())
}

fn backend_with_paths(cert: &str, key: &str) -> backend_settings::Settings {
    let mut s = backend_settings::Settings::default();
    s.https.cert_path = cert.to_string();
    s.https.key_path = key.to_string();
    s
}

#[test]
fn backend_default_ports() {
    assert_eq!(backend_settings::default_backend_port(), 3000);
    assert_eq!(backend_settings::default_mongo_port(), 27017);
}

#[test]
fn backend_defaults_serve_https_with_generated_certificate() {
    let s = backend_settings::Settings::default();
    assert_eq!(s.backend_port, 3000);
    assert_eq!(s.mongo_port, 27017);
    assert!(s.https.enabled);
    assert_eq!(s.https.cert_path, "");
    assert_eq!(s.https.key_path, "");
    let h = backend_settings::HttpsSettings::default();
    assert!(h.enabled);
    assert!(h.cert_path.is_empty() && h.key_path.is_empty());
}

#[test]
fn backend_load_falls_back_to_defaults() {
    let s = backend_settings::load(None);
    assert_eq!(s.backend_port, 3000);
    assert_eq!(s.mongo_port, 27017);
    assert!(s.https.enabled);
}

#[test]
fn backend_load_keeps_stored_settings() {
    let mut stored = backend_with_paths("/a.pem", "/b.pem");
    stored.backend_port = 8443;
    stored.mongo_port = 27018;
    stored.https.enabled = false;
    let s = backend_settings::load(Some(stored));
    assert_eq!(s.backend_port, 8443);
    assert_eq!(s.mongo_port, 27018);
    assert!(!s.https.enabled);
    assert_eq!(s.https.cert_path, "/a.pem");
    assert_eq!(s.https.key_path, "/b.pem");
}

#[test]
fn backend_settings_file_location() {
    assert_eq!(backend_settings::settings_path(), under(BaseDir::AppConfig, &["settings.json"]));
}

#[test]
fn empty_cert_paths_use_generated_pair() {
    let (cert, key) = backend_settings::effective_cert_paths(&backend_with_paths("", ""));
    assert_eq!(cert, under(BaseDir::AppData, &["certs", "server.crt"]));
    assert_eq!(key, under(BaseDir::AppData, &["certs", "server.key"]));
}

#[test]
fn blank_cert_paths_use_generated_pair() {
    let (cert, key) = backend_settings::effective_cert_paths(&backend_with_paths(" \t\n", "\u{3000}\u{a0}"));
    assert_eq!(cert, under(BaseDir::AppData, &["certs", "server.crt"]));
    assert_eq!(key, under(BaseDir::AppData, &["certs", "server.key"]));
}

#[test]
fn configured_cert_paths_are_trimmed() {
    let (cert, key) =
        backend_settings::effective_cert_paths(&backend_with_paths("  /etc/ssl/my cert.pem \n", "/etc/ssl/key.pem"));
    assert_eq!(cert, FsPath::Given("/etc/ssl/my cert.pem".to_string()));
    assert_eq!(key, FsPath::Given("/etc/ssl/key.pem".to_string()));
}

#[test]
fn configured_cert_path_padding_is_ignored() {
    let (padded, _) = backend_settings::effective_cert_paths(&backend_with_paths("\u{2003}/x.pem\u{2028}", ""));
    let (plain, _) = backend_settings::effective_cert_paths(&backend_with_paths("/x.pem", ""));
    assert_eq!(padded, plain);
    assert_eq!(plain, FsPath::Given("/x.pem".to_string()));
}

#[test]
fn one_configured_path_other_generated() {
    let (cert, key) = backend_settings::effective_cert_paths(&backend_with_paths("", "/k.pem"));
    assert_eq!(cert, under(BaseDir::AppData, &["certs", "server.crt"]));
    assert_eq!(key, FsPath::Given("/k.pem".to_string()));
}

#[test]
fn frontend_defaults_serve_plain_http() {
    let s = frontend_settings::Settings::default();
    assert_eq!(s.backend_url, "https://localhost:3000");
    assert_eq!(frontend_settings::default_backend_url(), "https://localhost:3000");
    assert!(!s.https.enabled);
    assert!(s.https.cert_path.is_empty() && s.https.key_path.is_empty());
    assert!(!frontend_settings::HttpsSettings::default().enabled);
}

#[test]
fn frontend_load_falls_back_or_keeps() {
    assert_eq!(frontend_settings::load(None).backend_url, "https://localhost:3000");
    let mut stored = frontend_settings::Settings::default();
    stored.backend_url = "http://nas.local:3000".to_string();
    stored.https.enabled = true;
    let s = frontend_settings::load(Some(stored));
    assert_eq!(s.backend_url, "http://nas.local:3000");
    assert!(s.https.enabled);
    assert_eq!(frontend_settings::settings_path(), under(BaseDir::AppConfig, &["settings.json"]));
}

#[test]
fn frontend_cert_paths() {
    let mut s = frontend_settings::Settings::default();
    s.https.cert_path = " /ui/cert.pem ".to_string();
    let (cert, key) = frontend_settings::effective_cert_paths(&s);
    assert_eq!(cert, FsPath::Given("/ui/cert.pem".to_string()));
    assert_eq!(key, under(BaseDir::AppData, &["certs", "server.key"]));
}

#[test]
fn frontend_validation() {
    let mut s = frontend_settings::Settings::default();
    assert_eq!(frontend_settings::validate(&s), Ok(()));
    s.https.enabled = true;
    assert_eq!(
        frontend_settings::validate(&s),
        Err(frontend_settings::SettingsError::CertificateAndKeyRequired)
    );
    s.https.cert_path = "/c.pem".to_string();
    assert!(frontend_settings::validate(&s).is_err());
    s.https.key_path = "   ".to_string();
    assert!(frontend_settings::validate(&s).is_err());
    s.https.key_path = "/k.pem".to_string();
    assert_eq!(frontend_settings::validate(&s), Ok(()));
    s.https.enabled = false;
    s.https.cert_path = String::new();
    assert_eq!(frontend_settings::validate(&s), Ok(()));
    assert_eq!(
        frontend_settings::SettingsError::CertificateAndKeyRequired.message(),
        "Serving the UI over HTTPS needs both a certificate and a private key path"
    );
}
