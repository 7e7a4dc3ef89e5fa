//! How the admin UI server is launched and when the window is pointed at it.

use vstd::prelude::*;
use crate::process::loopback_host;
use crate::paths::{BaseDir, FsPath, FsPathView, under2, under2_path};
use crate::text::{decimal, u16_text};
use crate::frontend::settings::Settings;

verus! {

/// The port the admin UI server listens on.
pub const UI_PORT: u16 = 3001;

/// How long the admin UI server may take to accept connections, in seconds.
pub const UI_READY_TIMEOUT_SECS: u64 = 60;

/// The backend URL handed to the UI server: the value of the environment
/// variable `MUSICSERVER_API_BASE_URL` when it is set (`from_env`), else the
/// saved setting (by default `https://localhost:3000`).
pub fn backend_url(from_env: Option<String>, settings: &Settings) -> (url: String)
    ensures
        url@ == (match from_env {
            Some(v) => v@,
            None => settings.backend_url@,
        }),
{
    match from_env {
        Some(v) => v,
        None => settings.backend_url.clone(),
    }
}

/// Where the UI server is run from: its bundled directory.
pub open spec fn ui_dir_location() -> FsPathView {
    under2(BaseDir::Resource, "resources"@, "ui"@)
}

/// The UI server's working directory; see `ui_dir_location`.
pub fn ui_dir() -> (p: FsPath)
    ensures
        p@ == ui_dir_location(),
{
    under2_path(BaseDir::Resource, "resources", "ui")
}

/// The bundled Node.js runtime that runs the UI server.
pub fn ui_sidecar() -> (s: String)
    ensures
        s@ == "binaries/node"@,
{
    String::from_str("binaries/node")
}

/// The arguments of the UI server's runtime.
pub fn ui_args() -> (args: Vec<String>)
    ensures
        args@.map_values(|s: String| s@) == seq!["server.js"@],
{
    let args = vec![String::from_str("server.js")];
    assert(args@.map_values(|s: String| s@) =~= seq!["server.js"@]);
    args
}

/// The environment the UI server is started with: its port, the loopback
/// host name, the backend URL, whether to serve HTTPS (as saved), and where
/// the certificate and key are.
pub open spec fn ui_env_texts(settings: &Settings, backend_url: Seq<char>, cert: Seq<char>, key: Seq<char>) -> Seq<(Seq<char>, Seq<char>)> {
    seq![
        ("PORT"@, decimal(3001)),
        ("HOSTNAME"@, loopback_host()),
        ("MUSICSERVER_API_BASE_URL"@, backend_url),
        ("HTTPS_ENABLED"@, if settings.https.enabled { "true"@ } else { "false"@ }),
        ("TLS_CERT_PATH"@, cert),
        ("TLS_KEY_PATH"@, key),
    ]
}

/// The UI server gets the backend URL exactly as chosen, whatever the HTTPS
/// setting, together with its port, the loopback host, the HTTPS flag, and the
/// certificate and key paths exactly as given.
pub proof fn lemma_ui_env_passes_values_unchanged(settings: &Settings, backend_url: Seq<char>, cert: Seq<char>, key: Seq<char>)
    ensures
        ui_env_texts(settings, backend_url, cert, key).len() == 6,
        ui_env_texts(settings, backend_url, cert, key)[0] == ("PORT"@, decimal(3001)),
        ui_env_texts(settings, backend_url, cert, key)[1] == ("HOSTNAME"@, "127.0.0.1"@),
        ui_env_texts(settings, backend_url, cert, key)[2] == ("MUSICSERVER_API_BASE_URL"@, backend_url),
        ui_env_texts(settings, backend_url, cert, key)[3]
            == ("HTTPS_ENABLED"@, if settings.https.enabled { "true"@ } else { "false"@ }),
        ui_env_texts(settings, backend_url, cert, key)[4] == ("TLS_CERT_PATH"@, cert),
        ui_env_texts(settings, backend_url, cert, key)[5] == ("TLS_KEY_PATH"@, key),
{
}

/// The environment the UI server is started with; see `ui_env_texts`.
pub fn ui_env(settings: &Settings, backend_url: &str, cert: &str, key: &str) -> (env: Vec<(String, String)>)
    ensures
        env@.map_values(|p: (String, String)| (p.0@, p.1@)) == ui_env_texts(settings, backend_url@, cert@, key@),
        env@.len() == 6,
        env@[0].1@ == decimal(3001),
        env@[1].1@ == "127.0.0.1"@,
        env@[2].0@ == "MUSICSERVER_API_BASE_URL"@,
        env@[2].1@ == backend_url@,
        env@[3].1@ == (if settings.https.enabled { "true"@ } else { "false"@ }),
        env@[4].1@ == cert@,
        env@[5].1@ == key@,
{
    let https = if settings.https.enabled {
        String::from_str("true")
    } else {
        String::from_str("false")
    };
    let env = vec![
        (String::from_str("PORT"), u16_text(UI_PORT)),
        (String::from_str("HOSTNAME"), String::from_str("127.0.0.1")),
        (String::from_str("MUSICSERVER_API_BASE_URL"), backend_url.to_owned()),
        (String::from_str("HTTPS_ENABLED"), https),
        (String::from_str("TLS_CERT_PATH"), cert.to_owned()),
        (String::from_str("TLS_KEY_PATH"), key.to_owned()),
    ];
    assert(env@.map_values(|p: (String, String)| (p.0@, p.1@)) =~= ui_env_texts(settings, backend_url@, cert@, key@));
    env
}

/// The address the window is pointed at once the UI server is up: `https`
/// when the UI is served over HTTPS, `http` otherwise.
pub open spec fn ui_address(https: bool) -> Seq<char> {
    (if https { "https"@ } else { "http"@ }) + "://localhost:"@ + decimal(3001) + "/"@
}

/// The address the window is pointed at; see `ui_address`.
pub fn ui_url(settings: &Settings) -> (url: String)
    ensures
        url@ == ui_address(settings.https.enabled),
        url@ == (if settings.https.enabled { "https"@ } else { "http"@ }) + "://localhost:"@ + decimal(3001) + "/"@,
{
    let mut url = if settings.https.enabled {
        String::from_str("https")
    } else {
        String::from_str("http")
    };
    url.append("://localhost:");
    let p = u16_text(UI_PORT);
    url.append(p.as_str());
    url.append("/");
    url
}

/// The error when the UI server does not come up in time.
pub fn ui_timeout_message() -> (m: String)
    ensures
        m@ == "timed out waiting for the UI server"@,
{
    String::from_str("timed out waiting for the UI server")
}

} // verus!
