//! Persistent settings of the admin UI package, stored as JSON in the
//! per-user configuration directory.

use vstd::prelude::*;
use crate::https::{HttpsView, cert_location, resolve_cert_location};
use crate::paths::{BaseDir, FsPath, FsPathView, under1, under1_path};
use crate::text::{is_blank, trimmed, trim, lemma_trimmed_empty_iff_blank};

verus! {

/// HTTPS configuration of the admin UI.
#[derive(Clone, Debug)]
pub struct HttpsSettings {
    /// Serve the admin UI over HTTPS.
    pub enabled: bool,
    /// Absolute path to a certificate (PEM). Empty = auto-generate self-signed.
    pub cert_path: String,
    /// Absolute path to the private key (PEM). Empty = auto-generate self-signed.
    pub key_path: String,
}

impl View for HttpsSettings {
    type V = HttpsView;

    open spec fn view(&self) -> HttpsView {
        HttpsView { enabled: self.enabled, cert_path: self.cert_path@, key_path: self.key_path@ }
    }
}

/// The HTTPS defaults of the admin UI: served over plain HTTP on loopback.
pub open spec fn https_defaults() -> HttpsView {
    HttpsView { enabled: false, cert_path: Seq::empty(), key_path: Seq::empty() }
}

impl Default for HttpsSettings {
    fn default() -> (s: Self)
        ensures
            s@ == https_defaults(),
    {
        HttpsSettings { enabled: false, cert_path: String::new(), key_path: String::new() }
    }
}

/// The backend URL used unless configured otherwise. The backend package
/// serves HTTPS by default, and the UI server trusts a self-signed backend
/// certificate for https URLs.
pub open spec fn backend_url_default() -> Seq<char> {
    "https://localhost:3000"@
}

/// The backend URL used unless configured otherwise; see `backend_url_default`.
pub fn default_backend_url() -> (url: String)
    ensures
        url@ == backend_url_default(),
{
    String::from_str("https://localhost:3000")
}

/// Settings of the admin UI package.
#[derive(Clone, Debug)]
pub struct Settings {
    /// Base URL of the Music Server backend API (http or https).
    pub backend_url: String,
    pub https: HttpsSettings,
}

/// The model of the admin UI settings.
pub struct SettingsView {
    pub backend_url: Seq<char>,
    pub https: HttpsView,
}

impl View for Settings {
    type V = SettingsView;

    open spec fn view(&self) -> SettingsView {
        SettingsView { backend_url: self.backend_url@, https: self.https@ }
    }
}

/// The settings used when none are stored.
pub open spec fn settings_defaults() -> SettingsView {
    SettingsView { backend_url: backend_url_default(), https: https_defaults() }
}

impl Default for Settings {
    fn default() -> (s: Self)
        ensures
            s@ == settings_defaults(),
    {
        Settings { backend_url: default_backend_url(), https: HttpsSettings::default() }
    }
}

/// Where the settings are stored.
pub open spec fn settings_location() -> FsPathView {
    under1(BaseDir::AppConfig, "settings.json"@)
}

/// The settings file, `settings.json` in the per-user configuration directory.
pub fn settings_path() -> (p: FsPath)
    ensures
        p@ == settings_location(),
{
    under1_path(BaseDir::AppConfig, "settings.json")
}

/// The settings in effect after loading: what was stored, when the file
/// could be read and parsed (`stored` is `Some`), else the defaults.
pub fn load(stored: Option<Settings>) -> (s: Settings)
    ensures
        s@ == (match stored {
            Some(t) => t@,
            None => settings_defaults(),
        }),
{
    match stored {
        Some(t) => t,
        None => Settings::default(),
    }
}

/// The documented defaults of the admin UI package: the backend at
/// `https://localhost:3000`, and the UI itself served over plain HTTP with no
/// certificate or key configured.
pub proof fn lemma_documented_defaults()
    ensures
        settings_defaults().backend_url == "https://localhost:3000"@,
        !settings_defaults().https.enabled,
        settings_defaults().https.cert_path.len() == 0,
        settings_defaults().https.key_path.len() == 0,
{
}

/// Why settings cannot be saved.
#[derive(Clone, Copy, Debug, PartialEq, Eq, Structural)]
pub enum SettingsError {
    /// HTTPS is enabled, but the certificate or the private key path is empty.
    CertificateAndKeyRequired,
}

impl SettingsError {
    /// A sentence describing the problem.
    pub fn message(&self) -> (m: String)
        ensures
            m@ == "Serving the UI over HTTPS needs both a certificate and a private key path"@,
    {
        String::from_str("Serving the UI over HTTPS needs both a certificate and a private key path")
    }
}

/// Settings can be saved unless HTTPS is enabled with a certificate or key
/// path that holds nothing but whitespace: the desktop window rejects
/// self-signed certificates, so the pair must be one the system trusts.
pub open spec fn savable(s: SettingsView) -> bool {
    s.https.enabled ==> !is_blank(s.https.cert_path) && !is_blank(s.https.key_path)
}

/// Checks settings before they are saved; see `savable`.
pub fn validate(settings: &Settings) -> (r: Result<(), SettingsError>)
    ensures
        r is Ok <==> savable(settings@),
        r matches Err(e) ==> e == SettingsError::CertificateAndKeyRequired,
        !settings.https.enabled ==> r is Ok,
        settings.https.enabled && (is_blank(settings.https.cert_path@) || is_blank(settings.https.key_path@)) ==> r is Err,
        settings.https.enabled && !is_blank(settings.https.cert_path@) && !is_blank(settings.https.key_path@) ==> r is Ok,
{
    if !settings.https.enabled {
        return Ok(());
    }
    proof {
        lemma_trimmed_empty_iff_blank(settings.https.cert_path@);
        lemma_trimmed_empty_iff_blank(settings.https.key_path@);
    }
    if trim(settings.https.cert_path.as_str()).is_empty() || trim(settings.https.key_path.as_str()).is_empty() {
        Err(SettingsError::CertificateAndKeyRequired)
    } else {
        Ok(())
    }
}

/// Resolves the effective (certificate, key) locations for the UI's HTTPS
/// server. Empty configured values fall back to a writable, persistent
/// location under the data directory, where the UI server auto-generates a
/// self-signed certificate.
pub fn effective_cert_paths(settings: &Settings) -> (paths: (FsPath, FsPath))
    ensures
        paths.0@ == cert_location(settings.https.cert_path@, "server.crt"@),
        paths.1@ == cert_location(settings.https.key_path@, "server.key"@),
        !is_blank(settings.https.cert_path@) ==> paths.0@ == FsPathView::Given(trimmed(settings.https.cert_path@)),
        !is_blank(settings.https.key_path@) ==> paths.1@ == FsPathView::Given(trimmed(settings.https.key_path@)),
        is_blank(settings.https.cert_path@) ==> paths.0@ == FsPathView::Under(BaseDir::AppData, seq!["certs"@, "server.crt"@]),
        is_blank(settings.https.key_path@) ==> paths.1@ == FsPathView::Under(BaseDir::AppData, seq!["certs"@, "server.key"@]),
{
    let cert = resolve_cert_location(&settings.https.cert_path, "server.crt");
    let key = resolve_cert_location(&settings.https.key_path, "server.key");
    (cert, key)
}

} // verus!
