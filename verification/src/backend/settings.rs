//! Persistent settings of the backend package, stored as JSON in the per-user
//! configuration directory.

use vstd::prelude::*;
use crate::https::{HttpsView, cert_location, resolve_cert_location};
use crate::text::{is_blank, trimmed};
use crate::paths::{BaseDir, FsPath, FsPathView, under1, under1_path};

verus! {

/// HTTPS configuration of the backend API.
#[derive(Clone, Debug)]
pub struct HttpsSettings {
    /// Serve the backend API over HTTPS.
    pub enabled: bool,
    /// Absolute path to a certificate (PEM). Empty = auto-generate self-signed.
    pub cert_path: String,
    /// Absolute path to the private key (PEM). Empty = auto-generate self-signed.
    pub key_path: String,
}

impl View for HttpsSettings {
    type V = HttpsView;

    open spec fn view(&self) -> HttpsView {
        HttpsView { enabled: self.enabled, cert_path: self.cert_path@, key_path: self.key_path@ }
    }
}

/// The HTTPS defaults of the backend: served over HTTPS, with a generated
/// self-signed certificate.
pub open spec fn https_defaults() -> HttpsView {
    HttpsView { enabled: true, cert_path: Seq::empty(), key_path: Seq::empty() }
}

impl Default for HttpsSettings {
    fn default() -> (s: Self)
        ensures
            s@ == https_defaults(),
    {
        HttpsSettings { enabled: true, cert_path: String::new(), key_path: String::new() }
    }
}

/// The port the backend API listens on unless configured otherwise.
pub fn default_backend_port() -> (p: u16)
    ensures
        p == 3000,
{
    3000
}

/// The port MongoDB listens on unless configured otherwise.
pub fn default_mongo_port() -> (p: u16)
    ensures
        p == 27017,
{
    27017
}

/// Settings of the backend package.
#[derive(Clone, Debug)]
pub struct Settings {
    /// TCP port the backend (Fastify) API listens on.
    pub backend_port: u16,
    /// TCP port the bundled MongoDB listens on (loopback).
    pub mongo_port: u16,
    pub https: HttpsSettings,
}

/// The model of the backend settings.
pub struct SettingsView {
    pub backend_port: u16,
    pub mongo_port: u16,
    pub https: HttpsView,
}

impl View for Settings {
    type V = SettingsView;

    open spec fn view(&self) -> SettingsView {
        SettingsView { backend_port: self.backend_port, mongo_port: self.mongo_port, https: self.https@ }
    }
}

/// The settings used when none are stored: API on 3000, MongoDB on 27017,
/// HTTPS with a generated certificate.
pub open spec fn settings_defaults() -> SettingsView {
    SettingsView { backend_port: 3000, mongo_port: 27017, https: https_defaults() }
}

impl Default for Settings {
    fn default() -> (s: Self)
        ensures
            s@ == settings_defaults(),
    {
        Settings {
            backend_port: default_backend_port(),
            mongo_port: default_mongo_port(),
            https: HttpsSettings::default(),
        }
    }
}

/// The documented defaults of the backend package: the API on port 3000,
/// MongoDB on port 27017, served over HTTPS with a generated certificate (no
/// certificate or key configured).
pub proof fn lemma_documented_defaults()
    ensures
        settings_defaults().backend_port == 3000,
        settings_defaults().mongo_port == 27017,
        settings_defaults().https.enabled,
        settings_defaults().https.cert_path.len() == 0,
        settings_defaults().https.key_path.len() == 0,
{
}

/// Where the settings are stored.
pub open spec fn settings_location() -> FsPathView {
    under1(BaseDir::AppConfig, "settings.json"@)
}

/// The settings file, `settings.json` in the per-user configuration directory.
pub fn settings_path() -> (p: FsPath)
    ensures
        p@ == settings_location(),
{
    under1_path(BaseDir::AppConfig, "settings.json")
}

/// The settings in effect after loading: what was stored, when the file
/// could be read and parsed (`stored` is `Some`), else the defaults.
pub fn load(stored: Option<Settings>) -> (s: Settings)
    ensures
        s@ == (match stored {
            Some(t) => t@,
            None => settings_defaults(),
        }),
{
    match stored {
        Some(t) => t,
        None => Settings::default(),
    }
}

/// Resolves the effective (certificate, key) locations. Empty configured
/// values fall back to a writable, persistent location under the data
/// directory, where the backend auto-generates (and reuses) a self-signed
/// certificate.
pub fn effective_cert_paths(settings: &Settings) -> (paths: (FsPath, FsPath))
    ensures
        paths.0@ == cert_location(settings.https.cert_path@, "server.crt"@),
        paths.1@ == cert_location(settings.https.key_path@, "server.key"@),
        !is_blank(settings.https.cert_path@) ==> paths.0@ == FsPathView::Given(trimmed(settings.https.cert_path@)),
        !is_blank(settings.https.key_path@) ==> paths.1@ == FsPathView::Given(trimmed(settings.https.key_path@)),
        is_blank(settings.https.cert_path@) ==> paths.0@ == FsPathView::Under(BaseDir::AppData, seq!["certs"@, "server.crt"@]),
        is_blank(settings.https.key_path@) ==> paths.1@ == FsPathView::Under(BaseDir::AppData, seq!["certs"@, "server.key"@]),
{
    let cert = resolve_cert_location(&settings.https.cert_path, "server.crt");
    let key = resolve_cert_location(&settings.https.key_path, "server.key");
    (cert, key)
}

} // verus!
