//! What the status window of the backend package shows.

use vstd::prelude::*;
use crate::backend::settings::Settings;
use crate::process::loopback_host;
use crate::text::{decimal, u16_text};

verus! {

/// Live status of the supervised services.
#[derive(Clone, Debug)]
pub struct Status {
    pub mongo: bool,
    pub backend: bool,
    pub https: bool,
    pub backend_port: u16,
    pub mongo_port: u16,
    pub message: String,
}

/// The model of a status.
pub struct StatusView {
    pub mongo: bool,
    pub backend: bool,
    pub https: bool,
    pub backend_port: u16,
    pub mongo_port: u16,
    pub message: Seq<char>,
}

impl View for Status {
    type V = StatusView;

    open spec fn view(&self) -> StatusView {
        StatusView {
            mongo: self.mongo,
            backend: self.backend,
            https: self.https,
            backend_port: self.backend_port,
            mongo_port: self.mongo_port,
            message: self.message@,
        }
    }
}

/// The status before anything has started.
pub open spec fn initial_status() -> StatusView {
    StatusView {
        mongo: false,
        backend: false,
        https: true,
        backend_port: 3000,
        mongo_port: 27017,
        message: Seq::empty(),
    }
}

impl Default for Status {
    fn default() -> (s: Self)
        ensures
            s@ == initial_status(),
    {
        Status {
            mongo: false,
            backend: false,
            https: true,
            backend_port: 3000,
            mongo_port: 27017,
            message: String::new(),
        }
    }
}

/// The message shown once MongoDB accepts connections on `port`.
pub open spec fn mongo_ready_message(port: u16) -> Seq<char> {
    "MongoDB ready on "@ + loopback_host() + ":"@ + decimal(port as nat)
}

/// The URL scheme of the backend API.
pub open spec fn scheme(https: bool) -> Seq<char> {
    if https {
        "https"@
    } else {
        "http"@
    }
}

/// The message shown once the backend API accepts connections on `port`.
pub open spec fn backend_ready_message(https: bool, port: u16) -> Seq<char> {
    "Backend API ready on "@ + scheme(https) + "://"@ + loopback_host() + ":"@ + decimal(port as nat)
}

/// The ready messages name the loopback address and the port in decimal,
/// with the scheme the backend API is served with.
pub proof fn lemma_ready_messages(port: u16)
    ensures
        mongo_ready_message(port) == "MongoDB ready on 127.0.0.1:"@ + decimal(port as nat),
        backend_ready_message(true, port) == "Backend API ready on https://127.0.0.1:"@ + decimal(port as nat),
        backend_ready_message(false, port) == "Backend API ready on http://127.0.0.1:"@ + decimal(port as nat),
{
    reveal_strlit("MongoDB ready on ");
    reveal_strlit("127.0.0.1");
    reveal_strlit(":");
    reveal_strlit("MongoDB ready on 127.0.0.1:");
    reveal_strlit("Backend API ready on ");
    reveal_strlit("https");
    reveal_strlit("http");
    reveal_strlit("://");
    reveal_strlit("Backend API ready on https://127.0.0.1:");
    reveal_strlit("Backend API ready on http://127.0.0.1:");
    let d = decimal(port as nat);
    assert(mongo_ready_message(port) =~= "MongoDB ready on 127.0.0.1:"@ + d);
    assert(backend_ready_message(true, port) =~= "Backend API ready on https://127.0.0.1:"@ + d);
    assert(backend_ready_message(false, port) =~= "Backend API ready on http://127.0.0.1:"@ + d);
}

/// The status before anything has started, as the status window shows it:
/// nothing up, HTTPS, the default ports, no message.
pub proof fn lemma_initial_status()
    ensures
        !initial_status().mongo && !initial_status().backend,
        initial_status().https,
        initial_status().backend_port == 3000,
        initial_status().mongo_port == 27017,
        initial_status().message.len() == 0,
{
}

impl Status {
    /// Takes over the ports and the HTTPS flag of freshly loaded settings.
    pub fn adopt_settings(&mut self, settings: &Settings)
        ensures
            final(self)@ == (StatusView {
                https: settings.https.enabled,
                backend_port: settings.backend_port,
                mongo_port: settings.mongo_port,
                ..old(self)@
            }),
    {
        self.https = settings.https.enabled;
        self.backend_port = settings.backend_port;
        self.mongo_port = settings.mongo_port;
    }

    /// Replaces the message.
    pub fn set_message(&mut self, message: String)
        ensures
            final(self)@ == (StatusView { message: message@, ..old(self)@ }),
    {
        self.message = message;
    }

    /// The backend is no longer up.
    pub fn mark_backend_down(&mut self)
        ensures
            final(self)@ == (StatusView { backend: false, ..old(self)@ }),
    {
        self.backend = false;
    }

    /// Neither MongoDB nor the backend is up any more.
    pub fn mark_services_down(&mut self)
        ensures
            final(self)@ == (StatusView { mongo: false, backend: false, ..old(self)@ }),
    {
        self.mongo = false;
        self.backend = false;
    }

    /// MongoDB is up, on the port of the current settings.
    pub fn mark_mongo_up(&mut self, settings: &Settings)
        ensures
            final(self)@ == (StatusView {
                mongo: true,
                mongo_port: settings.mongo_port,
                message: mongo_ready_message(settings.mongo_port),
                ..old(self)@
            }),
    {
        let port = settings.mongo_port;
        let mut m = String::from_str("MongoDB ready on ");
        m.append("127.0.0.1");
        m.append(":");
        let p = u16_text(port);
        m.append(p.as_str());
        self.mongo = true;
        self.mongo_port = port;
        self.message = m;
    }

    /// The backend is up, with the HTTPS flag and port of the current settings.
    pub fn mark_backend_up(&mut self, settings: &Settings)
        ensures
            final(self)@ == (StatusView {
                backend: true,
                https: settings.https.enabled,
                backend_port: settings.backend_port,
                message: backend_ready_message(settings.https.enabled, settings.backend_port),
                ..old(self)@
            }),
    {
        let https = settings.https.enabled;
        let port = settings.backend_port;
        let mut m = String::from_str("Backend API ready on ");
        if https {
            m.append("https");
        } else {
            m.append("http");
        }
        m.append("://");
        m.append("127.0.0.1");
        m.append(":");
        let p = u16_text(port);
        m.append(p.as_str());
        self.backend = true;
        self.https = https;
        self.backend_port = port;
        self.message = m;
    }
}

} // verus!
