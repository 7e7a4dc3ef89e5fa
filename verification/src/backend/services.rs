//! The supervisor's decisions for the backend package: how MongoDB and the
//! backend are launched, the order of the steps that start and restart them,
//! and how waiting for a port ends.

use vstd::prelude::*;
use crate::backend::settings::Settings;
use crate::process::loopback_host;
use crate::paths::{BaseDir, FsPath, FsPathView, under1, under3, under1_path, under3_path};
use crate::process::{Process, process_label};
use crate::text::{decimal, u16_text};

verus! {

/// A service that the backend package supervises.
#[derive(Clone, Copy, Debug, PartialEq, Eq, Structural)]
pub enum Service {
    Mongo,
    Backend,
}

/// The process that runs a service.
pub open spec fn service_process(s: Service) -> Process {
    match s {
        Service::Mongo => Process::Mongod,
        Service::Backend => Process::Backend,
    }
}

/// The name of a service in the messages about it.
pub open spec fn service_title(s: Service) -> Seq<char> {
    match s {
        Service::Mongo => "MongoDB"@,
        Service::Backend => "backend"@,
    }
}

/// The configured port of a service.
pub open spec fn service_port(settings: &Settings, s: Service) -> u16 {
    match s {
        Service::Mongo => settings.mongo_port,
        Service::Backend => settings.backend_port,
    }
}

/// How long a service may take to accept connections once launched.
pub open spec fn ready_timeout(s: Service) -> u64 {
    match s {
        Service::Mongo => 30,
        Service::Backend => 60,
    }
}

impl Service {
    /// The process that runs the service.
    pub fn process(&self) -> (p: Process)
        ensures
            p == service_process(*self),
    {
        match self {
            Service::Mongo => Process::Mongod,
            Service::Backend => Process::Backend,
        }
    }

    /// The name of the service in the messages about it.
    pub fn title(&self) -> (s: String)
        ensures
            s@ == service_title(*self),
    {
        match self {
            Service::Mongo => String::from_str("MongoDB"),
            Service::Backend => String::from_str("backend"),
        }
    }

    /// The configured port of the service.
    pub fn port(&self, settings: &Settings) -> (p: u16)
        ensures
            p == service_port(settings, *self),
    {
        match self {
            Service::Mongo => settings.mongo_port,
            Service::Backend => settings.backend_port,
        }
    }

    /// How long the service may take to accept connections once launched, in seconds.
    pub fn ready_timeout_secs(&self) -> (t: u64)
        ensures
            t == ready_timeout(*self),
    {
        match self {
            Service::Mongo => 30,
            Service::Backend => 60,
        }
    }

    /// The bundled program that runs the service.
    pub fn sidecar(&self) -> (s: String)
        ensures
            s@ == (match *self {
                Service::Mongo => "mongod"@,
                Service::Backend => "node"@,
            }),
    {
        match self {
            Service::Mongo => String::from_str("mongod"),
            Service::Backend => String::from_str("node"),
        }
    }
}

/// A progress message of the supervisor.
#[derive(Clone, Copy, Debug, PartialEq, Eq, Structural)]
pub enum Notice {
    StartingMongo,
    RestartingBackend,
    RestartingServices,
}

/// The text of a progress message.
pub open spec fn notice_text(n: Notice) -> Seq<char> {
    match n {
        Notice::StartingMongo => "Starting MongoDB…"@,
        Notice::RestartingBackend => "Applying settings — restarting backend…"@,
        Notice::RestartingServices => "Applying settings — restarting services…"@,
    }
}

impl Notice {
    /// The text of the message.
    pub fn text(&self) -> (s: String)
        ensures
            s@ == notice_text(*self),
    {
        match self {
            Notice::StartingMongo => String::from_str("Starting MongoDB…"),
            Notice::RestartingBackend => String::from_str("Applying settings — restarting backend…"),
            Notice::RestartingServices => String::from_str("Applying settings — restarting services…"),
        }
    }
}

/// One step of starting or restarting the services. The steps of a plan run
/// in order; the first that fails ends the plan with its error.
#[derive(Clone, Copy, Debug, PartialEq, Eq, Structural)]
pub enum Step {
    /// Show a progress message.
    Announce(Notice),
    /// Show the backend as down.
    BackendDown,
    /// Show both services as down.
    ServicesDown,
    /// Create MongoDB's data directory and the logs directory.
    CreateMongoDirs,
    /// Stop every running process of the service.
    Stop(Service),
    /// Wait (at most `probe::PORT_FREE_TIMEOUT_SECS`) until nothing accepts
    /// connections on the service's port any more; this step never fails.
    AwaitPortFree(Service),
    /// Start the service's process with the current settings.
    Launch(Service),
    /// Wait until the service accepts connections on its port; fails if its
    /// process exits first or `ready_timeout` passes.
    AwaitReady(Service),
    /// Show the service as up.
    MarkUp(Service),
}

/// The steps that launch MongoDB and then the backend, each once the
/// previous service accepts connections.
pub open spec fn launch_steps() -> Seq<Step> {
    seq![
        Step::CreateMongoDirs,
        Step::Announce(Notice::StartingMongo),
        Step::Launch(Service::Mongo),
        Step::AwaitReady(Service::Mongo),
        Step::MarkUp(Service::Mongo),
        Step::Launch(Service::Backend),
        Step::AwaitReady(Service::Backend),
        Step::MarkUp(Service::Backend),
    ]
}

/// The steps that relaunch the backend alone.
pub open spec fn backend_relaunch_steps() -> Seq<Step> {
    seq![
        Step::Launch(Service::Backend),
        Step::AwaitReady(Service::Backend),
        Step::MarkUp(Service::Backend),
    ]
}

/// The steps that apply new settings: when the MongoDB port changed both
/// services are stopped and relaunched (the backend's MongoDB address
/// changes too); otherwise only the backend is.
pub open spec fn restart_steps(mongo_changed: bool) -> Seq<Step> {
    if mongo_changed {
        seq![
            Step::Announce(Notice::RestartingServices),
            Step::ServicesDown,
            Step::Stop(Service::Backend),
            Step::Stop(Service::Mongo),
            Step::AwaitPortFree(Service::Mongo),
            Step::AwaitPortFree(Service::Backend),
        ] + launch_steps()
    } else {
        seq![
            Step::Announce(Notice::RestartingBackend),
            Step::BackendDown,
            Step::Stop(Service::Backend),
            Step::AwaitPortFree(Service::Backend),
        ] + backend_relaunch_steps()
    }
}

/// The steps that bring the services up when the package starts.
pub fn start_plan() -> (steps: Vec<Step>)
    ensures
        steps@ == launch_steps(),
{
    let steps = vec![
        Step::CreateMongoDirs,
        Step::Announce(Notice::StartingMongo),
        Step::Launch(Service::Mongo),
        Step::AwaitReady(Service::Mongo),
        Step::MarkUp(Service::Mongo),
        Step::Launch(Service::Backend),
        Step::AwaitReady(Service::Backend),
        Step::MarkUp(Service::Backend),
    ];
    assert(steps@ =~= launch_steps());
    steps
}

/// The steps that apply newly saved settings, given the MongoDB port that
/// was in effect before them.
pub fn restart_plan(old_mongo_port: u16, new_settings: &Settings) -> (steps: Vec<Step>)
    ensures
        steps@ == restart_steps(new_settings.mongo_port != old_mongo_port),
{
    if new_settings.mongo_port != old_mongo_port {
        let steps = vec![
            Step::Announce(Notice::RestartingServices),
            Step::ServicesDown,
            Step::Stop(Service::Backend),
            Step::Stop(Service::Mongo),
            Step::AwaitPortFree(Service::Mongo),
            Step::AwaitPortFree(Service::Backend),
            Step::CreateMongoDirs,
            Step::Announce(Notice::StartingMongo),
            Step::Launch(Service::Mongo),
            Step::AwaitReady(Service::Mongo),
            Step::MarkUp(Service::Mongo),
            Step::Launch(Service::Backend),
            Step::AwaitReady(Service::Backend),
            Step::MarkUp(Service::Backend),
        ];
        assert(steps@ =~= restart_steps(true));
        steps
    } else {
        let steps = vec![
            Step::Announce(Notice::RestartingBackend),
            Step::BackendDown,
            Step::Stop(Service::Backend),
            Step::AwaitPortFree(Service::Backend),
            Step::Launch(Service::Backend),
            Step::AwaitReady(Service::Backend),
            Step::MarkUp(Service::Backend),
        ];
        assert(steps@ =~= restart_steps(false));
        steps
    }
}

/// Step `a` comes before step `b` in `steps`.
pub open spec fn runs_before(steps: Seq<Step>, a: Step, b: Step) -> bool {
    exists|i: int, j: int| 0 <= i < j < steps.len() && steps[i] == a && steps[j] == b
}

/// Starting the services launches MongoDB first and the backend only once
/// MongoDB accepts connections, and ends with the backend shown as up.
pub proof fn lemma_launch_order()
    ensures
        runs_before(launch_steps(), Step::AwaitReady(Service::Mongo), Step::Launch(Service::Backend)),
        runs_before(launch_steps(), Step::Launch(Service::Mongo), Step::AwaitReady(Service::Mongo)),
        launch_steps().last() == Step::MarkUp(Service::Backend),
{
    assert(launch_steps()[3] == Step::AwaitReady(Service::Mongo));
    assert(launch_steps()[5] == Step::Launch(Service::Backend));
    assert(launch_steps()[2] == Step::Launch(Service::Mongo));
}

/// Applying new settings stops and relaunches MongoDB exactly when its port
/// changed; the backend is always stopped, then relaunched once its port is
/// released, and the plan ends with the backend shown as up. When MongoDB
/// is relaunched, the backend is launched only once MongoDB is ready.
pub proof fn lemma_restart_scope(mongo_changed: bool)
    ensures
        restart_steps(mongo_changed).contains(Step::Stop(Service::Mongo)) <==> mongo_changed,
        restart_steps(mongo_changed).contains(Step::Launch(Service::Mongo)) <==> mongo_changed,
        runs_before(restart_steps(mongo_changed), Step::Stop(Service::Backend), Step::AwaitPortFree(Service::Backend)),
        runs_before(restart_steps(mongo_changed), Step::AwaitPortFree(Service::Backend), Step::Launch(Service::Backend)),
        mongo_changed ==> runs_before(restart_steps(mongo_changed), Step::AwaitReady(Service::Mongo), Step::Launch(Service::Backend)),
        restart_steps(mongo_changed).last() == Step::MarkUp(Service::Backend),
{
    let s = restart_steps(mongo_changed);
    if mongo_changed {
        assert(s[3] == Step::Stop(Service::Mongo));
        assert(s[8] == Step::Launch(Service::Mongo));
        assert(s[2] == Step::Stop(Service::Backend));
        assert(s[5] == Step::AwaitPortFree(Service::Backend));
        assert(s[9] == Step::AwaitReady(Service::Mongo));
        assert(s[11] == Step::Launch(Service::Backend));
    } else {
        assert(s.len() == 7);
        assert(forall|i: int| 0 <= i < 7 ==> s[i] != Step::Stop(Service::Mongo) && s[i] != Step::Launch(Service::Mongo));
        assert(s[2] == Step::Stop(Service::Backend));
        assert(s[3] == Step::AwaitPortFree(Service::Backend));
        assert(s[4] == Step::Launch(Service::Backend));
    }
}

/// Where MongoDB keeps its data: `mongodb` below the data directory.
pub open spec fn mongo_data_location() -> FsPathView {
    under1(BaseDir::AppData, "mongodb"@)
}

/// Where the supervised processes' logs are kept: `logs` below the data directory.
pub open spec fn logs_location() -> FsPathView {
    under1(BaseDir::AppData, "logs"@)
}

/// Where the backend is run from: its bundled `dist` directory (the backend
/// resolves its runtime paths relative to its working directory).
pub open spec fn backend_dir_location() -> FsPathView {
    under3(BaseDir::Resource, "resources"@, "backend"@, "dist"@)
}

/// MongoDB's data directory; see `mongo_data_location`.
pub fn mongo_data_dir() -> (p: FsPath)
    ensures
        p@ == mongo_data_location(),
{
    under1_path(BaseDir::AppData, "mongodb")
}

/// The logs directory; see `logs_location`.
pub fn logs_dir() -> (p: FsPath)
    ensures
        p@ == logs_location(),
{
    under1_path(BaseDir::AppData, "logs")
}

/// The backend's working directory; see `backend_dir_location`.
pub fn backend_dir() -> (p: FsPath)
    ensures
        p@ == backend_dir_location(),
{
    under3_path(BaseDir::Resource, "resources", "backend", "dist")
}

/// The model of a list of strings.
pub open spec fn texts(v: Seq<String>) -> Seq<Seq<char>> {
    v.map_values(|s: String| s@)
}

/// The model of a list of environment variables.
pub open spec fn env_texts(v: Seq<(String, String)>) -> Seq<(Seq<char>, Seq<char>)> {
    v.map_values(|p: (String, String)| (p.0@, p.1@))
}

/// The arguments MongoDB is started with: its data directory, its port, the
/// loopback address as the only one it binds, and its log file, appended to.
pub open spec fn mongod_arg_texts(dbpath: Seq<char>, logpath: Seq<char>, port: u16) -> Seq<Seq<char>> {
    seq![
        "--dbpath"@,
        dbpath,
        "--port"@,
        decimal(port as nat),
        "--bind_ip"@,
        loopback_host(),
        "--logpath"@,
        logpath,
        "--logappend"@,
    ]
}

/// The arguments MongoDB is started with; see `mongod_arg_texts`.
pub fn mongod_args(dbpath: &str, logpath: &str, port: u16) -> (args: Vec<String>)
    ensures
        texts(args@) == mongod_arg_texts(dbpath@, logpath@, port),
        args@.len() == 9,
        args@[1]@ == dbpath@,
        args@[3]@ == decimal(port as nat),
        args@[5]@ == "127.0.0.1"@,
        args@[7]@ == logpath@,
{
    let args = vec![
        String::from_str("--dbpath"),
        dbpath.to_owned(),
        String::from_str("--port"),
        u16_text(port),
        String::from_str("--bind_ip"),
        String::from_str("127.0.0.1"),
        String::from_str("--logpath"),
        logpath.to_owned(),
        String::from_str("--logappend"),
    ];
    assert(texts(args@) =~= mongod_arg_texts(dbpath@, logpath@, port));
    args
}

/// MongoDB gets the data directory and the log file exactly as given, its
/// port in decimal, and only the loopback address to bind: each path and the
/// port stand right after their flag, unchanged, whatever they hold.
pub proof fn lemma_mongod_args_pass_values_unchanged(dbpath: Seq<char>, logpath: Seq<char>, port: u16)
    ensures
        mongod_arg_texts(dbpath, logpath, port).len() == 9,
        mongod_arg_texts(dbpath, logpath, port)[0] == "--dbpath"@,
        mongod_arg_texts(dbpath, logpath, port)[1] == dbpath,
        mongod_arg_texts(dbpath, logpath, port)[2] == "--port"@,
        mongod_arg_texts(dbpath, logpath, port)[3] == decimal(port as nat),
        mongod_arg_texts(dbpath, logpath, port)[4] == "--bind_ip"@,
        mongod_arg_texts(dbpath, logpath, port)[5] == "127.0.0.1"@,
        mongod_arg_texts(dbpath, logpath, port)[6] == "--logpath"@,
        mongod_arg_texts(dbpath, logpath, port)[7] == logpath,
        mongod_arg_texts(dbpath, logpath, port)[8] == "--logappend"@,
{
}

/// The arguments the backend's Node.js runtime is started with.
pub fn backend_args() -> (args: Vec<String>)
    ensures
        texts(args@) == seq!["index.js"@],
{
    let args = vec![String::from_str("index.js")];
    assert(texts(args@) =~= seq!["index.js"@]);
    args
}

/// The address of the bundled MongoDB as the backend sees it.
pub open spec fn mongo_uri(port: u16) -> Seq<char> {
    "mongodb://"@ + loopback_host() + ":"@ + decimal(port as nat)
}

/// The environment the backend is started with: its port, the address of
/// MongoDB, whether to serve HTTPS, and where the certificate and key are.
pub open spec fn backend_env_texts(settings: &Settings, cert: Seq<char>, key: Seq<char>) -> Seq<(Seq<char>, Seq<char>)> {
    seq![
        ("PORT"@, decimal(settings.backend_port as nat)),
        ("MONGO_URI"@, mongo_uri(settings.mongo_port)),
        ("HTTPS_ENABLED"@, if settings.https.enabled { "true"@ } else { "false"@ }),
        ("TLS_CERT_PATH"@, cert),
        ("TLS_KEY_PATH"@, key),
    ]
}

/// The backend gets its own port, a MongoDB address that names the loopback
/// host and the configured MongoDB port, the HTTPS flag, and the certificate
/// and key paths exactly as given.
pub proof fn lemma_backend_env_passes_values_unchanged(settings: &Settings, cert: Seq<char>, key: Seq<char>)
    ensures
        backend_env_texts(settings, cert, key).len() == 5,
        backend_env_texts(settings, cert, key)[0] == ("PORT"@, decimal(settings.backend_port as nat)),
        backend_env_texts(settings, cert, key)[1]
            == ("MONGO_URI"@, "mongodb://"@ + "127.0.0.1"@ + ":"@ + decimal(settings.mongo_port as nat)),
        backend_env_texts(settings, cert, key)[2]
            == ("HTTPS_ENABLED"@, if settings.https.enabled { "true"@ } else { "false"@ }),
        backend_env_texts(settings, cert, key)[3] == ("TLS_CERT_PATH"@, cert),
        backend_env_texts(settings, cert, key)[4] == ("TLS_KEY_PATH"@, key),
{
}

/// The environment the backend is started with; see `backend_env_texts`.
pub fn backend_env(settings: &Settings, cert: &str, key: &str) -> (env: Vec<(String, String)>)
    ensures
        env_texts(env@) == backend_env_texts(settings, cert@, key@),
        env@.len() == 5,
        env@[0].1@ == decimal(settings.backend_port as nat),
        env@[1].1@ == "mongodb://"@ + "127.0.0.1"@ + ":"@ + decimal(settings.mongo_port as nat),
        env@[2].1@ == (if settings.https.enabled { "true"@ } else { "false"@ }),
        env@[3].1@ == cert@,
        env@[4].1@ == key@,
{
    let mut uri = String::from_str("mongodb://");
    uri.append("127.0.0.1");
    uri.append(":");
    let mp = u16_text(settings.mongo_port);
    uri.append(mp.as_str());
    let https = if settings.https.enabled {
        String::from_str("true")
    } else {
        String::from_str("false")
    };
    let env = vec![
        (String::from_str("PORT"), u16_text(settings.backend_port)),
        (String::from_str("MONGO_URI"), uri),
        (String::from_str("HTTPS_ENABLED"), https),
        (String::from_str("TLS_CERT_PATH"), cert.to_owned()),
        (String::from_str("TLS_KEY_PATH"), key.to_owned()),
    ];
    assert(env_texts(env@) =~= backend_env_texts(settings, cert@, key@));
    env
}

/// What one round of waiting for a service decided.
#[derive(Debug)]
pub enum ReadyPoll {
    /// The service accepts connections.
    Ready,
    /// Try again after `probe::POLL_INTERVAL_MILLIS`.
    Retry,
    /// Give up, with this message.
    Failed(String),
}

/// The message when a service's process exits before it accepts connections;
/// it names the log file of that process.
pub open spec fn exited_message(s: Service, port: u16) -> Seq<char> {
    service_title(s) + " exited before listening on port "@ + decimal(port as nat) + "; see logs/"@
        + process_label(service_process(s)) + ".log (tray → Open data folder)"@
}

/// The message when a service does not accept connections in time; it names
/// the log file of the service's process.
pub open spec fn timeout_message(s: Service, port: u16) -> Seq<char> {
    "timed out waiting for "@ + service_title(s) + " on port "@ + decimal(port as nat) + "; see logs/"@
        + process_label(service_process(s)) + ".log (tray → Open data folder)"@
}

/// The failure messages name the service, its port in decimal and the log
/// file its process writes: `logs/mongod.log` for MongoDB and
/// `logs/backend.log` for the backend.
pub proof fn lemma_failure_messages_name_the_log(port: u16)
    ensures
        exited_message(Service::Mongo, port) == "MongoDB exited before listening on port "@ + decimal(port as nat)
            + "; see logs/mongod.log (tray → Open data folder)"@,
        timeout_message(Service::Mongo, port) == "timed out waiting for MongoDB on port "@ + decimal(port as nat)
            + "; see logs/mongod.log (tray → Open data folder)"@,
        exited_message(Service::Backend, port) == "backend exited before listening on port "@ + decimal(port as nat)
            + "; see logs/backend.log (tray → Open data folder)"@,
        timeout_message(Service::Backend, port) == "timed out waiting for backend on port "@ + decimal(port as nat)
            + "; see logs/backend.log (tray → Open data folder)"@,
{
    reveal_strlit("MongoDB");
    reveal_strlit("backend");
    reveal_strlit("mongod");
    reveal_strlit(" exited before listening on port ");
    reveal_strlit("MongoDB exited before listening on port ");
    reveal_strlit("backend exited before listening on port ");
    reveal_strlit("timed out waiting for ");
    reveal_strlit(" on port ");
    reveal_strlit("timed out waiting for MongoDB on port ");
    reveal_strlit("timed out waiting for backend on port ");
    reveal_strlit("; see logs/");
    reveal_strlit(".log (tray → Open data folder)");
    reveal_strlit("; see logs/mongod.log (tray → Open data folder)");
    reveal_strlit("; see logs/backend.log (tray → Open data folder)");
    let d = decimal(port as nat);
    assert(exited_message(Service::Mongo, port) =~= "MongoDB exited before listening on port "@ + d
        + "; see logs/mongod.log (tray → Open data folder)"@);
    assert(timeout_message(Service::Mongo, port) =~= "timed out waiting for MongoDB on port "@ + d
        + "; see logs/mongod.log (tray → Open data folder)"@);
    assert(exited_message(Service::Backend, port) =~= "backend exited before listening on port "@ + d
        + "; see logs/backend.log (tray → Open data folder)"@);
    assert(timeout_message(Service::Backend, port) =~= "timed out waiting for backend on port "@ + d
        + "; see logs/backend.log (tray → Open data folder)"@);
}

/// Decides one round of waiting for `service` on `port`: whether a
/// connection succeeded, whether its process has exited, and whether the
/// deadline has passed, in that order of precedence.
pub fn ready_poll(service: Service, port: u16, connected: bool, exited: bool, timed_out: bool) -> (r: ReadyPoll)
    ensures
        connected ==> r is Ready,
        !connected && exited ==> (r matches ReadyPoll::Failed(m) && m@ == exited_message(service, port)),
        !connected && !exited && timed_out ==> (r matches ReadyPoll::Failed(m) && m@ == timeout_message(service, port)),
        !connected && !exited && !timed_out ==> r is Retry,
{
    if connected {
        return ReadyPoll::Ready;
    }
    if !exited && !timed_out {
        return ReadyPoll::Retry;
    }
    let title = service.title();
    let p = u16_text(port);
    let mut m = if exited {
        String::new()
    } else {
        String::from_str("timed out waiting for ")
    };
    m.append(title.as_str());
    if exited {
        m.append(" exited before listening on port ");
    } else {
        m.append(" on port ");
    }
    m.append(p.as_str());
    m.append("; see logs/");
    let log_name = service.process().label();
    m.append(log_name.as_str());
    m.append(".log (tray → Open data folder)");
    proof {
        if exited {
            assert(m@ =~= exited_message(service, port));
        } else {
            assert(m@ =~= timeout_message(service, port));
        }
    }
    ReadyPoll::Failed(m)
}

/// The message shown when applying new settings failed.
pub fn restart_failed_message(error: &str) -> (m: String)
    ensures
        m@ == "Restart failed: "@ + error@,
{
    let mut m = String::from_str("Restart failed: ");
    m.append(error);
    m
}

/// The message shown when starting the services failed.
pub fn start_failed_message(error: &str) -> (m: String)
    ensures
        m@ == "Failed to start services: "@ + error@,
{
    let mut m = String::from_str("Failed to start services: ");
    m.append(error);
    m
}

} // verus!
