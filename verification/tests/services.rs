use musicserver_desktop::backend::services::{
    backend_args, backend_dir, backend_env, logs_dir, mongo_data_dir, mongod_args, ready_poll, restart_failed_message,
    restart_plan, start_failed_message, start_plan, Notice, ReadyPoll, Service, Step,
};
use musicserver_desktop::probe::{
    listening_poll, port_free_poll, FREE_PROBE_MILLIS, LISTEN_PROBE_MILLIS, POLL_INTERVAL_MILLIS, PORT_FREE_TIMEOUT_SECS,
};
use musicserver_desktop::backend::settings::Settings;
use musicserver_desktop::paths::{BaseDir, FsPath};
use musicserver_desktop::process::Process;

fn launch() -> Vec<Step> {
    vec![
        Step::CreateMongoDirs,
        Step::Announce(Notice::StartingMongo),
        Step::Launch(Service::Mongo),
        Step::AwaitReady(Service::Mongo),
        Step::MarkUp(Service::Mongo),
        Step::Launch(Service::Backend),
        Step::AwaitReady(Service::Backend),
        Step::MarkUp(Service::Backend),
    ]
}

#[test]
fn start_plan_launches_mongo_then_backend() {
    assert_eq!(start_plan(), launch());
}

#[test]
fn restart_plan_same_mongo_port_restarts_backend_only() {
    let mut s = Settings::default();
    s.backend_port = 3100;
    s.https.enabled = false;
    let plan = restart_plan(27017, &s);
    assert_eq!(
        plan,
        vec![
            Step::Announce(Notice::RestartingBackend),
            Step::BackendDown,
            Step::Stop(Service::Backend),
            Step::AwaitPortFree(Service::Backend),
            Step::Launch(Service::Backend),
            Step::AwaitReady(Service::Backend),
            Step::MarkUp(Service::Backend),
        ]
    );
    assert!(!plan.contains(&Step::Stop(Service::Mongo)));
}

#[test]
fn restart_plan_new_mongo_port_restarts_everything() {
    let mut s = Settings::default();
    s.mongo_port = 27018;
    let mut expected = vec![
        Step::Announce(Notice::RestartingServices),
        Step::ServicesDown,
        Step::Stop(Service::Backend),
        Step::Stop(Service::Mongo),
        Step::AwaitPortFree(Service::Mongo),
        Step::AwaitPortFree(Service::Backend),
    ];
    expected.extend(launch());
    assert_eq!(restart_plan(27017, &s), expected);
}

#[test]
fn notices() {
    assert_eq!(Notice::StartingMongo.text(), "Starting MongoDB…");
    assert_eq!(Notice::RestartingBackend.text(), "Applying settings — restarting backend…");
    assert_eq!(Notice::RestartingServices.text(), "Applying settings — restarting services…");
}

#[test]
fn service_facts() {
    let mut s = Settings::default();
    s.backend_port = 1;
    s.mongo_port = 2;
    assert_eq!(Service::Mongo.port(&s), 2);
    assert_eq!(Service::Backend.port(&s), 1);
    assert_eq!(Service::Mongo.title(), "MongoDB");
    assert_eq!(Service::Backend.title(), "backend");
    assert_eq!(Service::Mongo.process(), Process::Mongod);
    assert_eq!(Service::Backend.process(), Process::Backend);
    assert_eq!(Service::Mongo.ready_timeout_secs(), 30);
    assert_eq!(Service::Backend.ready_timeout_secs(), 60);
    assert_eq!(Service::Mongo.sidecar(), "mongod");
    assert_eq!(Service::Backend.sidecar(), "node");
    assert_eq!(PORT_FREE_TIMEOUT_SECS, 15);
    assert_eq!(LISTEN_PROBE_MILLIS, 500);
    assert_eq!(FREE_PROBE_MILLIS, 300);
    assert_eq!(POLL_INTERVAL_MILLIS, 250);
}

#[test]
fn mongod_arguments() {
    assert_eq!(
        mongod_args("/data/mongodb", "/data/logs/mongod.log", 27017),
        vec![
            "--dbpath",
            "/data/mongodb",
            "--port",
            "27017",
            "--bind_ip",
            "127.0.0.1",
            "--logpath",
            "/data/logs/mongod.log",
            "--logappend",
        ]
    );
    assert_eq!(mongod_args("d", "l", 7)[3], "7");
}

#[test]
fn backend_arguments_and_directories() {
    assert_eq!(backend_args(), vec!["index.js"]);
    assert_eq!(
        backend_dir(),
        FsPath::Under(BaseDir::Resource, vec!["resources".to_string(), "backend".to_string(), "dist".to_string()])
    );
    assert_eq!(mongo_data_dir(), FsPath::Under(BaseDir::AppData, vec!["mongodb".to_string()]));
    assert_eq!(logs_dir(), FsPath::Under(BaseDir::AppData, vec!["logs".to_string()]));
}

fn pairs(v: &[(&str, &str)]) -> Vec<(String, String)> {
    v.iter().map(|(a, b)| (a.to_string(), b.to_string())).collect()
}

#[test]
fn backend_environment() {
    let mut s = Settings::default();
    assert_eq!(
        backend_env(&s, "/c.crt", "/c.key"),
        pairs(&[
            ("PORT", "3000"),
            ("MONGO_URI", "mongodb://127.0.0.1:27017"),
            ("HTTPS_ENABLED", "true"),
            ("TLS_CERT_PATH", "/c.crt"),
            ("TLS_KEY_PATH", "/c.key"),
        ])
    );
    s.https.enabled = false;
    s.backend_port = 8080;
    s.mongo_port = 27999;
    let env = backend_env(&s, "a", "b");
    assert_eq!(env[0].1, "8080");
    assert_eq!(env[1].1, "mongodb://127.0.0.1:27999");
    assert_eq!(env[2].1, "false");
}

#[test]
fn ready_poll_prefers_connection() {
    assert!(matches!(ready_poll(Service::Backend, 3000, true, true, true), ReadyPoll::Ready));
    assert!(matches!(ready_poll(Service::Backend, 3000, false, false, false), ReadyPoll::Retry));
}

#[test]
fn ready_poll_exited() {
    match ready_poll(Service::Mongo, 27017, false, true, true) {
        ReadyPoll::Failed(m) => assert_eq!(
            m,
            "MongoDB exited before listening on port 27017; see logs/mongod.log (tray → Open data folder)"
        ),
        other => panic!("unexpected {:?}", other),
    }
}

#[test]
fn ready_poll_timed_out() {
    match ready_poll(Service::Backend, 3000, false, false, true) {
        ReadyPoll::Failed(m) => assert_eq!(
            m,
            "timed out waiting for backend on port 3000; see logs/backend.log (tray → Open data folder)"
        ),
        other => panic!("unexpected {:?}", other),
    }
}

#[test]
fn port_free_decisions() {
    assert_eq!(port_free_poll(false, false), Some(true));
    assert_eq!(port_free_poll(false, true), Some(true));
    assert_eq!(port_free_poll(true, true), Some(false));
    assert_eq!(port_free_poll(true, false), None);
}

#[test]
fn listening_decisions() {
    assert_eq!(listening_poll(true, true), Some(true));
    assert_eq!(listening_poll(false, true), Some(false));
    assert_eq!(listening_poll(false, false), None);
}

#[test]
fn failure_messages() {
    assert_eq!(restart_failed_message("boom"), "Restart failed: boom");
    assert_eq!(start_failed_message("no sidecar"), "Failed to start services: no sidecar");
}
