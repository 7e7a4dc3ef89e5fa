use musicserver_desktop::backend::settings::Settings;
use musicserver_desktop::backend::status::Status;

#[test]
fn initial_status() {
    let s = Status::default();
    assert!(!s.mongo && !s.backend);
    assert!(s.https);
    assert_eq!(s.backend_port, 3000);
    assert_eq!(s.mongo_port, 27017);
    assert_eq!(s.message, "");
}

#[test]
fn status_takes_loaded_settings() {
    let mut settings = Settings::default();
    settings.backend_port = 4000;
    settings.mongo_port = 27020;
    settings.https.enabled = false;
    let mut s = Status::default();
    s.set_message("kept".to_string());
    s.adopt_settings(&settings);
    assert!(!s.https);
    assert_eq!(s.backend_port, 4000);
    assert_eq!(s.mongo_port, 27020);
    assert_eq!(s.message, "kept");
    assert!(!s.mongo && !s.backend);
}

#[test]
fn mongo_up_message() {
    let mut s = Status::default();
    let mut settings = Settings::default();
    s.mark_mongo_up(&settings);
    assert!(s.mongo);
    assert!(!s.backend);
    assert_eq!(s.message, "MongoDB ready on 127.0.0.1:27017");
    settings.mongo_port = 0;
    s.mark_mongo_up(&settings);
    assert_eq!(s.mongo_port, 0);
    assert_eq!(s.message, "MongoDB ready on 127.0.0.1:0");
}

#[test]
fn backend_up_message() {
    let mut s = Status::default();
    let mut settings = Settings::default();
    s.mark_backend_up(&settings);
    assert!(s.backend && s.https);
    assert_eq!(s.message, "Backend API ready on https://127.0.0.1:3000");
    settings.https.enabled = false;
    settings.backend_port = 65535;
    s.mark_backend_up(&settings);
    assert!(!s.https);
    assert_eq!(s.backend_port, 65535);
    assert_eq!(s.message, "Backend API ready on http://127.0.0.1:65535");
}

#[test]
fn services_marked_down() {
    let settings = Settings::default();
    let mut s = Status::default();
    s.mark_mongo_up(&settings);
    s.mark_backend_up(&settings);
    s.mark_backend_down();
    assert!(s.mongo && !s.backend);
    s.mark_backend_up(&settings);
    s.mark_services_down();
    assert!(!s.mongo && !s.backend);
    assert_eq!(s.message, "Backend API ready on https://127.0.0.1:3000");
}
