use musicserver_desktop::backend::tray::{tray_action, tray_menu, TrayAction, Window};
use musicserver_desktop::frontend::settings::Settings;
use musicserver_desktop::frontend::ui::{
    backend_url, ui_args, ui_dir, ui_env, ui_sidecar, ui_timeout_message, ui_url, UI_PORT, UI_READY_TIMEOUT_SECS,
};
use musicserver_desktop::paths::{path_str, BaseDir, FsPath};

#[test]
fn backend_url_from_environment_or_settings() {
    let mut s = Settings::default();
    assert_eq!(backend_url(Some("https://nas:3000".to_string()), &s), "https://nas:3000");
    assert_eq!(backend_url(None, &s), "https://localhost:3000");
    s.backend_url = "http://10.0.0.2:3100".to_string();
    assert_eq!(backend_url(None, &s), "http://10.0.0.2:3100");
}

#[test]
fn ui_launch_description() {
    assert_eq!(UI_PORT, 3001);
    assert_eq!(UI_READY_TIMEOUT_SECS, 60);
    assert_eq!(ui_sidecar(), "binaries/node");
    assert_eq!(ui_args(), vec!["server.js"]);
    assert_eq!(ui_dir(), FsPath::Under(BaseDir::Resource, vec!["resources".to_string(), "ui".to_string()]));
    let mut s = Settings::default();
    assert_eq!(
        ui_env(&s, "https://localhost:3000", "/d/certs/server.crt", "/d/certs/server.key"),
        vec![
            ("PORT".to_string(), "3001".to_string()),
            ("HOSTNAME".to_string(), "127.0.0.1".to_string()),
            ("MUSICSERVER_API_BASE_URL".to_string(), "https://localhost:3000".to_string()),
            ("HTTPS_ENABLED".to_string(), "false".to_string()),
            ("TLS_CERT_PATH".to_string(), "/d/certs/server.crt".to_string()),
            ("TLS_KEY_PATH".to_string(), "/d/certs/server.key".to_string()),
        ]
    );
    assert_eq!(ui_url(&s), "http://localhost:3001/");
    s.https.enabled = true;
    assert_eq!(ui_env(&s, "u", "c", "k")[3], ("HTTPS_ENABLED".to_string(), "true".to_string()));
    assert_eq!(ui_url(&s), "https://localhost:3001/");
    assert_eq!(ui_timeout_message(), "timed out waiting for the UI server");
}

#[test]
fn tray_items_and_actions() {
    assert_eq!(tray_action("show"), TrayAction::Show(Window::Main));
    assert_eq!(tray_action("settings"), TrayAction::Show(Window::Settings));
    assert_eq!(tray_action("open_data"), TrayAction::OpenDataFolder);
    assert_eq!(tray_action("quit"), TrayAction::Quit);
    assert_eq!(tray_action("Quit"), TrayAction::Ignore);
    let menu = tray_menu();
    assert_eq!(menu.len(), 4);
    assert_eq!(menu[0], ("show".to_string(), "Show status".to_string()));
    assert_eq!(menu[3], ("quit".to_string(), "Quit Music Server backend".to_string()));
    for (id, _) in &menu {
        assert_ne!(tray_action(id), TrayAction::Ignore);
    }
    assert_eq!(Window::Main.label(), "main");
    assert_eq!(Window::Settings.label(), "settings");
}

#[test]
fn path_text() {
    let p = std::path::PathBuf::from("/tmp/music server/data");
    assert_eq!(path_str(&p), "/tmp/music server/data");
}
