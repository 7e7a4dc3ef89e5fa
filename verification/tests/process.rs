use musicserver_desktop::paths::{BaseDir, FsPath};
use musicserver_desktop::process::{console_line, event_line, log_file, logged_line, ChildRegistry, Process, ProcessEvent};

#[test]
fn kill_all_order_is_newest_first() {
    let mut r: ChildRegistry<&str> = ChildRegistry::new();
    r.push(Process::Mongod, "mongod-1");
    r.push(Process::Backend, "backend-1");
    assert_eq!(r.take_all(), vec!["backend-1", "mongod-1"]);
    assert_eq!(r.take_all(), Vec::<&str>::new());
}

#[test]
fn kill_named_takes_only_that_process() {
    let mut r: ChildRegistry<u32> = ChildRegistry::new();
    r.push(Process::Backend, 1);
    r.push(Process::Mongod, 2);
    r.push(Process::Backend, 3);
    r.push(Process::Ui, 4);
    assert_eq!(r.take_named(Process::Backend), vec![1, 3]);
    assert_eq!(r.take_named(Process::Backend), Vec::<u32>::new());
    assert_eq!(r.take_all(), vec![4, 2]);
}

#[test]
fn kill_named_absent_keeps_everything() {
    let mut r: ChildRegistry<u32> = ChildRegistry::new();
    r.push(Process::Mongod, 7);
    assert_eq!(r.take_named(Process::Ui), Vec::<u32>::new());
    assert_eq!(r.take_all(), vec![7]);
}

#[test]
fn labels() {
    assert_eq!(Process::Mongod.label(), "mongod");
    assert_eq!(Process::Backend.label(), "backend");
    assert_eq!(Process::Ui.label(), "ui");
}

#[test]
fn output_events_are_decoded() {
    assert_eq!(event_line(&ProcessEvent::Stdout(b"listening\n".to_vec())), Some("listening\n".to_string()));
    assert_eq!(event_line(&ProcessEvent::Stderr("é€".as_bytes().to_vec())), Some("é€".to_string()));
    assert_eq!(event_line(&ProcessEvent::Stdout(vec![b'a', 0xff, b'b'])), Some("a\u{FFFD}b".to_string()));
}

#[test]
fn error_and_termination_events() {
    assert_eq!(event_line(&ProcessEvent::Error("pipe closed".to_string())), Some("error: pipe closed\n".to_string()));
    assert_eq!(event_line(&ProcessEvent::Terminated(Some(0))), Some("terminated: code=Some(0)\n".to_string()));
    assert_eq!(
        event_line(&ProcessEvent::Terminated(Some(-2147483648))),
        Some("terminated: code=Some(-2147483648)\n".to_string())
    );
    assert_eq!(event_line(&ProcessEvent::Terminated(None)), Some("terminated: code=None\n".to_string()));
    assert_eq!(event_line(&ProcessEvent::Other), None);
    assert!(ProcessEvent::Terminated(None).is_exit());
    assert!(!ProcessEvent::Error("x".to_string()).is_exit());
}

#[test]
fn empty_output_is_not_logged() {
    assert_eq!(logged_line(&ProcessEvent::Stdout(Vec::new())), None);
    assert_eq!(logged_line(&ProcessEvent::Other), None);
    assert_eq!(logged_line(&ProcessEvent::Stderr(b"x".to_vec())), Some("x".to_string()));
}

#[test]
fn console_and_log_locations() {
    assert_eq!(console_line(Process::Backend, "error: x\n"), "[backend] error: x\n");
    assert_eq!(console_line(Process::Ui, ""), "[ui] ");
    assert_eq!(
        log_file(Process::Mongod),
        FsPath::Under(BaseDir::AppData, vec!["logs".to_string(), "mongod.log".to_string()])
    );
    assert_eq!(
        log_file(Process::Backend),
        FsPath::Under(BaseDir::AppData, vec!["logs".to_string(), "backend.log".to_string()])
    );
}
