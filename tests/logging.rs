use sndb_utils::logging::{worker_action, LogEntry, LogLevel, LogMessage, WorkerAction};
use sndb_utils::Timestamp;

#[test]
fn level_filtering() {
    assert!(LogLevel::Error.enabled(LogLevel::Warn));
    assert!(LogLevel::Warn.enabled(LogLevel::Warn));
    assert!(!LogLevel::Info.enabled(LogLevel::Warn));
    assert!(LogLevel::Trace.enabled(LogLevel::Trace));
    assert_eq!(LogLevel::Debug.as_str(), "DEBUG");
}

#[test]
fn shutdown_is_its_own_message() {
    assert!(matches!(worker_action(LogMessage::ShutdownRequest), WorkerAction::Stop));
    let entry = LogEntry {
        timestamp: Timestamp::new(2024, 1, 2, 3, 4, 5).unwrap(),
        app: String::from("sndb"),
        level: LogLevel::Error,
        message: String::from("<SHUTDOWN>"),
    };
    match worker_action(LogMessage::Entry(entry)) {
        WorkerAction::Insert(e) => assert_eq!(e.message, "<SHUTDOWN>"),
        WorkerAction::Stop => panic!("a log text never stops the writer"),
    }
}
