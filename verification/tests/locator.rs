use codelldb_launcher::locator::{locate, EngineLocation, LocateError, ScanEvent};
use codelldb_launcher::platform::Platform;

fn entry(path: &str) -> ScanEvent {
    ScanEvent::Entry(path.to_string())
}

fn search(root: &str) -> EngineLocation {
    EngineLocation::SearchRoot(root.to_string())
}

#[test]
fn nested_library_is_located() {
    let events = vec![
        entry("/opt/lldb"),
        entry("/opt/lldb/bin"),
        entry("/opt/lldb/bin/lldb"),
        entry("/opt/lldb/lib"),
        entry("/opt/lldb/lib/liblldb.so"),
    ];
    let found = locate(&search("/opt/lldb"), Platform::Linux, &events);
    assert!(matches!(found, Ok(ref path) if path == "/opt/lldb/lib/liblldb.so"));
}

#[test]
fn versioned_library_is_located() {
    let events = vec![
        entry("/opt/lldb"),
        entry("/opt/lldb/lib"),
        entry("/opt/lldb/lib/liblldb.so.12"),
    ];
    let found = locate(&search("/opt/lldb"), Platform::Linux, &events);
    assert!(matches!(found, Ok(ref path) if path == "/opt/lldb/lib/liblldb.so.12"));
}

#[test]
fn directory_without_library_is_not_found() {
    let events = vec![
        entry("/opt/lldb"),
        entry("/opt/lldb/lib"),
        entry("/opt/lldb/lib/libother.so"),
        entry("/opt/lldb/share/liblldb.so"),
    ];
    let found = locate(&search("/opt/lldb"), Platform::Linux, &events);
    assert!(matches!(found, Err(LocateError::NotFound { ref root }) if root == "/opt/lldb"));
}

#[test]
fn direct_file_is_returned_unchanged() {
    let events = vec![entry("/elsewhere/lib/liblldb.so")];
    let input = EngineLocation::File("/usr/lib/liblldb.so.1".to_string());
    let found = locate(&input, Platform::Linux, &events);
    assert!(matches!(found, Ok(ref path) if path == "/usr/lib/liblldb.so.1"));
}

#[test]
fn first_match_in_walk_order_wins() {
    let events = vec![
        entry("/opt/lldb"),
        entry("/opt/lldb/lib/liblldb.so.9"),
        entry("/opt/lldb/lib/liblldb.so"),
    ];
    let found = locate(&search("/opt/lldb"), Platform::Linux, &events);
    assert!(matches!(found, Ok(ref path) if path == "/opt/lldb/lib/liblldb.so.9"));
}

#[test]
fn read_failure_before_a_match_ends_the_search() {
    let events = vec![
        entry("/opt/lldb"),
        ScanEvent::Failure("/opt/lldb/private: Permission denied".to_string()),
        entry("/opt/lldb/lib/liblldb.so"),
    ];
    let found = locate(&search("/opt/lldb"), Platform::Linux, &events);
    assert!(matches!(
        found,
        Err(LocateError::ReadFailed { ref diagnostic })
            if diagnostic == "/opt/lldb/private: Permission denied"
    ));
}

#[test]
fn read_failure_after_a_match_is_not_seen() {
    let events = vec![
        entry("/opt/lldb/lib/liblldb.so"),
        ScanEvent::Failure("/opt/lldb/private: Permission denied".to_string()),
    ];
    let found = locate(&search("/opt/lldb"), Platform::Linux, &events);
    assert!(matches!(found, Ok(ref path) if path == "/opt/lldb/lib/liblldb.so"));
}

#[test]
fn read_failure_without_a_match_is_reported() {
    let events = vec![
        entry("/opt/lldb"),
        ScanEvent::Failure("/opt/lldb/lib: Input/output error".to_string()),
    ];
    let found = locate(&search("/opt/lldb"), Platform::Linux, &events);
    assert!(matches!(
        found,
        Err(LocateError::ReadFailed { ref diagnostic })
            if diagnostic == "/opt/lldb/lib: Input/output error"
    ));
}

#[test]
fn empty_walk_is_not_found() {
    let events: Vec<ScanEvent> = Vec::new();
    let found = locate(&search("/nowhere"), Platform::MacOs, &events);
    assert!(matches!(found, Err(LocateError::NotFound { ref root }) if root == "/nowhere"));
}

#[test]
fn patterns_follow_the_platform() {
    let events = vec![
        entry("/sdk/lib/liblldb.so"),
        entry("/sdk/bin/liblldb.dll"),
        entry("/sdk/lib/liblldb.10.dylib"),
    ];
    let linux = locate(&search("/sdk"), Platform::Linux, &events);
    assert!(matches!(linux, Ok(ref path) if path == "/sdk/lib/liblldb.so"));
    let windows = locate(&search("/sdk"), Platform::Windows, &events);
    assert!(matches!(windows, Ok(ref path) if path == "/sdk/bin/liblldb.dll"));
    let macos = locate(&search("/sdk"), Platform::MacOs, &events);
    assert!(matches!(macos, Ok(ref path) if path == "/sdk/lib/liblldb.10.dylib"));
}

#[test]
fn direct_file_is_not_checked_against_the_patterns() {
    let events: Vec<ScanEvent> = Vec::new();
    let input = EngineLocation::File("/tmp/not-a-library.txt".to_string());
    let found = locate(&input, Platform::Windows, &events);
    assert!(matches!(found, Ok(ref path) if path == "/tmp/not-a-library.txt"));
}
