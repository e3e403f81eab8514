use codelldb_launcher::locator::{
    first_match, judge_event, scan_plan, LocateError, ScanEvent, ScanVerdict, FOLLOW_LINKS,
    MAX_SCAN_DEPTH,
};
use codelldb_launcher::matcher::{PathMatcher, PatternError};
use codelldb_launcher::platform::Platform;

fn linux_matcher() -> PathMatcher {
    match PathMatcher::new(&Platform::Linux.engine_patterns()) {
        Ok(matcher) => matcher,
        Err(_) => panic!("the patterns do not compile"),
    }
}

#[test]
fn walk_is_two_levels_deep_and_follows_links() {
    assert_eq!(MAX_SCAN_DEPTH, 2);
    assert!(FOLLOW_LINKS);
    let plan = scan_plan("/opt/lldb");
    assert_eq!(plan.root, "/opt/lldb");
    assert_eq!(plan.max_depth, 2);
    assert!(plan.follow_links);
}

#[test]
fn each_event_is_judged_by_itself() {
    let matcher = linux_matcher();
    let hit = ScanEvent::Entry("/opt/lldb/lib/liblldb.so.3".to_string());
    assert!(matches!(
        judge_event(&matcher, &hit),
        ScanVerdict::Found(ref path) if path == "/opt/lldb/lib/liblldb.so.3"
    ));
    let miss = ScanEvent::Entry("/opt/lldb/lib/libclang.so".to_string());
    assert!(matches!(judge_event(&matcher, &miss), ScanVerdict::Continue));
    let broken = ScanEvent::Failure("too many levels of symbolic links".to_string());
    assert!(matches!(
        judge_event(&matcher, &broken),
        ScanVerdict::Failed(ref reason) if reason == "too many levels of symbolic links"
    ));
}

#[test]
fn search_with_any_matcher_takes_the_first_match() {
    let patterns = vec!["*.txt"];
    let matcher = PathMatcher::new(&patterns).ok().unwrap();
    let events = vec![
        ScanEvent::Entry("a.rs".to_string()),
        ScanEvent::Entry("b.txt".to_string()),
        ScanEvent::Entry("c.txt".to_string()),
    ];
    assert!(matches!(first_match(&matcher, "/r", &events), Ok(ref path) if path == "b.txt"));
    let none = vec![ScanEvent::Entry("a.rs".to_string())];
    assert!(matches!(
        first_match(&matcher, "/r", &none),
        Err(LocateError::NotFound { ref root }) if root == "/r"
    ));
}

#[test]
fn locate_messages_name_the_directory_or_the_reason() {
    let error = LocateError::NotFound { root: "/opt/lldb".to_string() };
    assert_eq!(error.message(), "Can't find liblldb in \"/opt/lldb\"");
    let error = LocateError::ReadFailed { diagnostic: "Permission denied".to_string() };
    assert_eq!(error.message(), "Permission denied");
    let error = LocateError::Pattern(PatternError::Unbuildable);
    assert_eq!(error.message(), "Can't compile the patterns that name liblldb");
    let error = LocateError::Pattern(PatternError::Rejected { index: 1 });
    assert_eq!(error.message(), "Can't compile the patterns that name liblldb");
}
