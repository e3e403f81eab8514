use codelldb_launcher::matcher::{PathMatcher, PatternError};
use codelldb_launcher::platform::Platform;

fn compiled(patterns: Vec<&'static str>) -> PathMatcher {
    match PathMatcher::new(&patterns) {
        Ok(matcher) => matcher,
        Err(error) => panic!("the patterns do not compile: {:?}", error),
    }
}

#[test]
fn linux_patterns_match_plain_and_versioned_names() {
    let matcher = compiled(Platform::Linux.engine_patterns());
    assert!(matcher.is_match("/opt/lldb/lib/liblldb.so"));
    assert!(matcher.is_match("/opt/lldb/lib/liblldb.so.12"));
    assert!(matcher.is_match("lib/liblldb.so"));
    assert!(!matcher.is_match("/opt/lldb/lib/liblldb.dylib"));
    assert!(!matcher.is_match("/opt/lldb/lib64/liblldb.so"));
    assert!(!matcher.is_match("/opt/lldb/lib/liblldb.so/readme"));
    assert!(!matcher.is_match("/opt/lldb/lib"));
}

#[test]
fn macos_patterns_match_plain_and_versioned_names() {
    let matcher = compiled(Platform::MacOs.engine_patterns());
    assert!(matcher.is_match("/Applications/lldb/lib/liblldb.dylib"));
    assert!(matcher.is_match("/Applications/lldb/lib/liblldb.9.0.0.dylib"));
    assert!(!matcher.is_match("/Applications/lldb/lib/liblldb.so"));
    assert!(!matcher.is_match("/Applications/lldb/bin/liblldb.dylib"));
}

#[test]
fn windows_patterns_match_plain_and_versioned_names() {
    let matcher = compiled(Platform::Windows.engine_patterns());
    assert!(matcher.is_match("C:/lldb/bin/liblldb.dll"));
    assert!(matcher.is_match("C:/lldb/bin/liblldb.7.dll"));
    assert!(!matcher.is_match("C:/lldb/lib/liblldb.dll"));
    assert!(!matcher.is_match("C:/lldb/bin/lldb.exe"));
}

#[test]
fn engine_patterns_are_plain_name_then_versioned_name() {
    assert_eq!(Platform::Linux.engine_patterns(), vec!["**/lib/liblldb.so", "**/lib/liblldb.so.*"]);
    assert_eq!(
        Platform::MacOs.engine_patterns(),
        vec!["**/lib/liblldb.dylib", "**/lib/liblldb.*.dylib"]
    );
    assert_eq!(
        Platform::Windows.engine_patterns(),
        vec!["**/bin/liblldb.dll", "**/bin/liblldb.*.dll"]
    );
}

#[test]
fn extension_file_names_differ_by_platform() {
    assert_eq!(Platform::Linux.extension_file_name(), "libcodelldb.so");
    assert_eq!(Platform::MacOs.extension_file_name(), "libcodelldb.dylib");
    assert_eq!(Platform::Windows.extension_file_name(), "codelldb.dll");
}

#[test]
fn only_windows_has_a_search_path_and_no_visibility_flag() {
    assert!(Platform::Windows.has_search_path());
    assert!(!Platform::Linux.has_search_path());
    assert!(!Platform::MacOs.has_search_path());
    assert!(!Platform::Windows.has_visibility_flag());
    assert!(Platform::Linux.has_visibility_flag());
    assert!(Platform::MacOs.has_visibility_flag());
}

#[test]
fn first_bad_pattern_is_reported_by_its_index() {
    let patterns = vec!["*.so", "lib[", "{a,b"];
    assert!(matches!(
        PathMatcher::new(&patterns),
        Err(PatternError::Rejected { index: 1 })
    ));
}

#[test]
fn bad_pattern_at_the_front_is_reported() {
    let patterns = vec!["{a,b", "*.so"];
    assert!(matches!(
        PathMatcher::new(&patterns),
        Err(PatternError::Rejected { index: 0 })
    ));
}

#[test]
fn matcher_of_no_pattern_matches_nothing() {
    let matcher = compiled(Vec::new());
    assert!(!matcher.is_match("/opt/lldb/lib/liblldb.so"));
    assert!(!matcher.is_match(""));
}

#[test]
fn matcher_keeps_every_pattern_it_was_given() {
    let matcher = compiled(vec!["*.a", "*.b", "*.c"]);
    assert!(matcher.is_match("x.a"));
    assert!(matcher.is_match("x.b"));
    assert!(matcher.is_match("x.c"));
    assert!(!matcher.is_match("x.d"));
}
