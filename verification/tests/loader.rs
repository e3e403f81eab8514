use codelldb_launcher::loader::{
    c_string, find_symbol, load_call, load_library, open_flags, symbol_call, LoadCall, LoadError,
    PlatformDiagnostic, SymbolError, RTLD_GLOBAL, RTLD_LAZY,
};
use codelldb_launcher::platform::Platform;

fn no_reason() -> PlatformDiagnostic {
    PlatformDiagnostic::Text(String::new())
}

#[test]
fn flags_are_lazy_and_global_on_request() {
    assert_eq!(RTLD_LAZY, 0x1);
    assert_eq!(RTLD_GLOBAL, 0x100);
    assert_eq!(open_flags(true), 0x101);
    assert_eq!(open_flags(false), 0x1);
}

#[test]
fn c_string_ends_in_a_zero_byte() {
    assert_eq!(c_string("entry"), Some(b"entry\0".to_vec()));
    assert_eq!(c_string(""), Some(vec![0u8]));
    assert_eq!(c_string("caf\u{e9}"), Some(vec![b'c', b'a', b'f', 0xc3, 0xa9, 0]));
}

#[test]
fn text_with_a_zero_byte_has_no_c_string() {
    assert_eq!(c_string("en\0try"), None);
    assert_eq!(c_string("\0"), None);
    assert_eq!(c_string("entry\0"), None);
}

#[test]
fn posix_load_call_carries_the_flags() {
    match load_call(Platform::Linux, "/opt/lldb/lib/liblldb.so", true) {
        Some(LoadCall::Dlopen { file_name, flags }) => {
            assert_eq!(file_name, b"/opt/lldb/lib/liblldb.so\0".to_vec());
            assert_eq!(flags, 0x101);
        }
        _ => panic!("a dlopen call was expected"),
    }
    match load_call(Platform::MacOs, "/opt/adapter/libcodelldb.dylib", false) {
        Some(LoadCall::Dlopen { file_name, flags }) => {
            assert_eq!(file_name, b"/opt/adapter/libcodelldb.dylib\0".to_vec());
            assert_eq!(flags, 0x1);
        }
        _ => panic!("a dlopen call was expected"),
    }
}

#[test]
fn windows_load_call_has_no_flags() {
    match load_call(Platform::Windows, "C:\\lldb\\bin\\liblldb.dll", true) {
        Some(LoadCall::LoadLibrary { file_name }) => {
            assert_eq!(file_name, b"C:\\lldb\\bin\\liblldb.dll\0".to_vec());
        }
        _ => panic!("a LoadLibrary call was expected"),
    }
}

#[test]
fn path_with_a_zero_byte_has_no_load_call() {
    assert!(load_call(Platform::Linux, "/opt/\0/liblldb.so", true).is_none());
    assert!(load_call(Platform::Windows, "C:\\\0", false).is_none());
}

#[test]
fn load_gives_a_handle_for_an_address() {
    let reason = PlatformDiagnostic::Text("stale".to_string());
    match load_library("/opt/lldb/lib/liblldb.so", 0x7f00_1000, reason) {
        Ok(handle) => assert_eq!(handle.address(), 0x7f00_1000),
        Err(_) => panic!("a handle was expected"),
    }
}

#[test]
fn load_gives_an_error_for_null() {
    let reason = PlatformDiagnostic::Text("liblldb.so: cannot open shared object file".to_string());
    match load_library("/opt/lldb/lib/liblldb.so", 0, reason) {
        Ok(_) => panic!("an error was expected"),
        Err(LoadError { path, diagnostic }) => {
            assert_eq!(path, "/opt/lldb/lib/liblldb.so");
            assert!(matches!(
                diagnostic,
                PlatformDiagnostic::Text(ref text)
                    if text == "liblldb.so: cannot open shared object file"
            ));
        }
    }
}

#[test]
fn symbol_call_names_the_library_and_the_symbol() {
    let handle = load_library("libcodelldb.so", 0x5000, no_reason()).ok().unwrap();
    let call = symbol_call(&handle, "entry").unwrap();
    assert_eq!(call.library, 0x5000);
    assert_eq!(call.name, b"entry\0".to_vec());
    assert!(symbol_call(&handle, "en\0try").is_none());
}

#[test]
fn find_symbol_gives_an_address_in_its_library() {
    let handle = load_library("libcodelldb.so", 0x5000, no_reason()).ok().unwrap();
    match find_symbol(&handle, "entry", 0x5abc, no_reason()) {
        Ok(symbol) => {
            assert_eq!(symbol.address(), 0x5abc);
            assert_eq!(symbol.library(), 0x5000);
        }
        Err(_) => panic!("an address was expected"),
    }
}

#[test]
fn find_symbol_gives_an_error_for_null() {
    let handle = load_library("codelldb.dll", 0x5000, no_reason()).ok().unwrap();
    match find_symbol(&handle, "entry", 0, PlatformDiagnostic::Code(127)) {
        Ok(_) => panic!("an error was expected"),
        Err(SymbolError { name, diagnostic }) => {
            assert_eq!(name, "entry");
            assert!(matches!(diagnostic, PlatformDiagnostic::Code(127)));
        }
    }
}

#[test]
fn load_message_names_path_and_reason() {
    let error = LoadError {
        path: "/opt/lldb/lib/liblldb.so".to_string(),
        diagnostic: PlatformDiagnostic::Text("wrong ELF class".to_string()),
    };
    assert_eq!(error.message(), "Could not load \"/opt/lldb/lib/liblldb.so\" (wrong ELF class)");
    let error = LoadError {
        path: "python36.dll".to_string(),
        diagnostic: PlatformDiagnostic::Code(126),
    };
    assert_eq!(error.message(), "Could not load \"python36.dll\" (err=0000007E)");
}

#[test]
fn symbol_message_names_symbol_and_reason() {
    let error = SymbolError {
        name: "entry".to_string(),
        diagnostic: PlatformDiagnostic::Code(0xDEAD_BEEF),
    };
    assert_eq!(error.message(), "Could not find entry (err=DEADBEEF)");
    let error = SymbolError {
        name: "entry".to_string(),
        diagnostic: PlatformDiagnostic::Text("undefined symbol: entry".to_string()),
    };
    assert_eq!(error.message(), "Could not find entry (undefined symbol: entry)");
}

#[test]
fn cause_is_the_text_or_the_code_in_hexadecimal() {
    assert_eq!(PlatformDiagnostic::Text("no such file".to_string()).cause(), "no such file");
    assert_eq!(PlatformDiagnostic::Code(0).cause(), "err=00000000");
    assert_eq!(PlatformDiagnostic::Code(u32::MAX).cause(), "err=FFFFFFFF");
}
