//! Loading shared libraries and resolving their symbols.
//!
//! The platform loader is foreign code, so the calls themselves are made by the
//! caller. This module fixes what is handed to the loader (the file name as a
//! C string, the flags that govern symbol visibility) and decides what the
//! loader's answer means: a handle or an address where it answered with one,
//! an error that names the path or symbol and the platform's reason where it
//! did not.

use vstd::prelude::*;
use vstd::string::*;
use crate::platform::Platform;
use crate::report::{hex8, includes, joined_includes_middle, spec_hex8};

verus! {

/// Resolve symbols when they are first used.
pub const RTLD_LAZY: i32 = 0x1;

/// Make the library's symbols available to the libraries loaded after it.
pub const RTLD_GLOBAL: i32 = 0x100;

/// The flags for opening a library whose symbols are, or are not, to be
/// visible to the libraries loaded after it.
pub open spec fn spec_open_flags(global_symbols: bool) -> i32 {
    if global_symbols {
        0x101
    } else {
        0x1
    }
}

pub fn open_flags(global_symbols: bool) -> (flags: i32)
    ensures
        flags == spec_open_flags(global_symbols),
        flags & RTLD_LAZY == RTLD_LAZY,
        (flags & RTLD_GLOBAL == RTLD_GLOBAL) == global_symbols,
{
    assert(0x1i32 | 0x100i32 == 0x101i32) by (bit_vector);
    assert(0x101i32 & 0x1i32 == 0x1i32) by (bit_vector);
    assert(0x101i32 & 0x100i32 == 0x100i32) by (bit_vector);
    assert(0x1i32 & 0x1i32 == 0x1i32) by (bit_vector);
    assert(0x1i32 & 0x100i32 == 0i32) by (bit_vector);
    if global_symbols {
        RTLD_LAZY | RTLD_GLOBAL
    } else {
        RTLD_LAZY
    }
}

/// The C string that holds `text`: its bytes and a closing zero byte. A text
/// with a zero byte inside has none.
pub open spec fn c_string_of(text: Seq<u8>) -> Option<Seq<u8>> {
    if text.contains(0u8) {
        None
    } else {
        Some(text.push(0u8))
    }
}

/// The view of an optional byte string.
pub open spec fn bytes_view(bytes: Option<Vec<u8>>) -> Option<Seq<u8>> {
    match bytes {
        Some(b) => Some(b@),
        None => None,
    }
}

pub fn c_string(text: &str) -> (r: Option<Vec<u8>>)
    ensures
        bytes_view(r) == c_string_of(text.spec_bytes()),
{
    let mut bytes = text.as_bytes_vec();
    let mut i: usize = 0;
    while i < bytes.len()
        invariant
            i <= bytes.len(),
            bytes@ == text.spec_bytes(),
            forall|j: int| 0 <= j < i ==> bytes@[j] != 0u8,
        decreases bytes.len() - i,
    {
        if bytes[i] == 0 {
            assert(text.spec_bytes().contains(0u8));
            return None;
        }
        i = i + 1;
    }
    bytes.push(0);
    Some(bytes)
}

/// The call that asks the platform loader for a library.
pub enum LoadCall {
    /// `dlopen(file_name, flags)`.
    Dlopen { file_name: Vec<u8>, flags: i32 },
    /// `LoadLibraryA(file_name)`.
    LoadLibrary { file_name: Vec<u8> },
}

pub enum LoadCallView {
    Dlopen { file_name: Seq<u8>, flags: i32 },
    LoadLibrary { file_name: Seq<u8> },
}

impl View for LoadCall {
    type V = LoadCallView;

    open spec fn view(&self) -> LoadCallView {
        match self {
            LoadCall::Dlopen { file_name, flags } => LoadCallView::Dlopen {
                file_name: file_name@,
                flags: *flags,
            },
            LoadCall::LoadLibrary { file_name } => LoadCallView::LoadLibrary {
                file_name: file_name@,
            },
        }
    }
}

/// The call that loads the file at `path` on `platform`. There is none for a
/// path with a zero byte inside.
pub open spec fn spec_load_call(platform: Platform, path: Seq<u8>, global_symbols: bool) -> Option<
    LoadCallView,
> {
    match c_string_of(path) {
        None => None,
        Some(file_name) => Some(
            if platform.spec_has_visibility_flag() {
                LoadCallView::Dlopen { file_name, flags: spec_open_flags(global_symbols) }
            } else {
                LoadCallView::LoadLibrary { file_name }
            },
        ),
    }
}

/// The view of an optional load call.
pub open spec fn load_call_view(call: Option<LoadCall>) -> Option<LoadCallView> {
    match call {
        Some(c) => Some(c@),
        None => None,
    }
}

pub fn load_call(platform: Platform, path: &str, global_symbols: bool) -> (call: Option<LoadCall>)
    ensures
        load_call_view(call) == spec_load_call(platform, path.spec_bytes(), global_symbols),
{
    match c_string(path) {
        None => None,
        Some(file_name) => {
            if platform.has_visibility_flag() {
                Some(LoadCall::Dlopen { file_name, flags: open_flags(global_symbols) })
            } else {
                Some(LoadCall::LoadLibrary { file_name })
            }
        },
    }
}

/// What the platform said of a call that failed: a text where it keeps one, an
/// error code where it keeps that.
pub enum PlatformDiagnostic {
    Text(String),
    Code(u32),
}

pub enum PlatformDiagnosticView {
    Text(Seq<char>),
    Code(u32),
}

impl View for PlatformDiagnostic {
    type V = PlatformDiagnosticView;

    open spec fn view(&self) -> PlatformDiagnosticView {
        match self {
            PlatformDiagnostic::Text(text) => PlatformDiagnosticView::Text(text@),
            PlatformDiagnostic::Code(code) => PlatformDiagnosticView::Code(*code),
        }
    }
}

/// A library that the platform loader has brought into the process. It stays
/// loaded for as long as the process lives.
pub struct LibraryHandle {
    address: usize,
}

impl LibraryHandle {
    #[verifier::type_invariant]
    spec fn is_loaded(self) -> bool {
        self.address != 0
    }

    /// What the loader answered when it loaded the library.
    pub closed spec fn spec_address(&self) -> usize {
        self.address
    }

    #[verifier::when_used_as_spec(spec_address)]
    pub fn address(&self) -> (r: usize)
        ensures
            r == self.spec_address(),
            r != 0,
    {
        proof {
            use_type_invariant(self);
        }
        self.address
    }
}

/// The address of a symbol that a loaded library exports.
pub struct SymbolAddress {
    address: usize,
    library: usize,
}

impl SymbolAddress {
    #[verifier::type_invariant]
    spec fn is_resolved(self) -> bool {
        self.address != 0 && self.library != 0
    }

    /// What the loader answered when it resolved the symbol.
    pub closed spec fn spec_address(&self) -> usize {
        self.address
    }

    /// The address of the library that the symbol was resolved in.
    pub closed spec fn spec_library(&self) -> usize {
        self.library
    }

    #[verifier::when_used_as_spec(spec_address)]
    pub fn address(&self) -> (r: usize)
        ensures
            r == self.spec_address(),
            r != 0,
    {
        proof {
            use_type_invariant(self);
        }
        self.address
    }

    #[verifier::when_used_as_spec(spec_library)]
    pub fn library(&self) -> (r: usize)
        ensures
            r == self.spec_library(),
            r != 0,
    {
        proof {
            use_type_invariant(self);
        }
        self.library
    }
}

/// The platform loader could not load the file at `path`.
pub struct LoadError {
    pub path: String,
    pub diagnostic: PlatformDiagnostic,
}

pub struct LoadErrorView {
    pub path: Seq<char>,
    pub diagnostic: PlatformDiagnosticView,
}

impl View for LoadError {
    type V = LoadErrorView;

    open spec fn view(&self) -> LoadErrorView {
        LoadErrorView { path: self.path@, diagnostic: self.diagnostic@ }
    }
}

/// The library exports no symbol called `name`.
pub struct SymbolError {
    pub name: String,
    pub diagnostic: PlatformDiagnostic,
}

pub struct SymbolErrorView {
    pub name: Seq<char>,
    pub diagnostic: PlatformDiagnosticView,
}

impl View for SymbolError {
    type V = SymbolErrorView;

    open spec fn view(&self) -> SymbolErrorView {
        SymbolErrorView { name: self.name@, diagnostic: self.diagnostic@ }
    }
}

/// Decides what the loader's answer to a load call means. `raw` is the address
/// it returned, null where it failed; `diagnostic` is its reason, which is
/// looked at only then.
pub fn load_library(path: &str, raw: usize, diagnostic: PlatformDiagnostic) -> (r: Result<
    LibraryHandle,
    LoadError,
>)
    ensures
        match r {
            Ok(handle) => raw != 0 && handle.spec_address() == raw,
            Err(error) => raw == 0 && error@ == (LoadErrorView {
                path: path@,
                diagnostic: diagnostic@,
            }),
        },
{
    if raw != 0 {
        Ok(LibraryHandle { address: raw })
    } else {
        Err(LoadError { path: path.to_owned(), diagnostic })
    }
}

/// The call that asks the platform loader for the address of a symbol:
/// `dlsym(library, name)` or `GetProcAddress(library, name)`.
pub struct SymbolCall {
    pub library: usize,
    pub name: Vec<u8>,
}

/// The view of an optional symbol call: the library's address and the name.
pub open spec fn symbol_call_view(call: Option<SymbolCall>) -> Option<(usize, Seq<u8>)> {
    match call {
        Some(c) => Some((c.library, c.name@)),
        None => None,
    }
}

/// The call that resolves `name` in the library at `library`. There is none
/// for a name with a zero byte inside.
pub open spec fn spec_symbol_call(library: usize, name: Seq<u8>) -> Option<(usize, Seq<u8>)> {
    match c_string_of(name) {
        None => None,
        Some(bytes) => Some((library, bytes)),
    }
}

pub fn symbol_call(handle: &LibraryHandle, name: &str) -> (call: Option<SymbolCall>)
    ensures
        symbol_call_view(call) == spec_symbol_call(handle.spec_address(), name.spec_bytes()),
{
    match c_string(name) {
        None => None,
        Some(bytes) => Some(SymbolCall { library: handle.address(), name: bytes }),
    }
}

/// Decides what the loader's answer to a symbol call means. `raw` is the
/// address it returned for `name` in `handle`, null where the library has no
/// such export; `diagnostic` is its reason, which is looked at only then.
pub fn find_symbol(
    handle: &LibraryHandle,
    name: &str,
    raw: usize,
    diagnostic: PlatformDiagnostic,
) -> (r: Result<SymbolAddress, SymbolError>)
    ensures
        match r {
            Ok(symbol) => {
                &&& raw != 0
                &&& symbol.spec_address() == raw
                &&& symbol.spec_library() == handle.spec_address()
            },
            Err(error) => raw == 0 && error@ == (SymbolErrorView {
                name: name@,
                diagnostic: diagnostic@,
            }),
        },
{
    if raw != 0 {
        Ok(SymbolAddress { address: raw, library: handle.address() })
    } else {
        Err(SymbolError { name: name.to_owned(), diagnostic })
    }
}

/// The platform's reason as a text: the text itself, or the code as
/// `err=` and eight hexadecimal digits.
pub open spec fn spec_cause(diagnostic: PlatformDiagnosticView) -> Seq<char> {
    match diagnostic {
        PlatformDiagnosticView::Text(text) => text,
        PlatformDiagnosticView::Code(code) => "err="@ + spec_hex8(code),
    }
}

/// What the user is told of a library that could not be loaded.
pub open spec fn spec_load_message(error: LoadErrorView) -> Seq<char> {
    "Could not load \""@ + error.path + "\" ("@ + spec_cause(error.diagnostic) + ")"@
}

/// What the user is told of a symbol that could not be found.
pub open spec fn spec_symbol_message(error: SymbolErrorView) -> Seq<char> {
    "Could not find "@ + error.name + " ("@ + spec_cause(error.diagnostic) + ")"@
}

impl PlatformDiagnostic {
    pub fn cause(&self) -> (r: String)
        ensures
            r@ == spec_cause(self@),
    {
        match self {
            PlatformDiagnostic::Text(text) => text.clone(),
            PlatformDiagnostic::Code(code) => {
                let mut r = String::from_str("err=");
                let digits = hex8(*code);
                r.append(digits.as_str());
                r
            },
        }
    }
}

impl LoadError {
    pub fn message(&self) -> (r: String)
        ensures
            r@ == spec_load_message(self@),
    {
        let cause = self.diagnostic.cause();
        let mut r = String::from_str("Could not load \"");
        r.append(self.path.as_str());
        r.append("\" (");
        r.append(cause.as_str());
        r.append(")");
        r
    }
}

impl SymbolError {
    pub fn message(&self) -> (r: String)
        ensures
            r@ == spec_symbol_message(self@),
    {
        let cause = self.diagnostic.cause();
        let mut r = String::from_str("Could not find ");
        r.append(self.name.as_str());
        r.append(" (");
        r.append(cause.as_str());
        r.append(")");
        r
    }
}

/// The message for a library that could not be loaded names the path and
/// gives the platform's reason.
pub proof fn load_message_names_path_and_cause(error: LoadErrorView)
    ensures
        includes(spec_load_message(error), error.path),
        includes(spec_load_message(error), spec_cause(error.diagnostic)),
{
    let head = "Could not load \""@;
    let joint = "\" ("@;
    let cause = spec_cause(error.diagnostic);
    let tail = ")"@;
    let message = spec_load_message(error);
    assert(message =~= head + error.path + (joint + cause + tail));
    joined_includes_middle(head, error.path, joint + cause + tail);
    assert(message =~= (head + error.path + joint) + cause + tail);
    joined_includes_middle(head + error.path + joint, cause, tail);
}

/// The message for a symbol that could not be found names the symbol and
/// gives the platform's reason.
pub proof fn symbol_message_names_symbol_and_cause(error: SymbolErrorView)
    ensures
        includes(spec_symbol_message(error), error.name),
        includes(spec_symbol_message(error), spec_cause(error.diagnostic)),
{
    let head = "Could not find "@;
    let joint = " ("@;
    let cause = spec_cause(error.diagnostic);
    let tail = ")"@;
    let message = spec_symbol_message(error);
    assert(message =~= head + error.name + (joint + cause + tail));
    joined_includes_middle(head, error.name, joint + cause + tail);
    assert(message =~= (head + error.name + joint) + cause + tail);
    joined_includes_middle(head + error.name + joint, cause, tail);
}

} // verus!
