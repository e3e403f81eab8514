//! What differs between the operating systems the launcher runs on.

use vstd::prelude::*;

verus! {

/// The operating system the launcher is built for.
#[derive(Clone, Copy, Debug, PartialEq, Eq, Structural)]
pub enum Platform {
    Linux,
    MacOs,
    Windows,
}

/// The texts of a list of patterns, in order.
pub open spec fn texts(patterns: Seq<&'static str>) -> Seq<Seq<char>> {
    patterns.map_values(|p: &'static str| p@)
}

impl Platform {
    /// The glob that matches the engine library under its plain name.
    pub open spec fn spec_base_pattern(self) -> Seq<char> {
        match self {
            Platform::Linux => "**/lib/liblldb.so"@,
            Platform::MacOs => "**/lib/liblldb.dylib"@,
            Platform::Windows => "**/bin/liblldb.dll"@,
        }
    }

    /// The glob that matches the engine library under a name that carries a
    /// version.
    pub open spec fn spec_versioned_pattern(self) -> Seq<char> {
        match self {
            Platform::Linux => "**/lib/liblldb.so.*"@,
            Platform::MacOs => "**/lib/liblldb.*.dylib"@,
            Platform::Windows => "**/bin/liblldb.*.dll"@,
        }
    }

    /// The engine patterns: the plain name first, then the versioned one.
    pub open spec fn spec_engine_patterns(self) -> Seq<Seq<char>> {
        seq![self.spec_base_pattern(), self.spec_versioned_pattern()]
    }

    /// The file name of the extension library, which sits beside the running
    /// executable.
    pub open spec fn spec_extension_file_name(self) -> Seq<char> {
        match self {
            Platform::Linux => "libcodelldb.so"@,
            Platform::MacOs => "libcodelldb.dylib"@,
            Platform::Windows => "codelldb.dll"@,
        }
    }

    /// Whether the platform loader looks dependent libraries up in a list of
    /// directories that the process can extend.
    pub open spec fn spec_has_search_path(self) -> bool {
        self == Platform::Windows
    }

    /// Whether the platform loader takes a flag that makes a library's symbols
    /// visible to the libraries loaded after it. Where it takes none, every
    /// loaded library is visible.
    pub open spec fn spec_has_visibility_flag(self) -> bool {
        self != Platform::Windows
    }

    pub fn engine_patterns(self) -> (r: Vec<&'static str>)
        ensures
            texts(r@) == self.spec_engine_patterns(),
    {
        let mut patterns: Vec<&'static str> = Vec::new();
        match self {
            Platform::Linux => {
                patterns.push("**/lib/liblldb.so");
                patterns.push("**/lib/liblldb.so.*");
            },
            Platform::MacOs => {
                patterns.push("**/lib/liblldb.dylib");
                patterns.push("**/lib/liblldb.*.dylib");
            },
            Platform::Windows => {
                patterns.push("**/bin/liblldb.dll");
                patterns.push("**/bin/liblldb.*.dll");
            },
        }
        assert(texts(patterns@) =~= self.spec_engine_patterns());
        patterns
    }

    pub fn extension_file_name(self) -> (r: &'static str)
        ensures
            r@ == self.spec_extension_file_name(),
    {
        match self {
            Platform::Linux => "libcodelldb.so",
            Platform::MacOs => "libcodelldb.dylib",
            Platform::Windows => "codelldb.dll",
        }
    }

    pub fn has_search_path(self) -> (r: bool)
        ensures
            r == self.spec_has_search_path(),
    {
        match self {
            Platform::Windows => true,
            _ => false,
        }
    }

    pub fn has_visibility_flag(self) -> (r: bool)
        ensures
            r == self.spec_has_visibility_flag(),
    {
        match self {
            Platform::Windows => false,
            _ => true,
        }
    }
}

} // verus!
