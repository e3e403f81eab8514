//! The startup sequence: find the engine library, load it so that its symbols
//! are visible to what is loaded next, load the extension library from beside
//! the running executable, resolve its entry point and hand control to it.
//!
//! The sequence is written as a machine. `Bootstrap::start` and
//! `Bootstrap::step` name the next thing to do as an `Action`; the caller does
//! it and reports what came of it as an `Event`. Every failure ends the
//! sequence: there is no retry and no fallback.

use vstd::prelude::*;
use vstd::string::*;
use vstd::utf8::encode_utf8;
use crate::loader::{
    find_symbol, load_call, load_library, spec_load_call, spec_load_message, spec_symbol_call,
    spec_symbol_message, symbol_call, LibraryHandle, LoadCall, LoadCallView, LoadError,
    LoadErrorView, PlatformDiagnostic, PlatformDiagnosticView, SymbolAddress, SymbolCall,
    SymbolError, SymbolErrorView,
};
use crate::locator::{
    judge, judge_event, scan_plan, spec_locate_message, spec_pattern_message, EngineLocation,
    EngineLocationView,
    LocateError, LocateErrorView, ScanEvent, ScanEventView, ScanPlan, ScanVerdict,
    ScanVerdictView, FOLLOW_LINKS, MAX_SCAN_DEPTH,
};
use crate::matcher::{compiles, pattern_error_is_unique, PathMatcher};
use crate::platform::Platform;

verus! {

/// What the launcher was started with.
pub struct StartupParameters {
    pub engine: EngineLocation,
    pub port: u16,
    pub multi_session: bool,
}

/// What stays the same through the whole sequence.
#[derive(Clone, Copy, Debug, PartialEq, Eq, Structural)]
pub struct Settings {
    pub platform: Platform,
    pub port: u16,
    pub multi_session: bool,
}

/// The next thing for the caller to do.
pub enum Action {
    /// Begin the walk that the plan describes and report what it produces
    /// first.
    BeginScan(ScanPlan),
    /// Report what the walk produces next.
    NextEntry,
    /// Report the loader's search path and the directory that holds `engine`.
    ReadSearchPath { engine: String },
    /// Make `value` the loader's search path.
    SetSearchPath { value: String },
    /// Make this call to the platform loader and report its answer.
    Load(LoadCall),
    /// Report the path of the file called `file_name` in the directory of the
    /// running executable.
    FindExtension { file_name: String },
    /// Make this call to the platform loader and report its answer.
    Resolve(SymbolCall),
    /// Call the entry point with the port and the multi-session flag, and
    /// report when it returns.
    Invoke { entry: SymbolAddress, port: u16, multi_session: bool },
    /// End the process with success.
    Exit,
    /// Tell the user `message` and end the process with a failure.
    Abort { message: String },
    /// Nothing: the sequence is over.
    Stop,
}

pub enum ActionView {
    BeginScan { root: Seq<char>, max_depth: usize, follow_links: bool },
    NextEntry,
    ReadSearchPath { engine: Seq<char> },
    SetSearchPath { value: Seq<char> },
    Load(LoadCallView),
    FindExtension { file_name: Seq<char> },
    Resolve { library: usize, name: Seq<u8> },
    Invoke { entry: usize, port: u16, multi_session: bool },
    Exit,
    Abort { message: Seq<char> },
    Stop,
}

impl View for Action {
    type V = ActionView;

    open spec fn view(&self) -> ActionView {
        match self {
            Action::BeginScan(plan) => ActionView::BeginScan {
                root: plan.root@,
                max_depth: plan.max_depth,
                follow_links: plan.follow_links,
            },
            Action::NextEntry => ActionView::NextEntry,
            Action::ReadSearchPath { engine } => ActionView::ReadSearchPath { engine: engine@ },
            Action::SetSearchPath { value } => ActionView::SetSearchPath { value: value@ },
            Action::Load(call) => ActionView::Load(call@),
            Action::FindExtension { file_name } => ActionView::FindExtension {
                file_name: file_name@,
            },
            Action::Resolve(call) => ActionView::Resolve { library: call.library, name: call.name@ },
            Action::Invoke { entry, port, multi_session } => ActionView::Invoke {
                entry: entry.spec_address(),
                port: *port,
                multi_session: *multi_session,
            },
            Action::Exit => ActionView::Exit,
            Action::Abort { message } => ActionView::Abort { message: message@ },
            Action::Stop => ActionView::Stop,
        }
    }
}

/// What came of the last action.
pub enum Event {
    /// The walk produced this.
    Scanned(ScanEvent),
    /// The walk is over.
    ScanEnded,
    /// The loader's search path, and the directory that holds the engine
    /// library.
    SearchPath { current: String, engine_directory: String },
    /// The action was done and has nothing to report.
    Completed,
    /// The loader's answer to a load call: the address it returned, null where
    /// it failed, and its reason.
    Loaded { raw: usize, diagnostic: PlatformDiagnostic },
    /// The path of the extension library.
    ExtensionPath(String),
    /// The loader's answer to a symbol call: the address it returned, null
    /// where it failed, and its reason.
    Resolved { raw: usize, diagnostic: PlatformDiagnostic },
    /// The action could not be done, for this reason.
    Unavailable(String),
}

pub enum EventView {
    Scanned(ScanEventView),
    ScanEnded,
    SearchPath { current: Seq<char>, engine_directory: Seq<char> },
    Completed,
    Loaded { raw: usize, diagnostic: PlatformDiagnosticView },
    ExtensionPath(Seq<char>),
    Resolved { raw: usize, diagnostic: PlatformDiagnosticView },
    Unavailable(Seq<char>),
}

impl View for Event {
    type V = EventView;

    open spec fn view(&self) -> EventView {
        match self {
            Event::Scanned(event) => EventView::Scanned(event@),
            Event::ScanEnded => EventView::ScanEnded,
            Event::SearchPath { current, engine_directory } => EventView::SearchPath {
                current: current@,
                engine_directory: engine_directory@,
            },
            Event::Completed => EventView::Completed,
            Event::Loaded { raw, diagnostic } => EventView::Loaded {
                raw: *raw,
                diagnostic: diagnostic@,
            },
            Event::ExtensionPath(path) => EventView::ExtensionPath(path@),
            Event::Resolved { raw, diagnostic } => EventView::Resolved {
                raw: *raw,
                diagnostic: diagnostic@,
            },
            Event::Unavailable(reason) => EventView::Unavailable(reason@),
        }
    }
}

/// Where the sequence stands: what it is waiting to hear of.
enum Stage {
    Scanning { root: String, matcher: PathMatcher },
    ExtendingSearchPath { engine: String },
    SettingSearchPath { engine: String },
    Preloading { engine: String },
    LoadingEngine { engine: String },
    FindingExtension,
    LoadingExtension { path: String },
    ResolvingEntry { library: LibraryHandle },
    Running,
    Finished,
    Failed,
}

pub enum StageView {
    /// The next event of the walk below `root`.
    Scanning { root: Seq<char>, patterns: Seq<Seq<char>> },
    /// The loader's search path.
    ExtendingSearchPath { engine: Seq<char> },
    /// That the search path was set.
    SettingSearchPath { engine: Seq<char> },
    /// The loader's answer about the interpreter runtime.
    Preloading { engine: Seq<char> },
    /// The loader's answer about the engine library.
    LoadingEngine { engine: Seq<char> },
    /// The path of the extension library.
    FindingExtension,
    /// The loader's answer about the extension library.
    LoadingExtension { path: Seq<char> },
    /// The loader's answer about the entry point.
    ResolvingEntry { library: usize },
    /// The return of the entry point.
    Running,
    /// Nothing: the entry point has returned.
    Finished,
    /// Nothing: the sequence was given up.
    Failed,
}

impl View for Stage {
    type V = StageView;

    closed spec fn view(&self) -> StageView {
        match self {
            Stage::Scanning { root, matcher } => StageView::Scanning {
                root: root@,
                patterns: matcher.patterns(),
            },
            Stage::ExtendingSearchPath { engine } => StageView::ExtendingSearchPath {
                engine: engine@,
            },
            Stage::SettingSearchPath { engine } => StageView::SettingSearchPath { engine: engine@ },
            Stage::Preloading { engine } => StageView::Preloading { engine: engine@ },
            Stage::LoadingEngine { engine } => StageView::LoadingEngine { engine: engine@ },
            Stage::FindingExtension => StageView::FindingExtension,
            Stage::LoadingExtension { path } => StageView::LoadingExtension { path: path@ },
            Stage::ResolvingEntry { library } => StageView::ResolvingEntry {
                library: library.spec_address(),
            },
            Stage::Running => StageView::Running,
            Stage::Finished => StageView::Finished,
            Stage::Failed => StageView::Failed,
        }
    }
}

/// The startup sequence at some point of its course.
pub struct Bootstrap {
    settings: Settings,
    stage: Stage,
}

pub struct BootstrapView {
    pub settings: Settings,
    pub stage: StageView,
}

impl View for Bootstrap {
    type V = BootstrapView;

    closed spec fn view(&self) -> BootstrapView {
        BootstrapView { settings: self.settings, stage: self.stage@ }
    }
}

/// The name of the extension library's entry point.
pub open spec fn spec_entry_symbol() -> Seq<char> {
    "entry"@
}

/// The interpreter runtime that the engine library depends on. It is loaded
/// ahead of the engine so that, where it is missing, the user is told so by
/// name.
pub open spec fn spec_preload_library() -> Seq<char> {
    "python36.dll"@
}

/// The reason given where a path or a name cannot be handed to the loader.
pub open spec fn spec_zero_byte_reason() -> Seq<char> {
    "it holds a zero byte"@
}

/// The message for an event that does not answer the last action.
pub open spec fn spec_protocol_message() -> Seq<char> {
    "The launcher was told of something it had not asked for"@
}

/// The loader's search path with `directory` added to its end.
pub open spec fn spec_extended_search_path(current: Seq<char>, directory: Seq<char>) -> Seq<char> {
    current + ";"@ + directory
}

/// Giving the sequence up with `message`.
pub open spec fn spec_abort(settings: Settings, message: Seq<char>) -> (BootstrapView, ActionView) {
    (BootstrapView { settings, stage: StageView::Failed }, ActionView::Abort { message })
}

/// Asking the loader for the file at `path`, then waiting in `next`. A path
/// that cannot be handed to the loader ends the sequence.
pub open spec fn spec_open(settings: Settings, path: Seq<char>, global_symbols: bool, next: StageView) -> (
    BootstrapView,
    ActionView,
) {
    match spec_load_call(settings.platform, encode_utf8(path), global_symbols) {
        Some(call) => (BootstrapView { settings, stage: next }, ActionView::Load(call)),
        None => spec_abort(
            settings,
            spec_load_message(
                LoadErrorView {
                    path,
                    diagnostic: PlatformDiagnosticView::Text(spec_zero_byte_reason()),
                },
            ),
        ),
    }
}

/// Asking the loader for the engine library, with its symbols visible to what
/// is loaded next.
pub open spec fn spec_load_engine(settings: Settings, engine: Seq<char>) -> (
    BootstrapView,
    ActionView,
) {
    spec_open(settings, engine, true, StageView::LoadingEngine { engine })
}

/// What follows once the engine library's path is known: where the loader has
/// a search path, that is prepared first; elsewhere the engine is loaded.
pub open spec fn spec_located(settings: Settings, engine: Seq<char>) -> (BootstrapView, ActionView) {
    if settings.platform.spec_has_search_path() {
        (
            BootstrapView { settings, stage: StageView::ExtendingSearchPath { engine } },
            ActionView::ReadSearchPath { engine },
        )
    } else {
        spec_load_engine(settings, engine)
    }
}

/// Where the sequence begins, and its first action.
pub open spec fn spec_start(engine: EngineLocationView, settings: Settings) -> (
    BootstrapView,
    ActionView,
) {
    match engine {
        EngineLocationView::File(path) => spec_located(settings, path),
        EngineLocationView::SearchRoot(root) => {
            let patterns = settings.platform.spec_engine_patterns();
            if compiles(patterns) {
                (
                    BootstrapView { settings, stage: StageView::Scanning { root, patterns } },
                    ActionView::BeginScan {
                        root,
                        max_depth: MAX_SCAN_DEPTH,
                        follow_links: FOLLOW_LINKS,
                    },
                )
            } else {
                spec_abort(settings, spec_pattern_message())
            }
        },
    }
}

/// What `event` leads to where the sequence waits for an answer.
pub open spec fn spec_answer(settings: Settings, stage: StageView, event: EventView) -> (
    BootstrapView,
    ActionView,
) {
    match (stage, event) {
        (StageView::Scanning { root, patterns }, EventView::Scanned(scanned)) => match judge(
            patterns,
            scanned,
        ) {
            ScanVerdictView::Continue => (
                BootstrapView { settings, stage },
                ActionView::NextEntry,
            ),
            ScanVerdictView::Found(path) => spec_located(settings, path),
            ScanVerdictView::Failed(diagnostic) => spec_abort(
                settings,
                spec_locate_message(LocateErrorView::ReadFailed { diagnostic }),
            ),
        },
        (StageView::Scanning { root, patterns }, EventView::ScanEnded) => spec_abort(
            settings,
            spec_locate_message(LocateErrorView::NotFound { root }),
        ),
        (
            StageView::ExtendingSearchPath { engine },
            EventView::SearchPath { current, engine_directory },
        ) => (
            BootstrapView { settings, stage: StageView::SettingSearchPath { engine } },
            ActionView::SetSearchPath {
                value: spec_extended_search_path(current, engine_directory),
            },
        ),
        (StageView::SettingSearchPath { engine }, EventView::Completed) => spec_open(
            settings,
            spec_preload_library(),
            false,
            StageView::Preloading { engine },
        ),
        (StageView::Preloading { engine }, EventView::Loaded { raw, diagnostic }) => if raw != 0 {
            spec_load_engine(settings, engine)
        } else {
            spec_abort(
                settings,
                spec_load_message(LoadErrorView { path: spec_preload_library(), diagnostic }),
            )
        },
        (StageView::LoadingEngine { engine }, EventView::Loaded { raw, diagnostic }) => if raw
            != 0 {
            (
                BootstrapView { settings, stage: StageView::FindingExtension },
                ActionView::FindExtension {
                    file_name: settings.platform.spec_extension_file_name(),
                },
            )
        } else {
            spec_abort(settings, spec_load_message(LoadErrorView { path: engine, diagnostic }))
        },
        (StageView::FindingExtension, EventView::ExtensionPath(path)) => spec_open(
            settings,
            path,
            false,
            StageView::LoadingExtension { path },
        ),
        (StageView::LoadingExtension { path }, EventView::Loaded { raw, diagnostic }) => if raw
            != 0 {
            match spec_symbol_call(raw, encode_utf8(spec_entry_symbol())) {
                Some((library, name)) => (
                    BootstrapView { settings, stage: StageView::ResolvingEntry { library } },
                    ActionView::Resolve { library, name },
                ),
                None => spec_abort(
                    settings,
                    spec_symbol_message(
                        SymbolErrorView {
                            name: spec_entry_symbol(),
                            diagnostic: PlatformDiagnosticView::Text(spec_zero_byte_reason()),
                        },
                    ),
                ),
            }
        } else {
            spec_abort(settings, spec_load_message(LoadErrorView { path, diagnostic }))
        },
        (StageView::ResolvingEntry { library }, EventView::Resolved { raw, diagnostic }) => if raw
            != 0 {
            (
                BootstrapView { settings, stage: StageView::Running },
                ActionView::Invoke {
                    entry: raw,
                    port: settings.port,
                    multi_session: settings.multi_session,
                },
            )
        } else {
            spec_abort(
                settings,
                spec_symbol_message(SymbolErrorView { name: spec_entry_symbol(), diagnostic }),
            )
        },
        (StageView::Running, EventView::Completed) => (
            BootstrapView { settings, stage: StageView::Finished },
            ActionView::Exit,
        ),
        _ => spec_abort(settings, spec_protocol_message()),
    }
}

/// One step of the sequence. Once it is over, nothing moves it. An action that
/// could not be done ends it with the reason given. Otherwise the event is
/// taken as the answer to the last action.
pub open spec fn spec_step(state: BootstrapView, event: EventView) -> (BootstrapView, ActionView) {
    match state.stage {
        StageView::Finished => (state, ActionView::Stop),
        StageView::Failed => (state, ActionView::Stop),
        _ => match event {
            EventView::Unavailable(reason) => spec_abort(state.settings, reason),
            _ => spec_answer(state.settings, state.stage, event),
        },
    }
}

fn entry_symbol() -> (r: &'static str)
    ensures
        r@ == spec_entry_symbol(),
{
    "entry"
}

fn preload_library() -> (r: &'static str)
    ensures
        r@ == spec_preload_library(),
{
    "python36.dll"
}

fn zero_byte_reason() -> (r: PlatformDiagnostic)
    ensures
        r@ == PlatformDiagnosticView::Text(spec_zero_byte_reason()),
{
    PlatformDiagnostic::Text(String::from_str("it holds a zero byte"))
}

/// Adds `directory` to the end of the loader's search path.
pub fn extended_search_path(current: &str, directory: &str) -> (r: String)
    ensures
        r@ == spec_extended_search_path(current@, directory@),
{
    let mut r = String::from_str(current);
    r.append(";");
    r.append(directory);
    r
}

fn abort(settings: Settings, message: String) -> (r: (Bootstrap, Action))
    ensures
        (r.0@, r.1@) == spec_abort(settings, message@),
{
    (Bootstrap { settings, stage: Stage::Failed }, Action::Abort { message })
}

fn open(settings: Settings, path: &str, global_symbols: bool, next: Stage) -> (r: (
    Bootstrap,
    Action,
))
    ensures
        (r.0@, r.1@) == spec_open(settings, path@, global_symbols, next@),
{
    match load_call(settings.platform, path, global_symbols) {
        Some(call) => (Bootstrap { settings, stage: next }, Action::Load(call)),
        None => {
            let error = LoadError { path: path.to_owned(), diagnostic: zero_byte_reason() };
            abort(settings, error.message())
        },
    }
}

fn load_engine(settings: Settings, engine: String) -> (r: (Bootstrap, Action))
    ensures
        (r.0@, r.1@) == spec_load_engine(settings, engine@),
{
    let path = engine.clone();
    open(settings, path.as_str(), true, Stage::LoadingEngine { engine })
}

fn located(settings: Settings, engine: String) -> (r: (Bootstrap, Action))
    ensures
        (r.0@, r.1@) == spec_located(settings, engine@),
{
    if settings.platform.has_search_path() {
        let asked = engine.clone();
        (
            Bootstrap { settings, stage: Stage::ExtendingSearchPath { engine } },
            Action::ReadSearchPath { engine: asked },
        )
    } else {
        load_engine(settings, engine)
    }
}

impl Bootstrap {
    /// Whether the entry point has returned.
    pub fn is_finished(&self) -> (r: bool)
        ensures
            r == (self@.stage is Finished),
    {
        match &self.stage {
            Stage::Finished => true,
            _ => false,
        }
    }

    /// Whether the sequence was given up.
    pub fn is_failed(&self) -> (r: bool)
        ensures
            r == (self@.stage is Failed),
    {
        match &self.stage {
            Stage::Failed => true,
            _ => false,
        }
    }

    /// What the sequence was started with.
    pub fn settings(&self) -> (r: Settings)
        ensures
            r == self@.settings,
    {
        self.settings
    }

    /// Begins the sequence on `platform`.
    pub fn start(parameters: StartupParameters, platform: Platform) -> (r: (Bootstrap, Action))
        ensures
            (r.0@, r.1@) == spec_start(
                parameters.engine@,
                Settings {
                    platform,
                    port: parameters.port,
                    multi_session: parameters.multi_session,
                },
            ),
    {
        let settings = Settings {
            platform,
            port: parameters.port,
            multi_session: parameters.multi_session,
        };
        match parameters.engine {
            EngineLocation::File(path) => located(settings, path),
            EngineLocation::SearchRoot(root) => {
                let patterns = platform.engine_patterns();
                match PathMatcher::new(&patterns) {
                    Ok(matcher) => {
                        let plan = scan_plan(root.as_str());
                        (
                            Bootstrap { settings, stage: Stage::Scanning { root, matcher } },
                            Action::BeginScan(plan),
                        )
                    },
                    Err(error) => {
                        proof {
                            pattern_error_is_unique(platform.spec_engine_patterns(), error, error);
                        }
                        abort(settings, LocateError::Pattern(error).message())
                    },
                }
            },
        }
    }

    /// Takes the sequence one step on: from where it stands and what came of
    /// the last action to where it stands next and what to do then.
    pub fn step(self, event: Event) -> (r: (Bootstrap, Action))
        ensures
            (r.0@, r.1@) == spec_step(self@, event@),
    {
        let settings = self.settings;
        match self.stage {
            Stage::Finished => (Bootstrap { settings, stage: Stage::Finished }, Action::Stop),
            Stage::Failed => (Bootstrap { settings, stage: Stage::Failed }, Action::Stop),
            stage => match event {
                Event::Unavailable(reason) => abort(settings, reason),
                event => answer(settings, stage, event),
            },
        }
    }
}

fn protocol_failure(settings: Settings) -> (r: (Bootstrap, Action))
    ensures
        (r.0@, r.1@) == spec_abort(settings, spec_protocol_message()),
{
    abort(settings, String::from_str("The launcher was told of something it had not asked for"))
}

fn answer(settings: Settings, stage: Stage, event: Event) -> (r: (Bootstrap, Action))
    ensures
        (r.0@, r.1@) == spec_answer(settings, stage@, event@),
{
    match stage {
        Stage::Scanning { root, matcher } => match event {
            Event::Scanned(scanned) => match judge_event(&matcher, &scanned) {
                ScanVerdict::Continue => (
                    Bootstrap { settings, stage: Stage::Scanning { root, matcher } },
                    Action::NextEntry,
                ),
                ScanVerdict::Found(path) => located(settings, path),
                ScanVerdict::Failed(diagnostic) => abort(
                    settings,
                    LocateError::ReadFailed { diagnostic }.message(),
                ),
            },
            Event::ScanEnded => abort(settings, LocateError::NotFound { root }.message()),
            _ => protocol_failure(settings),
        },
        Stage::ExtendingSearchPath { engine } => match event {
            Event::SearchPath { current, engine_directory } => (
                Bootstrap { settings, stage: Stage::SettingSearchPath { engine } },
                Action::SetSearchPath {
                    value: extended_search_path(current.as_str(), engine_directory.as_str()),
                },
            ),
            _ => protocol_failure(settings),
        },
        Stage::SettingSearchPath { engine } => match event {
            Event::Completed => open(
                settings,
                preload_library(),
                false,
                Stage::Preloading { engine },
            ),
            _ => protocol_failure(settings),
        },
        Stage::Preloading { engine } => match event {
            Event::Loaded { raw, diagnostic } => match load_library(
                preload_library(),
                raw,
                diagnostic,
            ) {
                Ok(_) => load_engine(settings, engine),
                Err(error) => abort(settings, error.message()),
            },
            _ => protocol_failure(settings),
        },
        Stage::LoadingEngine { engine } => match event {
            Event::Loaded { raw, diagnostic } => match load_library(
                engine.as_str(),
                raw,
                diagnostic,
            ) {
                Ok(_) => (
                    Bootstrap { settings, stage: Stage::FindingExtension },
                    Action::FindExtension {
                        file_name: String::from_str(settings.platform.extension_file_name()),
                    },
                ),
                Err(error) => abort(settings, error.message()),
            },
            _ => protocol_failure(settings),
        },
        Stage::FindingExtension => match event {
            Event::ExtensionPath(path) => {
                let asked = path.clone();
                open(settings, asked.as_str(), false, Stage::LoadingExtension { path })
            },
            _ => protocol_failure(settings),
        },
        Stage::LoadingExtension { path } => match event {
            Event::Loaded { raw, diagnostic } => match load_library(
                path.as_str(),
                raw,
                diagnostic,
            ) {
                Ok(library) => match symbol_call(&library, entry_symbol()) {
                    Some(call) => (
                        Bootstrap { settings, stage: Stage::ResolvingEntry { library } },
                        Action::Resolve(call),
                    ),
                    None => {
                        let error = SymbolError {
                            name: String::from_str(entry_symbol()),
                            diagnostic: zero_byte_reason(),
                        };
                        abort(settings, error.message())
                    },
                },
                Err(error) => abort(settings, error.message()),
            },
            _ => protocol_failure(settings),
        },
        Stage::ResolvingEntry { library } => match event {
            Event::Resolved { raw, diagnostic } => match find_symbol(
                &library,
                entry_symbol(),
                raw,
                diagnostic,
            ) {
                Ok(entry) => (
                    Bootstrap { settings, stage: Stage::Running },
                    Action::Invoke {
                        entry,
                        port: settings.port,
                        multi_session: settings.multi_session,
                    },
                ),
                Err(error) => abort(settings, error.message()),
            },
            _ => protocol_failure(settings),
        },
        Stage::Running => match event {
            Event::Completed => (Bootstrap { settings, stage: Stage::Finished }, Action::Exit),
            _ => protocol_failure(settings),
        },
        Stage::Finished => protocol_failure(settings),
        Stage::Failed => protocol_failure(settings),
    }
}

} // verus!
