//! Finding the engine library: a direct file is taken as it is, a directory is
//! searched for the first entry whose path matches the platform's patterns.
//!
//! The walk over the directory is the caller's work. It follows a `ScanPlan`
//! and reports each thing the walk produced, in the walk's order, as a
//! `ScanEvent`. Which entry comes first when several match is whatever order
//! the file system lists them in; the library takes the order as given.

use vstd::prelude::*;
use vstd::string::*;
use crate::matcher::{
    compiles, fails_with, pattern_error_is_unique, set_matches, PathMatcher, PatternError,
};
use crate::platform::Platform;

verus! {

/// How many levels below the search root the walk descends.
pub const MAX_SCAN_DEPTH: usize = 2;

/// Whether the walk follows symbolic links.
pub const FOLLOW_LINKS: bool = true;

/// Where the engine library is said to be.
pub enum EngineLocation {
    /// The library file itself.
    File(String),
    /// A directory to search for it.
    SearchRoot(String),
}

pub enum EngineLocationView {
    File(Seq<char>),
    SearchRoot(Seq<char>),
}

impl View for EngineLocation {
    type V = EngineLocationView;

    open spec fn view(&self) -> EngineLocationView {
        match self {
            EngineLocation::File(path) => EngineLocationView::File(path@),
            EngineLocation::SearchRoot(root) => EngineLocationView::SearchRoot(root@),
        }
    }
}

/// The walk that a search of `root` consists of.
pub struct ScanPlan {
    pub root: String,
    pub max_depth: usize,
    pub follow_links: bool,
}

/// One thing the walk produced.
pub enum ScanEvent {
    /// An entry was visited; this is its path.
    Entry(String),
    /// Reading a directory entry failed; this is the reason.
    Failure(String),
}

pub enum ScanEventView {
    Entry(Seq<char>),
    Failure(Seq<char>),
}

impl View for ScanEvent {
    type V = ScanEventView;

    open spec fn view(&self) -> ScanEventView {
        match self {
            ScanEvent::Entry(path) => ScanEventView::Entry(path@),
            ScanEvent::Failure(diagnostic) => ScanEventView::Failure(diagnostic@),
        }
    }
}

/// The views of a list of events, in order.
pub open spec fn event_views(events: Seq<ScanEvent>) -> Seq<ScanEventView> {
    events.map_values(|e: ScanEvent| e@)
}

/// What one event means for the search.
pub enum ScanVerdict {
    /// The entry does not match: the search goes on.
    Continue,
    /// The entry matches: it is the engine library.
    Found(String),
    /// The walk failed: the search is over.
    Failed(String),
}

pub enum ScanVerdictView {
    Continue,
    Found(Seq<char>),
    Failed(Seq<char>),
}

impl View for ScanVerdict {
    type V = ScanVerdictView;

    open spec fn view(&self) -> ScanVerdictView {
        match self {
            ScanVerdict::Continue => ScanVerdictView::Continue,
            ScanVerdict::Found(path) => ScanVerdictView::Found(path@),
            ScanVerdict::Failed(diagnostic) => ScanVerdictView::Failed(diagnostic@),
        }
    }
}

/// Why no engine library was found.
pub enum LocateError {
    /// The walk below `root` ended without a matching entry.
    NotFound { root: String },
    /// Reading a directory entry failed before any entry matched.
    ReadFailed { diagnostic: String },
    /// The platform's patterns could not be compiled.
    Pattern(PatternError),
}

pub enum LocateErrorView {
    NotFound { root: Seq<char> },
    ReadFailed { diagnostic: Seq<char> },
    Pattern(PatternError),
}

impl View for LocateError {
    type V = LocateErrorView;

    open spec fn view(&self) -> LocateErrorView {
        match self {
            LocateError::NotFound { root } => LocateErrorView::NotFound { root: root@ },
            LocateError::ReadFailed { diagnostic } => LocateErrorView::ReadFailed {
                diagnostic: diagnostic@,
            },
            LocateError::Pattern(error) => LocateErrorView::Pattern(*error),
        }
    }
}

/// The view of what a search returned.
pub open spec fn outcome_view(outcome: Result<String, LocateError>) -> Result<
    Seq<char>,
    LocateErrorView,
> {
    match outcome {
        Ok(path) => Ok(path@),
        Err(error) => Err(error@),
    }
}

/// What `event` means for a search with `patterns`: a read failure ends it, a
/// matching entry is its result, any other entry is passed over.
pub open spec fn judge(patterns: Seq<Seq<char>>, event: ScanEventView) -> ScanVerdictView {
    match event {
        ScanEventView::Failure(diagnostic) => ScanVerdictView::Failed(diagnostic),
        ScanEventView::Entry(path) => if set_matches(patterns, path) {
            ScanVerdictView::Found(path)
        } else {
            ScanVerdictView::Continue
        },
    }
}

/// Whether the event at `index` ends the search, and none before it does.
pub open spec fn decides_at(patterns: Seq<Seq<char>>, events: Seq<ScanEventView>, index: int) -> bool {
    &&& 0 <= index < events.len()
    &&& judge(patterns, events[index]) != ScanVerdictView::Continue
    &&& forall|j: int| 0 <= j < index ==> judge(patterns, #[trigger] events[j]) == ScanVerdictView::Continue
}

/// Whether the search passes over every event.
pub open spec fn undecided(patterns: Seq<Seq<char>>, events: Seq<ScanEventView>) -> bool {
    forall|j: int| 0 <= j < events.len() ==> judge(patterns, #[trigger] events[j]) == ScanVerdictView::Continue
}

/// Whether a search below `root` with `patterns`, fed `events`, ends in
/// `outcome`: the first event that is a matching entry or a read failure
/// decides, and `NotFound` stands for a walk that held neither.
pub open spec fn search_gives(
    patterns: Seq<Seq<char>>,
    root: Seq<char>,
    events: Seq<ScanEventView>,
    outcome: Result<Seq<char>, LocateErrorView>,
) -> bool {
    match outcome {
        Ok(path) => exists|i: int| #[trigger]
            decides_at(patterns, events, i) && events[i] == ScanEventView::Entry(path),
        Err(LocateErrorView::ReadFailed { diagnostic }) => exists|i: int| #[trigger]
            decides_at(patterns, events, i) && events[i] == ScanEventView::Failure(diagnostic),
        Err(LocateErrorView::NotFound { root: searched }) => searched == root && undecided(
            patterns,
            events,
        ),
        Err(LocateErrorView::Pattern(_)) => false,
    }
}

/// Whether locating the engine at `input` on `platform`, with a walk that
/// produced `events`, ends in `outcome`.
pub open spec fn locate_gives(
    input: EngineLocationView,
    platform: Platform,
    events: Seq<ScanEventView>,
    outcome: Result<Seq<char>, LocateErrorView>,
) -> bool {
    match input {
        EngineLocationView::File(path) => outcome == Ok::<Seq<char>, LocateErrorView>(path),
        EngineLocationView::SearchRoot(root) => match outcome {
            Err(LocateErrorView::Pattern(error)) => fails_with(
                platform.spec_engine_patterns(),
                error,
            ),
            _ => compiles(platform.spec_engine_patterns()) && search_gives(
                platform.spec_engine_patterns(),
                root,
                events,
                outcome,
            ),
        },
    }
}

/// The walk to make for a search of `root`.
pub fn scan_plan(root: &str) -> (plan: ScanPlan)
    ensures
        plan.root@ == root@,
        plan.max_depth == MAX_SCAN_DEPTH,
        plan.follow_links == FOLLOW_LINKS,
{
    ScanPlan { root: root.to_owned(), max_depth: MAX_SCAN_DEPTH, follow_links: FOLLOW_LINKS }
}

/// Judges one event of the walk.
pub fn judge_event(matcher: &PathMatcher, event: &ScanEvent) -> (verdict: ScanVerdict)
    ensures
        verdict@ == judge(matcher.patterns(), event@),
{
    match event {
        ScanEvent::Failure(diagnostic) => ScanVerdict::Failed(diagnostic.clone()),
        ScanEvent::Entry(path) => {
            if matcher.is_match(path.as_str()) {
                ScanVerdict::Found(path.clone())
            } else {
                ScanVerdict::Continue
            }
        },
    }
}

/// Searches the events of a walk below `root` for the engine library.
pub fn first_match(matcher: &PathMatcher, root: &str, events: &Vec<ScanEvent>) -> (outcome: Result<
    String,
    LocateError,
>)
    ensures
        search_gives(matcher.patterns(), root@, event_views(events@), outcome_view(outcome)),
{
    let ghost patterns = matcher.patterns();
    let ghost views = event_views(events@);
    let mut i: usize = 0;
    while i < events.len()
        invariant
            i <= events.len(),
            patterns == matcher.patterns(),
            views == event_views(events@),
            forall|j: int| 0 <= j < i ==> judge(patterns, #[trigger] views[j]) == ScanVerdictView::Continue,
        decreases events.len() - i,
    {
        match judge_event(matcher, &events[i]) {
            ScanVerdict::Continue => {},
            ScanVerdict::Found(path) => {
                assert(decides_at(patterns, views, i as int));
                return Ok(path);
            },
            ScanVerdict::Failed(diagnostic) => {
                assert(decides_at(patterns, views, i as int));
                return Err(LocateError::ReadFailed { diagnostic });
            },
        }
        i = i + 1;
    }
    Err(LocateError::NotFound { root: root.to_owned() })
}

/// Resolves the engine location to the path of the library file. `events` is
/// what the walk below a search root produced; for a direct file it is not
/// looked at.
pub fn locate(input: &EngineLocation, platform: Platform, events: &Vec<ScanEvent>) -> (outcome: Result<
    String,
    LocateError,
>)
    ensures
        locate_gives(input@, platform, event_views(events@), outcome_view(outcome)),
{
    match input {
        EngineLocation::File(path) => Ok(path.clone()),
        EngineLocation::SearchRoot(root) => {
            let patterns = platform.engine_patterns();
            match PathMatcher::new(&patterns) {
                Err(error) => Err(LocateError::Pattern(error)),
                Ok(matcher) => first_match(&matcher, root.as_str(), events),
            }
        },
    }
}

/// A search has one outcome: whatever `search_gives` admits for the same
/// patterns, root and events is the same value.
pub proof fn search_outcome_is_unique(
    patterns: Seq<Seq<char>>,
    root: Seq<char>,
    events: Seq<ScanEventView>,
    first: Result<Seq<char>, LocateErrorView>,
    second: Result<Seq<char>, LocateErrorView>,
)
    requires
        search_gives(patterns, root, events, first),
        search_gives(patterns, root, events, second),
    ensures
        first == second,
{
    if exists|i: int| decides_at(patterns, events, i) {
        let i = choose|i: int| decides_at(patterns, events, i);
        assert forall|k: int| decides_at(patterns, events, k) implies k == i by {
            if k < i {
                assert(judge(patterns, events[k]) == ScanVerdictView::Continue);
            }
            if i < k {
                assert(judge(patterns, events[i]) == ScanVerdictView::Continue);
            }
        }
        assert(judge(patterns, events[i]) != ScanVerdictView::Continue);
    }
}

/// Locating has one outcome.
pub proof fn locate_outcome_is_unique(
    input: EngineLocationView,
    platform: Platform,
    events: Seq<ScanEventView>,
    first: Result<Seq<char>, LocateErrorView>,
    second: Result<Seq<char>, LocateErrorView>,
)
    requires
        locate_gives(input, platform, events, first),
        locate_gives(input, platform, events, second),
    ensures
        first == second,
{
    match input {
        EngineLocationView::File(_) => {},
        EngineLocationView::SearchRoot(root) => {
            let patterns = platform.spec_engine_patterns();
            match (first, second) {
                (Err(LocateErrorView::Pattern(a)), Err(LocateErrorView::Pattern(b))) => {
                    pattern_error_is_unique(patterns, a, b);
                },
                (Err(LocateErrorView::Pattern(a)), _) => {
                    pattern_error_is_unique(patterns, a, a);
                },
                (_, Err(LocateErrorView::Pattern(b))) => {
                    pattern_error_is_unique(patterns, b, b);
                },
                _ => {
                    search_outcome_is_unique(patterns, root, events, first, second);
                },
            }
        },
    }
}

/// Where the walk visits exactly one entry that matches the platform's
/// patterns, and no read failure comes before it, the search of a directory
/// returns that entry's path.
pub proof fn single_match_is_located(
    root: Seq<char>,
    platform: Platform,
    events: Seq<ScanEventView>,
    index: int,
    path: Seq<char>,
    outcome: Result<Seq<char>, LocateErrorView>,
)
    requires
        compiles(platform.spec_engine_patterns()),
        0 <= index < events.len(),
        events[index] == ScanEventView::Entry(path),
        set_matches(platform.spec_engine_patterns(), path),
        forall|j: int, other: Seq<char>|
            0 <= j < events.len() && j != index && #[trigger] events[j] == ScanEventView::Entry(
                other,
            ) ==> !#[trigger] set_matches(platform.spec_engine_patterns(), other),
        forall|j: int| 0 <= j < index ==> !(#[trigger] events[j] is Failure),
        locate_gives(EngineLocationView::SearchRoot(root), platform, events, outcome),
    ensures
        outcome == Ok::<Seq<char>, LocateErrorView>(path),
{
    let patterns = platform.spec_engine_patterns();
    assert forall|j: int| 0 <= j < index implies judge(patterns, #[trigger] events[j])
        == ScanVerdictView::Continue by {
        match events[j] {
            ScanEventView::Entry(other) => {
                assert(events[j] == ScanEventView::Entry(other));
                assert(!set_matches(patterns, other));
            },
            ScanEventView::Failure(_) => {},
        }
    }
    assert(decides_at(patterns, events, index));
    let expected = Ok::<Seq<char>, LocateErrorView>(path);
    assert(search_gives(patterns, root, events, expected));
    assert(locate_gives(EngineLocationView::SearchRoot(root), platform, events, expected));
    locate_outcome_is_unique(EngineLocationView::SearchRoot(root), platform, events, outcome, expected);
}

/// Where the walk visits no entry that matches the platform's patterns, the
/// search of a directory fails; and where the patterns compile and the walk
/// met no read failure either, the failure is `NotFound` for that directory.
pub proof fn no_match_is_not_found(
    root: Seq<char>,
    platform: Platform,
    events: Seq<ScanEventView>,
    outcome: Result<Seq<char>, LocateErrorView>,
)
    requires
        forall|j: int, other: Seq<char>|
            0 <= j < events.len() && #[trigger] events[j] == ScanEventView::Entry(other)
                ==> !#[trigger] set_matches(platform.spec_engine_patterns(), other),
        locate_gives(EngineLocationView::SearchRoot(root), platform, events, outcome),
    ensures
        outcome is Err,
        compiles(platform.spec_engine_patterns()) && (forall|j: int|
            0 <= j < events.len() ==> !(#[trigger] events[j] is Failure)) ==> outcome == Err::<
            Seq<char>,
            LocateErrorView,
        >(LocateErrorView::NotFound { root }),
{
    let patterns = platform.spec_engine_patterns();
    if let Ok(path) = outcome {
        let i = choose|i: int| #[trigger]
            decides_at(patterns, events, i) && events[i] == ScanEventView::Entry(path);
        assert(events[i] == ScanEventView::Entry(path));
        assert(!set_matches(patterns, path));
    }
    if compiles(patterns) && (forall|j: int|
        0 <= j < events.len() ==> !(#[trigger] events[j] is Failure)) {
        assert forall|j: int| 0 <= j < events.len() implies judge(patterns, #[trigger] events[j])
            == ScanVerdictView::Continue by {
            match events[j] {
                ScanEventView::Entry(other) => {
                    assert(events[j] == ScanEventView::Entry(other));
                    assert(!set_matches(patterns, other));
                },
                ScanEventView::Failure(_) => {},
            }
        }
        let expected = Err::<Seq<char>, LocateErrorView>(LocateErrorView::NotFound { root });
        assert(search_gives(patterns, root, events, expected));
        locate_outcome_is_unique(EngineLocationView::SearchRoot(root), platform, events, outcome, expected);
    }
}

/// A direct file is returned as it was given, whatever the events say.
pub proof fn file_is_returned_unchanged(
    path: Seq<char>,
    platform: Platform,
    events: Seq<ScanEventView>,
    outcome: Result<Seq<char>, LocateErrorView>,
)
    requires
        locate_gives(EngineLocationView::File(path), platform, events, outcome),
    ensures
        outcome == Ok::<Seq<char>, LocateErrorView>(path),
{
}

/// What the user is told where the platform's patterns do not compile.
pub open spec fn spec_pattern_message() -> Seq<char> {
    "Can't compile the patterns that name liblldb"@
}

/// What the user is told of an engine library that was not found: the
/// directory that was searched, or the reason the walk gave for its failure.
pub open spec fn spec_locate_message(error: LocateErrorView) -> Seq<char> {
    match error {
        LocateErrorView::NotFound { root } => "Can't find liblldb in \""@ + root + "\""@,
        LocateErrorView::ReadFailed { diagnostic } => diagnostic,
        LocateErrorView::Pattern(_) => spec_pattern_message(),
    }
}

impl LocateError {
    pub fn message(&self) -> (r: String)
        ensures
            r@ == spec_locate_message(self@),
    {
        match self {
            LocateError::NotFound { root } => {
                let mut r = String::from_str("Can't find liblldb in \"");
                r.append(root.as_str());
                r.append("\"");
                r
            },
            LocateError::ReadFailed { diagnostic } => diagnostic.clone(),
            LocateError::Pattern(_) => String::from_str(
                "Can't compile the patterns that name liblldb",
            ),
        }
    }
}

} // verus!
