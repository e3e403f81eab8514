//! Matching paths against a set of glob patterns.
//!
//! The matching itself is done by the `globset` crate. Verus does not read that
//! crate: what this module says of it is stated in the items marked
//! `external_body` and in the functions without a body, and is taken on trust.
//! `PathMatcher` and everything built on it is proved from those statements.

use globset::{Glob, GlobSet, GlobSetBuilder};
use vstd::prelude::*;
use crate::platform::texts;

verus! {

#[verifier::external_type_specification]
#[verifier::external_body]
pub struct ExGlob(Glob);

#[verifier::external_type_specification]
#[verifier::external_body]
pub struct ExGlobSetBuilder(GlobSetBuilder);

#[verifier::external_type_specification]
#[verifier::external_body]
pub struct ExGlobSet(GlobSet);

#[verifier::external_type_specification]
#[verifier::external_body]
pub struct ExGlobError(globset::Error);

/// Whether `Glob::new` accepts `pattern`. globset decides this from the
/// pattern's text alone, under the default options of the target the crate is
/// built for (where `\` separates path components it is read as a separator,
/// elsewhere as an escape).
pub uninterp spec fn glob_is_valid(pattern: Seq<char>) -> bool;

/// The pattern text that a `Glob` made by `Glob::new` was parsed from: what its
/// method `glob` returns.
pub uninterp spec fn glob_text(glob: Glob) -> Seq<char>;

/// The texts of the globs that were added to a `GlobSetBuilder`, in the order
/// in which they were added.
pub uninterp spec fn builder_globs(builder: GlobSetBuilder) -> Seq<Seq<char>>;

/// The texts of the globs that a `GlobSet` was built from, in order.
pub uninterp spec fn set_globs(set: GlobSet) -> Seq<Seq<char>>;

/// Whether `GlobSetBuilder::build` succeeds for a builder that holds the globs
/// parsed from `patterns`. It fails only where the regular expression that
/// globset makes of them cannot be compiled.
pub uninterp spec fn set_is_buildable(patterns: Seq<Seq<char>>) -> bool;

/// What `GlobSet::is_match` answers for `path`, asked of a set built from the
/// globs parsed from `patterns`: whether any of them matches the path. globset
/// decides this from the pattern texts and the path alone; on a target where
/// `\` separates path components it reads a `\` in the path as `/`.
pub uninterp spec fn set_matches(patterns: Seq<Seq<char>>, path: Seq<char>) -> bool;

/// `Glob::new`: parses `pattern` under the default options. It succeeds exactly
/// on the patterns that globset accepts, and the glob it returns remembers the
/// text it was parsed from.
#[verifier::external_body]
fn parse_glob(pattern: &str) -> (r: Result<Glob, globset::Error>)
    ensures
        r is Ok <==> glob_is_valid(pattern@),
        r matches Ok(glob) ==> glob_text(glob) == pattern@,
{
    Glob::new(pattern)
}

/// `GlobSetBuilder::new`: a builder that holds no glob.
#[verifier::external_body]
fn new_builder() -> (r: GlobSetBuilder)
    ensures
        builder_globs(r) == Seq::<Seq<char>>::empty(),
{
    GlobSetBuilder::new()
}

/// `GlobSetBuilder::add`: appends `glob` to the builder's list.
#[verifier::external_body]
fn add_glob(builder: &mut GlobSetBuilder, glob: Glob)
    ensures
        builder_globs(*final(builder)) == builder_globs(*old(builder)).push(glob_text(glob)),
{
    builder.add(glob);
}

/// `GlobSetBuilder::build`: makes a set of the globs added so far, in their
/// order, and leaves the builder as it was.
#[verifier::external_body]
fn build_set(builder: &GlobSetBuilder) -> (r: Result<GlobSet, globset::Error>)
    ensures
        r is Ok <==> set_is_buildable(builder_globs(*builder)),
        r matches Ok(set) ==> set_globs(set) == builder_globs(*builder),
{
    builder.build()
}

/// `GlobSet::is_match`: whether any glob of the set matches `path`.
#[verifier::external_body]
fn set_is_match(set: &GlobSet, path: &str) -> (r: bool)
    ensures
        r == set_matches(set_globs(*set), path@),
{
    set.is_match(path)
}

/// Why a list of patterns could not be made into a matcher.
#[derive(Clone, Copy, Debug, PartialEq, Eq, Structural)]
pub enum PatternError {
    /// The pattern at `index` is not a glob; those before it are.
    Rejected { index: usize },
    /// Every pattern is a glob, but no set could be built of them.
    Unbuildable,
}

/// Whether every one of `patterns` is a glob.
pub open spec fn all_valid(patterns: Seq<Seq<char>>) -> bool {
    forall|i: int| 0 <= i < patterns.len() ==> glob_is_valid(#[trigger] patterns[i])
}

/// Whether `patterns` can be made into a matcher.
pub open spec fn compiles(patterns: Seq<Seq<char>>) -> bool {
    all_valid(patterns) && set_is_buildable(patterns)
}

/// Whether making a matcher of `patterns` fails, and with `error`.
pub open spec fn fails_with(patterns: Seq<Seq<char>>, error: PatternError) -> bool {
    match error {
        PatternError::Rejected { index } => {
            &&& index < patterns.len()
            &&& !glob_is_valid(patterns[index as int])
            &&& all_valid(patterns.take(index as int))
        },
        PatternError::Unbuildable => all_valid(patterns) && !set_is_buildable(patterns),
    }
}

/// A compiled set of glob patterns that paths can be held against.
pub struct PathMatcher {
    set: GlobSet,
}

impl PathMatcher {
    /// The texts of the patterns the matcher was compiled from, in order.
    pub closed spec fn patterns(&self) -> Seq<Seq<char>> {
        set_globs(self.set)
    }

    /// Whether `path` matches any of the matcher's patterns.
    pub open spec fn accepts(&self, path: Seq<char>) -> bool {
        set_matches(self.patterns(), path)
    }

    /// Compiles `patterns`. Fails at the first pattern that is not a glob, or,
    /// where all are, if no set can be built of them.
    pub fn new(patterns: &Vec<&'static str>) -> (r: Result<PathMatcher, PatternError>)
        ensures
            match r {
                Ok(matcher) => matcher.patterns() == texts(patterns@) && compiles(texts(patterns@)),
                Err(error) => fails_with(texts(patterns@), error),
            },
    {
        let mut builder = new_builder();
        let mut i: usize = 0;
        while i < patterns.len()
            invariant
                i <= patterns.len(),
                builder_globs(builder) == texts(patterns@).take(i as int),
                all_valid(texts(patterns@).take(i as int)),
            decreases patterns.len() - i,
        {
            match parse_glob(patterns[i]) {
                Ok(glob) => {
                    add_glob(&mut builder, glob);
                },
                Err(_) => {
                    return Err(PatternError::Rejected { index: i });
                },
            }
            proof {
                let all = texts(patterns@);
                assert(all.take(i + 1) =~= all.take(i as int).push(patterns[i as int]@));
            }
            i = i + 1;
        }
        proof {
            assert(texts(patterns@).take(i as int) =~= texts(patterns@));
        }
        match build_set(&builder) {
            Ok(set) => Ok(PathMatcher { set }),
            Err(_) => Err(PatternError::Unbuildable),
        }
    }

    /// Holds `path` against the patterns.
    pub fn is_match(&self, path: &str) -> (r: bool)
        ensures
            r == self.accepts(path@),
    {
        set_is_match(&self.set, path)
    }
}

/// A list of patterns either compiles or fails with exactly one error.
pub proof fn pattern_error_is_unique(patterns: Seq<Seq<char>>, first: PatternError, second: PatternError)
    requires
        fails_with(patterns, first),
        fails_with(patterns, second),
    ensures
        first == second,
        !compiles(patterns),
{
    match (first, second) {
        (PatternError::Rejected { index: a }, PatternError::Rejected { index: b }) => {
            if a < b {
                assert(patterns.take(b as int)[a as int] == patterns[a as int]);
            }
            if b < a {
                assert(patterns.take(a as int)[b as int] == patterns[b as int]);
            }
        },
        _ => {},
    }
}

} // verus!
