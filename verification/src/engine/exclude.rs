//! Exclusion patterns: the glob sets of the `globset` crate, seen through the patterns they hold.
use vstd::prelude::*;
use std::path::PathBuf;
use crate::paths::path_bytes;

verus! {

/// `globset::GlobSetBuilder`, the collection of globs a set is built from.
#[verifier::external_type_specification]
#[verifier::external_body]
pub struct ExGlobSetBuilder(globset::GlobSetBuilder);

/// `globset::GlobSet`, a compiled set of globs.
#[verifier::external_type_specification]
#[verifier::external_body]
pub struct ExGlobSet(globset::GlobSet);

/// The source patterns of the globs a builder holds, in the order they were added.
pub uninterp spec fn builder_patterns(builder: globset::GlobSetBuilder) -> Seq<Seq<char>>;

/// The source patterns of the globs a compiled set holds, in the order they were added.
pub uninterp spec fn glob_set_patterns(set: globset::GlobSet) -> Seq<Seq<char>>;

/// What `globset::Glob::new` makes of a pattern: `None` when it parses,
/// else the text of the error it returns.
pub uninterp spec fn glob_parse_error(pattern: Seq<char>) -> Option<Seq<char>>;

/// What `globset::GlobSetBuilder::build` makes of the patterns it holds: `None` when
/// the set compiles, else the text of the error it returns.
pub uninterp spec fn glob_set_build_error(patterns: Seq<Seq<char>>) -> Option<Seq<char>>;

/// Whether the glob built from `pattern` matches `path` (`globset::GlobMatcher::is_match`
/// of `Glob::new(pattern)`).
pub uninterp spec fn glob_is_match(pattern: Seq<char>, path: Seq<u8>) -> bool;

/// Whether some pattern of the list matches `path`.
pub open spec fn glob_set_is_match(patterns: Seq<Seq<char>>, path: Seq<u8>) -> bool {
    exists|i: int| 0 <= i < patterns.len() && glob_is_match(#[trigger] patterns[i], path)
}

/// `globset::GlobSetBuilder::new` returns a builder that holds no glob.
pub assume_specification[ globset::GlobSetBuilder::new ]() -> (b: globset::GlobSetBuilder)
    ensures
        builder_patterns(b) == Seq::<Seq<char>>::empty(),
;

/// Parses `pattern` with `globset::Glob::new` and, when it parses, adds the glob to the
/// builder with `globset::GlobSetBuilder::add`.
///
/// Claims: the call succeeds exactly when the pattern parses (`glob_parse_error`), the
/// error text is the parse error's `Display` text, and on success the builder holds one
/// more glob whose source is `pattern` (`Glob::glob` returns the pattern it was built
/// from, and `add` pushes it at the end); on failure the builder is untouched.
#[verifier::external_body]
pub(crate) fn add_glob(builder: &mut globset::GlobSetBuilder, pattern: &str) -> (r: Result<(), String>)
    ensures
        r is Ok <==> glob_parse_error(pattern@) is None,
        r matches Err(m) ==> glob_parse_error(pattern@) == Some(m@),
        r is Ok ==> builder_patterns(*final(builder)) == builder_patterns(*old(builder)).push(
            pattern@,
        ),
        r is Err ==> builder_patterns(*final(builder)) == builder_patterns(*old(builder)),
{
    match globset::Glob::new(pattern) {
        Ok(glob) => {
            builder.add(glob);
            Ok(())
        },
        Err(e) => Err(e.to_string()),
    }
}

/// Compiles the builder's globs into a set (`globset::GlobSetBuilder::build`).
///
/// Claims: success exactly when `glob_set_build_error` is `None` for the builder's
/// patterns, the error text is the build error's `Display` text, the set holds the
/// builder's globs, and a builder without globs always builds (the empty set).
#[verifier::external_body]
pub(crate) fn build_glob_set(builder: &globset::GlobSetBuilder) -> (r: Result<globset::GlobSet, String>)
    ensures
        r is Ok <==> glob_set_build_error(builder_patterns(*builder)) is None,
        r matches Err(m) ==> glob_set_build_error(builder_patterns(*builder)) == Some(m@),
        r matches Ok(s) ==> glob_set_patterns(s) == builder_patterns(*builder),
        builder_patterns(*builder).len() == 0 ==> r is Ok,
{
    match builder.build() {
        Ok(set) => Ok(set),
        Err(e) => Err(e.to_string()),
    }
}

/// Matches a path against a set (`globset::GlobSet::is_match`).
///
/// Claims what globset documents: the set matches exactly when one of its globs matches
/// the path (so a set without globs matches nothing).
#[verifier::external_body]
pub(crate) fn glob_set_matches(set: &globset::GlobSet, path: &PathBuf) -> (b: bool)
    ensures
        b == (exists|i: int| 0 <= i < glob_set_patterns(*set).len() && glob_is_match(#[trigger] glob_set_patterns(*set)[i], path_bytes(*path))),
{
    set.is_match(path)
}

/// The first pattern's parse error, in list order, if any pattern fails to parse.
pub open spec fn first_parse_error(patterns: Seq<Seq<char>>) -> Option<Seq<char>>
    decreases patterns.len(),
{
    if patterns.len() == 0 {
        None
    } else {
        match first_parse_error(patterns.drop_last()) {
            Some(e) => Some(e),
            None => glob_parse_error(patterns.last()),
        }
    }
}

/// Why a list of exclusion patterns cannot be used, if it cannot: the first pattern
/// that fails to parse, else a failure to compile the whole set.
pub open spec fn exclusion_error(patterns: Seq<Seq<char>>) -> Option<Seq<char>> {
    match first_parse_error(patterns) {
        Some(e) => Some(e),
        None => glob_set_build_error(patterns),
    }
}

/// The views of a list of strings.
pub open spec fn string_views(v: Seq<String>) -> Seq<Seq<char>> {
    v.map_values(|s: String| s@)
}

/// Compiles a list of exclusion patterns into one set; the error is the text of the
/// first failure.
pub fn compile_exclusions(patterns: &[String]) -> (r: Result<globset::GlobSet, String>)
    ensures
        r is Ok <==> exclusion_error(string_views(patterns@)) is None,
        r matches Err(m) ==> exclusion_error(string_views(patterns@)) == Some(m@),
        r matches Ok(s) ==> glob_set_patterns(s) == string_views(patterns@),
        patterns@.len() == 0 ==> r is Ok,
{
    let mut builder = globset::GlobSetBuilder::new();
    let n = patterns.len();
    let mut i: usize = 0;
    while i < n
        invariant
            n == patterns@.len(),
            i <= n,
            builder_patterns(builder) == string_views(patterns@.take(i as int)),
            first_parse_error(string_views(patterns@.take(i as int))) is None,
        decreases n - i,
    {
        let ghost before = string_views(patterns@.take(i as int));
        let ghost after = string_views(patterns@.take(i + 1));
        assert(after.drop_last() =~= before);
        assert(after.last() == patterns@[i as int]@);
        match add_glob(&mut builder, patterns[i].as_str()) {
            Ok(()) => {},
            Err(m) => {
                proof {
                    lemma_first_parse_error_prefix(string_views(patterns@), (i + 1) as nat);
                    assert(string_views(patterns@).take(i + 1) =~= after);
                }
                return Err(m);
            },
        }
        i = i + 1;
        assert(builder_patterns(builder) =~= after);
    }
    assert(patterns@.take(n as int) =~= patterns@);
    build_glob_set(&builder)
}

/// A parse error found in a prefix of the list is the first parse error of the whole list.
proof fn lemma_first_parse_error_prefix(patterns: Seq<Seq<char>>, k: nat)
    requires
        k <= patterns.len(),
        first_parse_error(patterns.take(k as int)) is Some,
    ensures
        first_parse_error(patterns) == first_parse_error(patterns.take(k as int)),
    decreases patterns.len() - k,
{
    if k < patterns.len() {
        assert(patterns.take((k + 1) as int).drop_last() =~= patterns.take(k as int));
        lemma_first_parse_error_prefix(patterns, k + 1);
    } else {
        assert(patterns.take(k as int) =~= patterns);
    }
}

} // verus!
