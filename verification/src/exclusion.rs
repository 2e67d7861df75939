//! The exclusion filter: a glob pattern, compiled once, that says which
//! entries are left out of every report.

use crate::error::ReportError;
use vstd::prelude::*;
use vstd::string::StringExecFns;

verus! {

/// A compiled glob pattern of the `glob` crate. Nothing inside it is visible
/// here; `pattern_source` says what it was compiled from.
#[verifier::external_type_specification]
#[verifier::external_body]
pub struct ExPattern(glob::Pattern);

/// The error with which the `glob` crate refuses a pattern.
#[verifier::external_type_specification]
#[verifier::external_body]
pub struct ExPatternError(glob::PatternError);

/// The text that a compiled pattern was compiled from, which
/// `glob::Pattern::as_str` hands out.
pub uninterp spec fn pattern_source(pattern: glob::Pattern) -> Seq<char>;

/// Whether `glob::Pattern::new` accepts a pattern, on the platform that the
/// crate is built for (what counts as a path separator next to `**` differs
/// between platforms).
pub uninterp spec fn glob_compiles(pattern: Seq<char>) -> bool;

/// Whether a pattern that `glob::Pattern::new` accepts matches a name under
/// `glob::Pattern::matches`, on the platform that the crate is built for.
pub uninterp spec fn glob_matches(pattern: Seq<char>, name: Seq<char>) -> bool;

/// A pattern without any of the characters `?`, `*` and `[`, which are the
/// ones that start a wildcard or a character class.
pub open spec fn is_literal(pattern: Seq<char>) -> bool {
    forall|i: int|
        0 <= i < pattern.len() ==> #[trigger] pattern[i] != '?' && pattern[i] != '*' && pattern[i]
            != '['
}

/// A literal pattern that holds neither of the two characters that some
/// platform takes for a path separator.
pub open spec fn is_plain(pattern: Seq<char>) -> bool {
    is_literal(pattern) && forall|i: int|
        0 <= i < pattern.len() ==> #[trigger] pattern[i] != '/' && pattern[i] != '\\'
}

/// Whether a pattern is a well-formed glob pattern. A literal one always is.
pub open spec fn is_valid_pattern(pattern: Seq<char>) -> bool {
    is_literal(pattern) || glob_compiles(pattern)
}

/// Whether a well-formed pattern matches a name as a glob pattern. The empty
/// pattern matches the empty name only, a literal pattern matches itself, and
/// a plain one matches nothing else.
pub open spec fn pattern_matches(pattern: Seq<char>, name: Seq<char>) -> bool {
    if pattern.len() == 0 {
        name.len() == 0
    } else if is_literal(pattern) && name == pattern {
        true
    } else if is_plain(pattern) {
        false
    } else {
        glob_matches(pattern, name)
    }
}

/// Whether an exclusion pattern leaves an entry of the given name out. The
/// empty pattern leaves nothing out.
pub open spec fn excludes_name(pattern: Seq<char>, name: Seq<char>) -> bool {
    pattern.len() > 0 && pattern_matches(pattern, name)
}

/// `glob::Pattern::new` compiles a pattern. It succeeds exactly on the
/// well-formed patterns, among them every pattern without `?`, `*` and `[`,
/// and the compiled pattern keeps the text it was made from.
pub assume_specification[ glob::Pattern::new ](
    pattern: &str,
) -> (compiled: Result<glob::Pattern, glob::PatternError>)
    ensures
        compiled is Ok <==> is_literal(pattern@) || glob_compiles(pattern@),
        compiled matches Ok(p) ==> pattern_source(p) == pattern@,
;

/// `glob::Pattern::as_str` hands out the text that the pattern was compiled
/// from.
pub assume_specification<'a>[ glob::Pattern::as_str ](
    pattern: &'a glob::Pattern,
) -> (source: &'a str)
    ensures
        source@ == pattern_source(*pattern),
;

/// `glob::Pattern::matches` says whether the pattern matches the whole of a
/// name, with upper and lower case told apart. On the platform that the
/// crate is built for, the result depends on the pattern's text and the name
/// alone (on Windows the two path separators count as one character, elsewhere
/// they differ). A pattern with no token matches the empty name only. One
/// without wildcards is matched character by character, so it matches its own
/// text, and where it holds neither `/` nor `\` it matches no other name.
pub assume_specification[ glob::Pattern::matches ](
    pattern: &glob::Pattern,
    str: &str,
) -> (matched: bool)
    ensures
        matched == (if pattern_source(*pattern).len() == 0 {
            str@.len() == 0
        } else if is_literal(pattern_source(*pattern)) && str@ == pattern_source(*pattern) {
            true
        } else if is_plain(pattern_source(*pattern)) {
            false
        } else {
            glob_matches(pattern_source(*pattern), str@)
        }),
;

/// The predicate that says which entries are left out.
pub struct ExclusionFilter {
    pattern: glob::Pattern,
}

impl ExclusionFilter {
    /// The text of the pattern.
    pub closed spec fn source(&self) -> Seq<char> {
        pattern_source(self.pattern)
    }

    /// Whether the filter leaves an entry of this name out.
    pub open spec fn excludes(&self, name: Seq<char>) -> bool {
        excludes_name(self.source(), name)
    }

    /// Compiles the exclusion pattern. A pattern that is not well formed is a
    /// configuration error, which names the pattern.
    pub fn new(pattern: &str) -> (made: Result<ExclusionFilter, ReportError>)
        ensures
            made is Ok <==> is_valid_pattern(pattern@),
            made matches Ok(filter) ==> filter.source() == pattern@,
            made matches Err(error) ==> error@ == (crate::error::ReportErrorView::ConfigurationError {
                pattern: pattern@,
            }),
    {
        match glob::Pattern::new(pattern) {
            Ok(compiled) => Ok(ExclusionFilter { pattern: compiled }),
            Err(_) => Err(ReportError::ConfigurationError { pattern: String::from_str(pattern) }),
        }
    }

    /// Whether an entry of this name is left out of every report.
    pub fn matches(&self, name: &str) -> (excluded: bool)
        ensures
            excluded == self.excludes(name@),
    {
        if self.pattern.as_str().is_empty() {
            false
        } else {
            self.pattern.matches(name)
        }
    }
}

/// The empty pattern leaves nothing out. A pattern without wildcards is well
/// formed and leaves out the entry whose name is the pattern itself; where it
/// holds no path separator either, it leaves out no other entry.
pub proof fn lemma_exclusion_of_literals(pattern: Seq<char>, name: Seq<char>)
    ensures
        pattern.len() == 0 ==> !excludes_name(pattern, name),
        is_literal(pattern) ==> is_valid_pattern(pattern),
        is_literal(pattern) && pattern.len() > 0 ==> excludes_name(pattern, pattern),
        is_plain(pattern) && pattern.len() > 0 ==> (excludes_name(pattern, name) <==> name
            == pattern),
{
}

} // verus!
