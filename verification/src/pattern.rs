//! Regular-expression matching through the `regex` crate.

use vstd::prelude::*;

verus! {

/// `regex::Regex`, carried as an opaque value.
#[verifier::external_type_specification]
#[verifier::external_body]
pub struct ExRegex(regex::Regex);

/// Whether `regex::Regex::new` accepts `pattern`.
pub uninterp spec fn regex_compiles(pattern: Seq<char>) -> bool;

/// The capture groups (group 0 the whole match; a group that took no part
/// is absent) of the leftmost-first match of `pattern` in `haystack`, as
/// `regex::Regex::captures` finds it, or nothing when there is no match.
pub uninterp spec fn regex_captures(pattern: Seq<char>, haystack: Seq<char>) -> Option<
    Seq<Option<Seq<char>>>,
>;

/// The message of the error `regex::Regex::new` gives for `pattern`
/// (its `Display` text) when the pattern does not compile.
pub uninterp spec fn regex_error(pattern: Seq<char>) -> Seq<char>;

/// A compiled regular expression together with the pattern it was
/// compiled from.
pub struct Pattern {
    source: String,
    compiled: regex::Regex,
}

impl Pattern {
    /// The pattern this was compiled from.
    pub closed spec fn source(&self) -> Seq<char> {
        self.source@
    }
}

/// Compiles `pattern` (`regex::Regex::new`); the error is the library's
/// message.
///
/// Trusted: the contract says that the call succeeds exactly when
/// `regex_compiles` holds of the pattern, that the value it gives carries
/// that pattern, and that the error's text is `regex_error` of the pattern.
#[verifier::external_body]
pub fn compile(pattern: &str) -> (r: Result<Pattern, String>)
    ensures
        r is Ok <==> regex_compiles(pattern@),
        r matches Ok(p) ==> p.source() == pattern@,
        r matches Err(m) ==> m@ == regex_error(pattern@),
{
    match regex::Regex::new(pattern) {
        Ok(compiled) => Ok(Pattern { source: pattern.to_string(), compiled }),
        Err(e) => Err(e.to_string()),
    }
}

/// The view of a match's groups.
pub open spec fn group_views(g: Seq<Option<String>>) -> Seq<Option<Seq<char>>> {
    g.map_values(
        |x: Option<String>|
            match x {
                Some(s) => Some(s@),
                None => None,
            },
    )
}

/// The view of captured groups.
pub open spec fn groups_view(r: Option<Vec<Option<String>>>) -> Option<Seq<Option<Seq<char>>>> {
    match r {
        Some(v) => Some(group_views(v@)),
        None => None,
    }
}

/// The capture groups of the first match of `p` in `haystack`
/// (`regex::Regex::captures`, each group's text copied).
///
/// Trusted: the contract says that the groups are `regex_captures` of the
/// pattern `p` was compiled from and the haystack.
#[verifier::external_body]
pub fn captures(p: &Pattern, haystack: &str) -> (r: Option<Vec<Option<String>>>)
    ensures
        groups_view(r) == regex_captures(p.source(), haystack@),
{
    p.compiled.captures(haystack).map(
        |c| c.iter().map(|g| g.map(|m| m.as_str().to_string())).collect(),
    )
}

/// The text of group `i`, when the match has such a group and it took part.
pub fn group(groups: &Vec<Option<String>>, i: usize) -> (r: Option<&String>)
    ensures
        match r {
            Some(s) => i < groups@.len() && groups@[i as int] == Some(*s),
            None => i >= groups@.len() || groups@[i as int] is None,
        },
{
    if i < groups.len() {
        match &groups[i] {
            Some(s) => Some(s),
            None => None,
        }
    } else {
        None
    }
}

} // verus!
