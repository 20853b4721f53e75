//! Regular-expression matching, done by the `regex` crate.
//!
//! What a pattern matches is the crate's business: its syntax, its Unicode
//! classes and its leftmost-first matching are not restated here. The two
//! functions below give the crate's answers a name, so that the code built on
//! them can say exactly what it does with each answer.

use vstd::prelude::*;

verus! {

/// The capture groups of the leftmost match of `pattern` in `haystack`, as
/// `regex::Regex::captures` reports them: one entry per group of the
/// pattern, group 0 being the whole match, each the matched text or `None`
/// for a group that took no part in the match. `None` when nothing matches,
/// or when `regex::Regex::new` does not accept the pattern.
pub uninterp spec fn captures_of(pattern: Seq<char>, haystack: Seq<char>) -> Option<
    Seq<Option<Seq<char>>>,
>;

/// `haystack` with every non-overlapping match of `pattern` replaced by
/// `replacement`, as `regex::Regex::replace_all` computes it. `None` when
/// `regex::Regex::new` does not accept the pattern.
pub uninterp spec fn replaced_all(
    pattern: Seq<char>,
    haystack: Seq<char>,
    replacement: Seq<char>,
) -> Option<Seq<char>>;

/// The text of group `i`, where the match has such a group and it took part.
pub open spec fn group(groups: Seq<Option<Seq<char>>>, i: int) -> Option<Seq<char>> {
    if 0 <= i < groups.len() {
        groups[i]
    } else {
        None
    }
}

/// The groups of a match as texts.
pub open spec fn groups_view(groups: Seq<Option<Vec<char>>>) -> Seq<Option<Seq<char>>> {
    groups.map_values(
        |g: Option<Vec<char>>|
            match g {
                Some(v) => Some(v@),
                None => None,
            },
    )
}

/// The outcome of a search as texts.
pub open spec fn captures_view(caps: Option<Vec<Option<Vec<char>>>>) -> Option<
    Seq<Option<Seq<char>>>,
> {
    match caps {
        Some(groups) => Some(groups_view(groups@)),
        None => None,
    }
}

/// Compiles `pattern` with `regex::Regex::new` and searches `haystack` with
/// `Regex::captures`, handing out each group's text as characters. The
/// contract only names the result.
#[verifier::external_body]
pub(crate) fn captures(pattern: &str, haystack: &str) -> (r: Option<Vec<Option<Vec<char>>>>)
    ensures
        captures_view(r) == captures_of(pattern@, haystack@),
{
    match regex::Regex::new(pattern) {
        Ok(re) => re.captures(haystack).map(
            |c| c.iter().map(|m| m.map(|m| m.as_str().chars().collect())).collect(),
        ),
        Err(_) => None,
    }
}

/// Compiles `pattern` with `regex::Regex::new` and rewrites `haystack` with
/// `Regex::replace_all`. The contract only names the result.
#[verifier::external_body]
pub(crate) fn replace_all(pattern: &str, haystack: &str, replacement: &str) -> (r: Option<String>)
    ensures
        crate::state::opt_text(r) == replaced_all(pattern@, haystack@, replacement@),
{
    match regex::Regex::new(pattern) {
        Ok(re) => Some(re.replace_all(haystack, replacement).into_owned()),
        Err(_) => None,
    }
}

/// The characters of group `i` of a match.
pub fn group_chars(groups: &Vec<Option<Vec<char>>>, i: usize) -> (r: Option<&Vec<char>>)
    ensures
        match r {
            Some(v) => group(groups_view(groups@), i as int) == Some(v@),
            None => group(groups_view(groups@), i as int) is None,
        },
{
    if i < groups.len() {
        let g = &groups[i];
        match g {
            Some(v) => Some(v),
            None => None,
        }
    } else {
        None
    }
}

} // verus!
