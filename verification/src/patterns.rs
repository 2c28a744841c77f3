//! Regular-expression matching, done by the `regex` crate.
//!
//! The classifier uses four fixed patterns. What a pattern matches is the
//! regex crate's business (Unicode-aware `\d`, `\w`, `\s`, case folding), so
//! the results are named here rather than restated: `regex_finds` and
//! `regex_group_one` are functions of the pattern text and the haystack text
//! alone, and the contracts of the classifier are stated over them.
use vstd::prelude::*;
use regex::Regex;

verus! {

/// `{draft | proposed | ...}` / `[draft | ...]`: the status options of a
/// template, written out as text.
pub const PIPE_STATUS_PATTERN: &'static str = r"(?i)[\{\[]\s*(?:draft|proposed)\s*\|\s*\w[\w -]*\s*\|\s*\w[\w -]*";

/// A bracketed status at the end of an H1, e.g. `# 857. Title [Proposed]`;
/// group 1 is the status text.
pub const H1_SUFFIX_PATTERN: &'static str = r"\[\s*([A-Za-z][A-Za-z /-]*)\s*\]\s*$";

/// A 4 to 8 digit record number at the start of a file stem, e.g. `0009-...`;
/// group 1 is the number.
pub const DOC_ID_FILENAME_PATTERN: &'static str = r"^(\d{4,8})-";

/// A record number at the start of a title, e.g. `857. Title` or
/// `ADR-012: Title`; group 1 is the number.
pub const DOC_ID_TITLE_PATTERN: &'static str = r"(?i)^(?:adr-?)?(\d+)[.:]";

/// Whether the regex crate, given `pattern`, finds a match anywhere in
/// `haystack` (false when the pattern does not compile).
pub uninterp spec fn regex_finds(pattern: Seq<char>, haystack: Seq<char>) -> bool;

/// What the regex crate reports for capture group 1 of the first match of
/// `pattern` in `haystack`: `None` when nothing matches (or the pattern does
/// not compile), `Some(None)` when the group takes no part in the match, and
/// `Some(Some(text))` with the text the group matched.
pub uninterp spec fn regex_group_one(pattern: Seq<char>, haystack: Seq<char>) -> Option<
    Option<Seq<char>>,
>;

/// Calls `regex::Regex::new` on `pattern` and then `Regex::is_match` on
/// `haystack`. Claimed: the result is `regex_finds` of the two texts, and a
/// pattern that does not compile gives `false`. Nothing is claimed about which
/// texts a pattern matches.
#[verifier::external_body]
pub fn regex_is_match(pattern: &str, haystack: &str) -> (r: bool)
    ensures
        r == regex_finds(pattern@, haystack@),
{
    match Regex::new(pattern) {
        Ok(re) => re.is_match(haystack),
        Err(_) => false,
    }
}

/// Calls `regex::Regex::new` on `pattern`, then `Regex::captures` on
/// `haystack`, `Captures::get(1)` and `Match::as_str`. Claimed: the result is
/// `regex_group_one` of the two texts. Nothing is claimed about which texts a
/// pattern matches or what the group holds.
#[verifier::external_body]
pub fn regex_capture_one(pattern: &str, haystack: &str) -> (r: Option<Option<String>>)
    ensures
        match r {
            None => regex_group_one(pattern@, haystack@) is None,
            Some(None) => regex_group_one(pattern@, haystack@) == Some(None::<Seq<char>>),
            Some(Some(g)) => regex_group_one(pattern@, haystack@) == Some(Some(g@)),
        },
{
    match Regex::new(pattern) {
        Ok(re) => match re.captures(haystack) {
            Some(caps) => match caps.get(1) {
                Some(m) => Some(Some(m.as_str().to_string())),
                None => Some(None),
            },
            None => None,
        },
        Err(_) => None,
    }
}

} // verus!
