//! The template gate, the section-heading fingerprints and the
//! anti-lookalike gates.
use vstd::prelude::*;
use crate::front_matter::{parse_front_matter, spec_parse_front_matter};
use crate::patterns::{regex_finds, regex_is_match, PIPE_STATUS_PATTERN};
use crate::positions::{
    find_bullet_status, find_status_section, spec_find_bullet_status, spec_find_status_section,
};
use crate::text::{
    after_last, after_last_of, before_first, before_first_of, chars_of, contains, contains_lit,
    eq_lit, has_prefix_lit, is_match_at, lines, lines_of, lower, matches_at, seqs_of, starts_with,
    to_lower, trim, trim_ws,
};

verus! {

/// `char::is_ascii_alphanumeric`.
pub open spec fn is_ascii_alnum(c: char) -> bool {
    ('0' <= c && c <= '9') || ('a' <= c && c <= 'z') || ('A' <= c && c <= 'Z')
}

/// A character that continues a word: an ASCII letter or digit, or a hyphen
/// (so "tbd" is no whole word in "TBD-free").
pub open spec fn is_word_char(c: char) -> bool {
    is_ascii_alnum(c) || c == '-'
}

/// `word` occurs in `hay` at `i` with no word character right before or
/// right after it.
pub open spec fn whole_word_at(hay: Seq<char>, word: Seq<char>, i: int) -> bool {
    &&& matches_at(hay, word, i)
    &&& (i == 0 || !is_word_char(hay[i - 1]))
    &&& (i + word.len() >= hay.len() || !is_word_char(hay[i + word.len()]))
}

/// A non-empty `word` occurs in `hay` as a whole word.
pub open spec fn spec_is_whole_word_match(hay: Seq<char>, word: Seq<char>) -> bool {
    word.len() > 0 && exists|i: int| #[trigger] whole_word_at(hay, word, i)
}

fn word_char(c: char) -> (r: bool)
    ensures
        r == is_word_char(c),
{
    ('0' <= c && c <= '9') || ('a' <= c && c <= 'z') || ('A' <= c && c <= 'Z') || c == '-'
}

/// Whether `word` occurs in `haystack_lc` as a whole word, not inside a
/// longer run of ASCII letters, digits and hyphens ("tbd" is found neither in
/// "tbdomain" nor in "tbd-free").
pub fn is_whole_word_match(haystack_lc: &[char], word: &[char]) -> (r: bool)
    ensures
        r == spec_is_whole_word_match(haystack_lc@, word@),
{
    if word.len() == 0 || word.len() > haystack_lc.len() {
        return false;
    }
    let mut i: usize = 0;
    while i <= haystack_lc.len() - word.len()
        invariant
            0 < word.len() <= haystack_lc.len(),
            i <= haystack_lc.len() - word.len() + 1,
            forall|k: int| 0 <= k < i ==> !whole_word_at(haystack_lc@, word@, k),
        decreases haystack_lc.len() - word.len() + 1 - i,
    {
        if is_match_at(haystack_lc, word, i) {
            let before_ok = i == 0 || !word_char(haystack_lc[i - 1]);
            let after = i + word.len();
            let after_ok = after >= haystack_lc.len() || !word_char(haystack_lc[after]);
            if before_ok && after_ok {
                assert(whole_word_at(haystack_lc@, word@, i as int));
                return true;
            }
        }
        i = i + 1;
    }
    false
}

/// The regex crate finds `PIPE_STATUS_PATTERN` (a template's
/// `{proposed | rejected | ...}` status options) in `content`.
pub open spec fn spec_has_pipe_separated_status_literal(content: Seq<char>) -> bool {
    regex_finds(PIPE_STATUS_PATTERN@, content)
}

pub fn has_pipe_separated_status_literal(content: &str) -> (r: bool)
    ensures
        r == spec_has_pipe_separated_status_literal(content@),
{
    regex_is_match(PIPE_STATUS_PATTERN, content)
}

/// The template gate, given whether the pipe-separated status literal was
/// found: a template path, a `0000-` placeholder file name, a placeholder
/// phrase or the whole word `tbd`, the status literal, or a `{status}`,
/// `<status>` or `[status]` placeholder.
pub open spec fn spec_template_from(path: Seq<char>, content: Seq<char>, pipe_literal: bool) -> bool {
    let path_lc = lower(path);
    let name = after_last(path_lc, '/');
    let content_lc = lower(content);
    ||| contains(path_lc, "template"@)
    ||| contains(path_lc, "kep-template"@)
    ||| contains(path_lc, "swift-template"@)
    ||| starts_with(name, "0000-"@)
    ||| name == "0000.md"@
    ||| contains(content_lc, "fill me in"@)
    ||| contains(content_lc, "fill this in"@)
    ||| contains(content_lc, "leave this empty"@)
    ||| contains(content_lc, "0000-my-feature"@)
    ||| spec_is_whole_word_match(content_lc, "tbd"@)
    ||| pipe_literal
    ||| contains(content, "{status}"@)
    ||| contains(content, "<status>"@)
    ||| contains(content, "[status]"@)
}

/// A `kep-template` or `swift-template` marker contains `template`.
proof fn lemma_suffixed_template_marker(s: Seq<char>, marker: Seq<char>)
    requires
        marker == "kep-template"@ || marker == "swift-template"@,
        contains(s, marker),
    ensures
        contains(s, "template"@),
{
    reveal_strlit("kep-template");
    reveal_strlit("swift-template");
    reveal_strlit("template");
    let i = choose|i: int| matches_at(s, marker, i);
    let off = marker.len() - 8;
    assert forall|k: int| 0 <= k < 8 implies #[trigger] s.subrange(i + off, i + marker.len())[k]
        == "template"@[k] by {
        assert(s.subrange(i, i + marker.len())[off + k] == marker[off + k]);
    }
    assert(s.subrange(i + off, i + off + 8) =~= "template"@);
    assert(matches_at(s, "template"@, i + off));
}

/// The template gate fires only on its listed signals. A file whose
/// lowercased path holds no `template`, whose file name is neither a
/// `0000-` placeholder nor `0000.md`, and whose content holds none of the
/// placeholder phrases, no whole word `tbd`, no `{status}`, `<status>` or
/// `[status]` placeholder, and (`pipe_literal` false) no pipe-separated
/// status literal, is no template: the word "template" in its prose, for
/// one, does not gate it.
pub proof fn law_template_gate_only_on_its_signals(path: Seq<char>, content: Seq<char>)
    requires
        !contains(lower(path), "template"@),
        !starts_with(after_last(lower(path), '/'), "0000-"@),
        after_last(lower(path), '/') != "0000.md"@,
        !contains(lower(content), "fill me in"@),
        !contains(lower(content), "fill this in"@),
        !contains(lower(content), "leave this empty"@),
        !contains(lower(content), "0000-my-feature"@),
        !spec_is_whole_word_match(lower(content), "tbd"@),
        !contains(content, "{status}"@),
        !contains(content, "<status>"@),
        !contains(content, "[status]"@),
    ensures
        !spec_template_from(path, content, false),
{
    if contains(lower(path), "kep-template"@) {
        lemma_suffixed_template_marker(lower(path), "kep-template"@);
    }
    if contains(lower(path), "swift-template"@) {
        lemma_suffixed_template_marker(lower(path), "swift-template"@);
    }
}

/// The Nygard fingerprint is at least two of the three section headings
/// `## context`, `## decision`, `## consequences` (ignoring case); the MADR
/// fingerprint is any of "context and problem statement", "considered
/// options", "decision outcome" and "chosen option:" (ignoring case).
pub proof fn law_section_fingerprints(content: Seq<char>)
    ensures
        spec_has_nygard_fingerprint(content) <==> {
            let lc = lower(content);
            ||| contains(lc, "## context"@) && contains(lc, "## decision"@)
            ||| contains(lc, "## context"@) && contains(lc, "## consequences"@)
            ||| contains(lc, "## decision"@) && contains(lc, "## consequences"@)
        },
        spec_has_madr_fingerprint(content) <==> {
            let lc = lower(content);
            ||| contains(lc, "context and problem statement"@)
            ||| contains(lc, "considered options"@)
            ||| contains(lc, "decision outcome"@)
            ||| contains(lc, "chosen option:"@)
        },
{
}

/// The file names that are never a decision record (compared after ASCII
/// lowercasing): README, CONTRIBUTING, CHANGELOG, HISTORY, RELEASES,
/// CODE_OF_CONDUCT, SECURITY, SUPPORT and INDEX, each with `.md`.
pub proof fn law_never_decision_names(name: Seq<char>)
    ensures
        is_never_decision_filename(name) <==> {
            ||| name == "readme.md"@
            ||| name == "contributing.md"@
            ||| name == "changelog.md"@
            ||| name == "history.md"@
            ||| name == "releases.md"@
            ||| name == "code_of_conduct.md"@
            ||| name == "security.md"@
            ||| name == "support.md"@
            ||| name == "index.md"@
        },
{
}

/// Whether `path` or `content` mark the file as a template or placeholder.
pub open spec fn spec_is_template_or_placeholder(path: Seq<char>, content: Seq<char>) -> bool {
    spec_template_from(path, content, spec_has_pipe_separated_status_literal(content))
}

/// The template gate, with the pipe-separated status literal search already
/// done (`pipe_literal`).
pub fn template_from(path: &[char], content: &[char], pipe_literal: bool) -> (r: bool)
    ensures
        r == spec_template_from(path@, content@, pipe_literal),
{
    let path_lc = to_lower(path);
    let name = after_last_of(&path_lc, '/');
    let content_lc = to_lower(content);
    let tbd = chars_of("tbd");
    contains_lit(&path_lc, "template") || contains_lit(&path_lc, "kep-template") || contains_lit(
        &path_lc,
        "swift-template",
    ) || has_prefix_lit(&name, "0000-") || eq_lit(&name, "0000.md") || contains_lit(
        &content_lc,
        "fill me in",
    ) || contains_lit(&content_lc, "fill this in") || contains_lit(
        &content_lc,
        "leave this empty",
    ) || contains_lit(&content_lc, "0000-my-feature") || is_whole_word_match(&content_lc, &tbd)
        || pipe_literal || contains_lit(content, "{status}") || contains_lit(content, "<status>")
        || contains_lit(content, "[status]")
}

/// Whether `path` or `content` mark the file as a template or placeholder
/// rather than a real record.
pub fn is_template_or_placeholder(path: &str, content: &str) -> (r: bool)
    ensures
        r == spec_is_template_or_placeholder(path@, content@),
{
    let pipe = has_pipe_separated_status_literal(content);
    let p = chars_of(path);
    let c = chars_of(content);
    template_from(&p, &c, pipe)
}

/// The Nygard family fingerprint: at least two of the `## context`,
/// `## decision` and `## consequences` headings (ignoring case).
pub open spec fn spec_has_nygard_fingerprint(content: Seq<char>) -> bool {
    let lc = lower(content);
    (if contains(lc, "## context"@) {
        1int
    } else {
        0int
    }) + (if contains(lc, "## decision"@) {
        1int
    } else {
        0int
    }) + (if contains(lc, "## consequences"@) {
        1int
    } else {
        0int
    }) >= 2
}

pub fn has_nygard_fingerprint(content: &[char]) -> (r: bool)
    ensures
        r == spec_has_nygard_fingerprint(content@),
{
    let lc = to_lower(content);
    let mut hits: u8 = 0;
    if contains_lit(&lc, "## context") {
        hits = hits + 1;
    }
    if contains_lit(&lc, "## decision") {
        hits = hits + 1;
    }
    if contains_lit(&lc, "## consequences") {
        hits = hits + 1;
    }
    hits >= 2
}

/// The MADR family fingerprint: "context and problem statement",
/// "considered options", "decision outcome" or "chosen option:" (ignoring case).
pub open spec fn spec_has_madr_fingerprint(content: Seq<char>) -> bool {
    let lc = lower(content);
    ||| contains(lc, "context and problem statement"@)
    ||| contains(lc, "considered options"@)
    ||| contains(lc, "decision outcome"@)
    ||| contains(lc, "chosen option:"@)
}

pub fn has_madr_fingerprint(content: &[char]) -> (r: bool)
    ensures
        r == spec_has_madr_fingerprint(content@),
{
    let lc = to_lower(content);
    contains_lit(&lc, "context and problem statement") || contains_lit(&lc, "considered options")
        || contains_lit(&lc, "decision outcome") || contains_lit(&lc, "chosen option:")
}

/// The file name (after the last `/`), ASCII-lowercased.
pub open spec fn spec_file_name_lc(path: Seq<char>) -> Seq<char> {
    lower(after_last(path, '/'))
}

pub fn file_name_lc(path: &[char]) -> (r: Vec<char>)
    ensures
        r@ == spec_file_name_lc(path@),
{
    let name = after_last_of(path, '/');
    to_lower(&name)
}

/// File names that are never decision records, whatever they hold.
pub open spec fn is_never_decision_filename(name: Seq<char>) -> bool {
    ||| name == "readme.md"@
    ||| name == "contributing.md"@
    ||| name == "changelog.md"@
    ||| name == "history.md"@
    ||| name == "releases.md"@
    ||| name == "code_of_conduct.md"@
    ||| name == "security.md"@
    ||| name == "support.md"@
    ||| name == "index.md"@
}

pub fn never_decision_filename(name: &[char]) -> (r: bool)
    ensures
        r == is_never_decision_filename(name@),
{
    eq_lit(name, "readme.md") || eq_lit(name, "contributing.md") || eq_lit(name, "changelog.md")
        || eq_lit(name, "history.md") || eq_lit(name, "releases.md") || eq_lit(
        name,
        "code_of_conduct.md",
    ) || eq_lit(name, "security.md") || eq_lit(name, "support.md") || eq_lit(name, "index.md")
}

/// A trimmed line that is a heading, a bullet or a markdown link.
pub open spec fn is_link_or_heading(l: Seq<char>) -> bool {
    ||| starts_with(l, "#"@)
    ||| starts_with(l, "-"@)
    ||| starts_with(l, "*"@)
    ||| (starts_with(l, "["@) && contains(l, "]("@))
}

/// The index/TOC lookalike: there is a non-blank line, every non-blank line
/// is a heading, bullet or link, and neither fingerprint is present.
pub open spec fn spec_looks_like_index_or_toc(content: Seq<char>) -> bool {
    let ls = lines(content);
    &&& exists|i: int| 0 <= i < ls.len() && trim(#[trigger] ls[i]).len() > 0
    &&& forall|i: int|
        0 <= i < ls.len() && trim(#[trigger] ls[i]).len() > 0 ==> is_link_or_heading(trim(ls[i]))
    &&& !spec_has_nygard_fingerprint(content)
    &&& !spec_has_madr_fingerprint(content)
}

pub fn looks_like_index_or_toc(content: &[char]) -> (r: bool)
    ensures
        r == spec_looks_like_index_or_toc(content@),
{
    let ls = lines_of(content);
    let ghost lsv = seqs_of(ls@);
    let mut any_non_blank = false;
    let mut all_links = true;
    let mut i: usize = 0;
    while i < ls.len()
        invariant
            lsv == seqs_of(ls@),
            i <= ls.len(),
            any_non_blank == exists|k: int| 0 <= k < i && trim(#[trigger] lsv[k]).len() > 0,
            all_links == forall|k: int|
                0 <= k < i && trim(#[trigger] lsv[k]).len() > 0 ==> is_link_or_heading(
                    trim(lsv[k]),
                ),
        decreases ls.len() - i,
    {
        assert(ls[i as int]@ == lsv[i as int]);
        let l = trim_ws(&ls[i]);
        if l.len() > 0 {
            any_non_blank = true;
            let link = has_prefix_lit(&l, "#") || has_prefix_lit(&l, "-") || has_prefix_lit(&l, "*")
                || (has_prefix_lit(&l, "[") && contains_lit(&l, "]("));
            all_links = all_links && link;
        }
        i = i + 1;
    }
    if !any_non_blank {
        return false;
    }
    all_links && !has_nygard_fingerprint(content) && !has_madr_fingerprint(content)
}

/// A numeric file-name prefix: the part before the first `-` or `_` is a
/// non-empty run of ASCII digits.
pub open spec fn is_numeric_prefixed(name: Seq<char>) -> bool {
    let p = before_first(name, seq!['-', '_']);
    p.len() > 0 && forall|k: int| 0 <= k < p.len() ==> '0' <= #[trigger] p[k] && p[k] <= '9'
}

/// A numbered tutorial: numeric-prefixed file name, no status in front
/// matter, bullet list or status section, and neither fingerprint.
pub open spec fn spec_looks_like_numbered_tutorial(path: Seq<char>, content: Seq<char>) -> bool {
    &&& is_numeric_prefixed(spec_file_name_lc(path))
    &&& spec_find_bullet_status(content) is None
    &&& spec_find_status_section(content) is None
    &&& spec_parse_front_matter(content).status is None
    &&& !spec_has_nygard_fingerprint(content)
    &&& !spec_has_madr_fingerprint(content)
}

pub fn looks_like_numbered_tutorial(path: &[char], content: &[char]) -> (r: bool)
    ensures
        r == spec_looks_like_numbered_tutorial(path@, content@),
{
    let name = file_name_lc(path);
    let seps: Vec<char> = vec!['-', '_'];
    assert(seps@ =~= seq!['-', '_']);
    let p = before_first_of(&name, &seps);
    let mut digits = true;
    let mut k: usize = 0;
    while k < p.len()
        invariant
            k <= p.len(),
            digits == forall|m: int| 0 <= m < k ==> '0' <= #[trigger] p@[m] && p@[m] <= '9',
        decreases p.len() - k,
    {
        digits = digits && '0' <= p[k] && p[k] <= '9';
        k = k + 1;
    }
    if !(p.len() > 0 && digits) {
        return false;
    }
    let has_any_status = find_bullet_status(content).is_some() || find_status_section(
        content,
    ).is_some() || parse_front_matter(content).status.is_some();
    !has_any_status && !has_nygard_fingerprint(content) && !has_madr_fingerprint(content)
}

/// Site-generator publishing front matter (a blog post, not a decision).
pub open spec fn spec_looks_like_publishing_front_matter(content: Seq<char>) -> bool {
    let fm = spec_parse_front_matter(content);
    fm.present && (fm.has_publishing_keys || fm.only_scope_or_publishing_keys)
}

pub fn looks_like_publishing_front_matter(content: &[char]) -> (r: bool)
    ensures
        r == spec_looks_like_publishing_front_matter(content@),
{
    let fm = parse_front_matter(content);
    fm.present && (fm.has_publishing_keys || fm.only_scope_or_publishing_keys)
}

/// GitHub issue/PR template front matter.
pub open spec fn spec_looks_like_issue_template(content: Seq<char>) -> bool {
    spec_parse_front_matter(content).has_issue_template_keys
}

pub fn looks_like_issue_template(content: &[char]) -> (r: bool)
    ensures
        r == spec_looks_like_issue_template(content@),
{
    parse_front_matter(content).has_issue_template_keys
}

} // verus!
