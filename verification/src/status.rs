//! The closed status vocabulary and the mapping of raw status text onto it.
use vstd::prelude::*;
use crate::text::{
    char_in_set, contains, copy_range, eq_lit, find, find_from, find_lit, is_ws,
    lemma_find_from_matches, matches_at, trim_end_set, trim_start_set, has_prefix_lit, lower, starts_with, to_lower,
    trim, trim_in, trim_set, trim_ws,
};

verus! {

/// Status words that mean the decision is still a proposal.
pub open spec fn is_proposed_word(w: Seq<char>) -> bool {
    ||| w == "proposed"@
    ||| w == "draft"@
    ||| w == "predraft"@
    ||| w == "prediscussion"@
    ||| w == "ideation"@
    ||| w == "discussion"@
    ||| w == "in review"@
    ||| w == "open for comments"@
    ||| w == "awaiting review"@
    ||| w == "scheduled for review"@
    ||| w == "active review"@
    ||| w == "submitted"@
    ||| w == "candidate"@
    ||| w == "exploring"@
    ||| w == "provisional"@
    ||| w == "proposed to target"@
    ||| w == "proposed to drop"@
    ||| w == "returned for revision"@
}

/// Status words that mean the decision is in force.
pub open spec fn is_accepted_word(w: Seq<char>) -> bool {
    ||| w == "accepted"@
    ||| w == "approved"@
    ||| w == "agreed"@
    ||| w == "decided"@
    ||| w == "active"@
    ||| w == "final"@
    ||| w == "accepted with revisions"@
    ||| w == "accepted with reservations"@
    ||| w == "previewing"@
    ||| w == "implemented"@
    ||| w == "done"@
    ||| w == "complete"@
    ||| w == "targeted"@
    ||| w == "integrated"@
    ||| w == "closed / delivered"@
    ||| w == "published"@
    ||| w == "committed"@
    ||| w == "publish"@
    ||| w == "implementable"@
    ||| w == "ready-for-release"@
    ||| w == "released"@
    ||| w == "recommended"@
}

/// Status words that mean the decision was turned down.
pub open spec fn is_rejected_word(w: Seq<char>) -> bool {
    ||| w == "rejected"@
    ||| w == "withdrawn"@
    ||| w == "abandoned"@
    ||| w == "closed"@
    ||| w == "closed / rejected"@
    ||| w == "closed / withdrawn"@
}

/// Status words that mean the decision was retired.
pub open spec fn is_deprecated_word(w: Seq<char>) -> bool {
    ||| w == "deprecated"@
    ||| w == "obsolete"@
    ||| w == "historic"@
    ||| w == "discontinued"@
}

fn proposed_word(w: &[char]) -> (r: bool)
    ensures
        r == is_proposed_word(w@),
{
    eq_lit(w, "proposed")
        || eq_lit(w, "draft")
        || eq_lit(w, "predraft")
        || eq_lit(w, "prediscussion")
        || eq_lit(w, "ideation")
        || eq_lit(w, "discussion")
        || eq_lit(w, "in review")
        || eq_lit(w, "open for comments")
        || eq_lit(w, "awaiting review")
        || eq_lit(w, "scheduled for review")
        || eq_lit(w, "active review")
        || eq_lit(w, "submitted")
        || eq_lit(w, "candidate")
        || eq_lit(w, "exploring")
        || eq_lit(w, "provisional")
        || eq_lit(w, "proposed to target")
        || eq_lit(w, "proposed to drop")
        || eq_lit(w, "returned for revision")
}

fn accepted_word(w: &[char]) -> (r: bool)
    ensures
        r == is_accepted_word(w@),
{
    eq_lit(w, "accepted")
        || eq_lit(w, "approved")
        || eq_lit(w, "agreed")
        || eq_lit(w, "decided")
        || eq_lit(w, "active")
        || eq_lit(w, "final")
        || eq_lit(w, "accepted with revisions")
        || eq_lit(w, "accepted with reservations")
        || eq_lit(w, "previewing")
        || eq_lit(w, "implemented")
        || eq_lit(w, "done")
        || eq_lit(w, "complete")
        || eq_lit(w, "targeted")
        || eq_lit(w, "integrated")
        || eq_lit(w, "closed / delivered")
        || eq_lit(w, "published")
        || eq_lit(w, "committed")
        || eq_lit(w, "publish")
        || eq_lit(w, "implementable")
        || eq_lit(w, "ready-for-release")
        || eq_lit(w, "released")
        || eq_lit(w, "recommended")
}

fn rejected_word(w: &[char]) -> (r: bool)
    ensures
        r == is_rejected_word(w@),
{
    eq_lit(w, "rejected")
        || eq_lit(w, "withdrawn")
        || eq_lit(w, "abandoned")
        || eq_lit(w, "closed")
        || eq_lit(w, "closed / rejected")
        || eq_lit(w, "closed / withdrawn")
}

fn deprecated_word(w: &[char]) -> (r: bool)
    ensures
        r == is_deprecated_word(w@),
{
    eq_lit(w, "deprecated")
        || eq_lit(w, "obsolete")
        || eq_lit(w, "historic")
        || eq_lit(w, "discontinued")
}

/// `s` cut just before the first `marker` and trimmed, when `s` ends with one
/// of `closers`; `s` itself otherwise.
pub open spec fn cut_annotation(s: Seq<char>, marker: Seq<char>, closers: Seq<char>) -> Seq<char> {
    match find(s, marker) {
        Some(idx) => if s.len() > 0 && closers.contains(s.last()) {
            trim(s.subrange(0, idx))
        } else {
            s
        },
        None => s,
    }
}

/// The raw status, trimmed, with a trailing `" (...)"` annotation removed
/// (`Implemented (Swift 5.0)`), and then a trailing markdown link or
/// reference after the lead words (`superseded by [xxx](yyyymmdd-xxx.md)`,
/// `Accepted [ADR-5]`).
pub open spec fn spec_strip_trailing_annotation(raw: Seq<char>) -> Seq<char> {
    cut_annotation(cut_annotation(trim(raw), " ("@, seq![')']), " ["@, seq![']', ')'])
}

/// The token a raw status is matched on: annotation stripped, trimmed,
/// ASCII-lowercased, and `*`, backquote and whitespace removed from both ends.
pub open spec fn status_token(raw: Seq<char>) -> Seq<char> {
    trim_set(lower(trim(spec_strip_trailing_annotation(raw))), seq!['*', '`'], true)
}

/// The canonical status a raw status maps to, if any: one of `proposed`,
/// `accepted`, `rejected`, `deprecated`, `superseded`, `amended`.
pub open spec fn spec_canonicalize_status(raw: Seq<char>) -> Option<Seq<char>> {
    canonical_of_token(status_token(raw))
}

/// The canonical status a status token maps to, if any.
pub open spec fn canonical_of_token(lc: Seq<char>) -> Option<Seq<char>> {
    if starts_with(lc, "superseded"@) || starts_with(lc, "superceded"@) || starts_with(
        lc,
        "replaced"@,
    ) {
        Some("superseded"@)
    } else if starts_with(lc, "amended"@) {
        Some("amended"@)
    } else if is_proposed_word(lc) {
        Some("proposed"@)
    } else if is_accepted_word(lc) {
        Some("accepted"@)
    } else if is_rejected_word(lc) {
        Some("rejected"@)
    } else if is_deprecated_word(lc) {
        Some("deprecated"@)
    } else {
        None
    }
}

fn cut_annotation_of(s: Vec<char>, marker: &str, closers: &[char]) -> (r: Vec<char>)
    ensures
        r@ == cut_annotation(s@, marker@, closers@),
{
    match find_lit(&s, marker) {
        Some(idx) => if s.len() > 0 && char_in_set(s[s.len() - 1], closers, false) {
            let head = copy_range(&s, 0, idx);
            trim_ws(&head)
        } else {
            s
        },
        None => s,
    }
}

/// Drop a trailing `" (...)"` annotation (e.g. `Implemented (Swift 5.0)`)
/// and then a trailing markdown link or reference (e.g.
/// `superseded by [xxx](yyyymmdd-xxx.md)`).
pub fn strip_trailing_annotation(raw: &[char]) -> (r: Vec<char>)
    ensures
        r@ == spec_strip_trailing_annotation(raw@),
{
    let s = trim_ws(raw);
    let paren: Vec<char> = vec![')'];
    assert(paren@ =~= seq![')']);
    let brackets: Vec<char> = vec![']', ')'];
    assert(brackets@ =~= seq![']', ')']);
    let s1 = cut_annotation_of(s, " (", &paren);
    cut_annotation_of(s1, " [", &brackets)
}

/// The token a raw status is matched on (see `status_token`).
pub fn status_token_of(raw: &[char]) -> (r: Vec<char>)
    ensures
        r@ == status_token(raw@),
{
    let cleaned = strip_trailing_annotation(raw);
    let t = trim_ws(&cleaned);
    let lc_owned = to_lower(&t);
    let decoration: Vec<char> = vec!['*', '`'];
    assert(decoration@ =~= seq!['*', '`']);
    trim_in(&lc_owned, &decoration, true)
}

/// A raw status that states `accepted` itself (ignoring case, surrounding
/// whitespace and markup, and a trailing annotation), as opposed to a
/// near-synonym such as "implemented" or "final" that only canonicalizes to it.
pub open spec fn is_literal_accepted(raw: Seq<char>) -> bool {
    status_token(raw) == "accepted"@
}

pub fn literal_accepted(raw: &[char]) -> (r: bool)
    ensures
        r == is_literal_accepted(raw@),
{
    let token = status_token_of(raw);
    eq_lit(&token, "accepted")
}

/// Map a raw status onto the closed vocabulary, or `None` when it names no
/// member of it (case-insensitive; trailing annotations ignored; both
/// spellings "superseded" and "superceded" accepted).
pub fn canonicalize_status(raw: &[char]) -> (r: Option<&'static str>)
    ensures
        match r {
            Some(s) => spec_canonicalize_status(raw@) == Some(s@),
            None => spec_canonicalize_status(raw@) is None,
        },
{
    let lc = status_token_of(raw);
    if has_prefix_lit(&lc, "superseded") || has_prefix_lit(&lc, "superceded") || has_prefix_lit(
        &lc,
        "replaced",
    ) {
        Some("superseded")
    } else if has_prefix_lit(&lc, "amended") {
        Some("amended")
    } else if proposed_word(&lc) {
        Some("proposed")
    } else if accepted_word(&lc) {
        Some("accepted")
    } else if rejected_word(&lc) {
        Some("rejected")
    } else if deprecated_word(&lc) {
        Some("deprecated")
    } else {
        None
    }
}

/// The first occurrence of `p` at or after `i` is at `k` when `p` occurs at
/// `k` and nowhere in between.
proof fn lemma_find_from_first(s: Seq<char>, p: Seq<char>, i: int, k: int)
    requires
        0 <= i <= k,
        matches_at(s, p, k),
        forall|j: int| i <= j < k ==> !matches_at(s, p, j),
    ensures
        find_from(s, p, i) == Some(k),
    decreases k - i,
{
    if i < k {
        lemma_find_from_first(s, p, i + 1, k);
    }
}

/// A text that does not contain `p` has no first occurrence of it.
proof fn lemma_find_absent(s: Seq<char>, p: Seq<char>)
    requires
        !contains(s, p),
    ensures
        find(s, p) is None,
{
    lemma_find_from_matches(s, p, 0);
}

/// In `w + m + x`, where the non-empty `w` ends in a non-whitespace character
/// and does not contain the two-character marker `m` (which starts with a
/// space), the first `m` is the one right after `w`.
proof fn lemma_first_marker_after(w: Seq<char>, m: Seq<char>, x: Seq<char>)
    requires
        w.len() > 0,
        !is_ws(w.last()),
        m.len() == 2,
        m[0] == ' ',
        !contains(w, m),
    ensures
        find(w + m + x, m) == Some(w.len() as int),
{
    let s = w + m + x;
    let n = w.len() as int;
    assert(is_ws(' '));
    assert(s.subrange(n, n + 2) =~= m);
    assert forall|j: int| 0 <= j < n implies !matches_at(s, m, j) by {
        if matches_at(s, m, j) {
            if j + 2 <= n {
                assert(w.subrange(j, j + 2) =~= s.subrange(j, j + 2));
                assert(matches_at(w, m, j));
            } else {
                assert(s.subrange(j, j + 2)[0] == s[j]);
                assert(s[j] == w.last());
            }
        }
    }
    lemma_find_from_first(s, m, 0, n);
}

/// A trailing annotation is dropped before a status is matched: for a
/// status text `w` (non-empty, no surrounding whitespace, with no `" ("` or
/// `" ["` inside), `w (anything)` and `w [anything]` (e.g.
/// `Implemented (Swift 5.0)`, `Accepted [ADR-5]`) leave `w`, and so
/// canonicalize as `w` does.
pub proof fn law_trailing_annotation_is_dropped(w: Seq<char>, x: Seq<char>)
    requires
        w.len() > 0,
        !is_ws(w[0]),
        !is_ws(w.last()),
        !contains(w, " ("@),
        !contains(w, " ["@),
    ensures
        spec_strip_trailing_annotation(w + " ("@ + x + ")"@) == w,
        spec_strip_trailing_annotation(w + " ["@ + x + "]"@) == w,
        spec_strip_trailing_annotation(w) == w,
        spec_canonicalize_status(w + " ("@ + x + ")"@) == spec_canonicalize_status(w),
        spec_canonicalize_status(w + " ["@ + x + "]"@) == spec_canonicalize_status(w),
{
    reveal_strlit(" (");
    reveal_strlit(" [");
    reveal_strlit(")");
    reveal_strlit("]");
    let empty: Seq<char> = seq![];
    assert(trim_start_set(w, empty, true) == w);
    assert(trim_end_set(w, empty, true) == w);
    lemma_find_absent(w, " ("@);
    lemma_find_absent(w, " ["@);
    assert(spec_strip_trailing_annotation(w) == w);
    let a = w + " ("@ + x + ")"@;
    assert(a[0] == w[0]);
    assert(a.last() == ')');
    assert(trim_start_set(a, empty, true) == a);
    assert(trim_end_set(a, empty, true) == a);
    lemma_first_marker_after(w, " ("@, x + ")"@);
    assert(w + " ("@ + (x + ")"@) =~= a);
    assert(seq![')'][0] == a.last());
    assert(seq![')'].contains(a.last()));
    assert(a.subrange(0, w.len() as int) =~= w);
    assert(cut_annotation(a, " ("@, seq![')']) == w);
    let b = w + " ["@ + x + "]"@;
    assert(b[0] == w[0]);
    assert(b.last() == ']');
    assert(trim_start_set(b, empty, true) == b);
    assert(trim_end_set(b, empty, true) == b);
    assert(!seq![')'].contains(b.last()));
    assert(cut_annotation(b, " ("@, seq![')']) == b);
    lemma_first_marker_after(w, " ["@, x + "]"@);
    assert(w + " ["@ + (x + "]"@) =~= b);
    assert(seq![']', ')'][0] == b.last());
    assert(seq![']', ')'].contains(b.last()));
    assert(b.subrange(0, w.len() as int) =~= w);
    assert(cut_annotation(b, " ["@, seq![']', ')']) == w);
}

} // verus!
