//! The metadata positions a status can stand in, besides front matter: a
//! bullet item before the first `##` heading, a `## Status` section, and a
//! bracketed suffix of the H1.
use vstd::prelude::*;
use crate::patterns::{regex_capture_one, regex_group_one, H1_SUFFIX_PATTERN};
use crate::text::{
    ascii_lower, in_set, is_ws, trim_end_set, trim_set, chars_of, copy_range, eq_lit, has_prefix_lit, join, join_with, lines, lines_of, lower,
    seqs_of, starts_with, string_of, strip_prefix, strip_prefix_lit, to_lower, trim, trim_char,
    trim_matching, trim_start, trim_start_in, trim_start_set, trim_start_ws, trim_ws,
};

verus! {

/// The lines after the first heading line (any line whose trimmed start is
/// `#`), up to but excluding the first `## ` heading.
pub open spec fn lines_after_h1(ls: Seq<Seq<char>>, i: int, seen_h1: bool, acc: Seq<Seq<char>>) -> Seq<
    Seq<char>,
>
    decreases ls.len() - i,
{
    if i < 0 || i >= ls.len() {
        acc
    } else if !seen_h1 {
        lines_after_h1(ls, i + 1, starts_with(trim_start(ls[i]), "#"@), acc)
    } else {
        let t = trim_start(ls[i]);
        if starts_with(t, "## "@) || t == "##"@ {
            acc
        } else {
            lines_after_h1(ls, i + 1, true, acc.push(ls[i]))
        }
    }
}

/// The body between the H1 and the first `##` heading, lines joined by `\n`.
pub open spec fn spec_body_before_first_h2(content: Seq<char>) -> Seq<char> {
    join(lines_after_h1(lines(content), 0, false, seq![]), "\n"@)
}

pub fn body_before_first_h2(content: &[char]) -> (r: Vec<char>)
    ensures
        r@ == spec_body_before_first_h2(content@),
{
    let ls = lines_of(content);
    let ghost lsv = seqs_of(ls@);
    let mut seen_h1 = false;
    let mut out: Vec<Vec<char>> = Vec::new();
    let mut i: usize = 0;
    assert(seqs_of(out@) =~= seq![]);
    while i < ls.len()
        invariant
            lsv == seqs_of(ls@),
            i <= ls.len(),
            lines_after_h1(lsv, 0, false, seq![]) == lines_after_h1(
                lsv,
                i as int,
                seen_h1,
                seqs_of(out@),
            ),
        ensures
            lines_after_h1(lsv, 0, false, seq![]) == seqs_of(out@),
        decreases ls.len() - i,
    {
        let line = &ls[i];
        assert(line@ == lsv[i as int]);
        let t = trim_start_ws(line);
        if !seen_h1 {
            if has_prefix_lit(&t, "#") {
                seen_h1 = true;
            }
        } else {
            if has_prefix_lit(&t, "## ") || eq_lit(&t, "##") {
                break;
            }
            let ghost prev = seqs_of(out@);
            out.push(copy_range(line, 0, line.len()));
            assert(line@.subrange(0, line@.len() as int) =~= line@);
            assert(seqs_of(out@) =~= prev.push(lsv[i as int]));
        }
        i = i + 1;
    }
    proof {
        reveal_strlit("\n");
        assert("\n"@ =~= seq!['\n']);
    }
    join_with(&out, '\n')
}


/// The bullet marker and bold markup removed from the start of a trimmed line.
pub open spec fn bullet_stripped(raw: Seq<char>) -> Seq<char> {
    trim(trim_start_set(trim_start_set(trim(raw), seq!['*', '-'], false), seq!['*'], false))
}

/// What follows a `status:` label (also `**status:**` and `status**:`),
/// ignoring case, in an ASCII-lowercased line.
pub open spec fn after_status_label(lc: Seq<char>) -> Option<Seq<char>> {
    match strip_prefix(lc, "status:"@) {
        Some(r) => Some(r),
        None => match strip_prefix(lc, "**status:**"@) {
            Some(r) => Some(r),
            None => strip_prefix(lc, "status**:"@),
        },
    }
}

/// The status value of one bullet line, if it is a non-empty `Status:` item;
/// case is kept.
pub open spec fn bullet_value(raw: Seq<char>) -> Option<Seq<char>> {
    let stripped = bullet_stripped(raw);
    match after_status_label(lower(stripped)) {
        Some(rest) => {
            let start = stripped.len() - rest.len();
            let value = trim(
                trim_char(trim_char(trim(stripped.subrange(start, stripped.len() as int)), '*'), '`'),
            );
            if value.len() > 0 {
                Some(value)
            } else {
                None
            }
        },
        None => None,
    }
}

/// The first bullet status among `ls[i..]`.
pub open spec fn first_bullet_value(ls: Seq<Seq<char>>, i: int) -> Option<Seq<char>>
    decreases ls.len() - i,
{
    if i < 0 || i >= ls.len() {
        None
    } else {
        match bullet_value(ls[i]) {
            Some(v) => Some(v),
            None => first_bullet_value(ls, i + 1),
        }
    }
}

/// P2: a `* Status: value` / `- Status: value` / `**Status:** value` item
/// between the H1 and the first `##` heading.
pub open spec fn spec_find_bullet_status(content: Seq<char>) -> Option<Seq<char>> {
    first_bullet_value(lines(spec_body_before_first_h2(content)), 0)
}

fn bullet_value_of(raw: &[char]) -> (r: Option<Vec<char>>)
    ensures
        match r {
            Some(v) => bullet_value(raw@) == Some(v@),
            None => bullet_value(raw@) is None,
        },
{
    let line = trim_ws(raw);
    let marks: Vec<char> = vec!['*', '-'];
    assert(marks@ =~= seq!['*', '-']);
    let star: Vec<char> = vec!['*'];
    assert(star@ =~= seq!['*']);
    let a = trim_start_in(&line, &marks, false);
    let b = trim_start_in(&a, &star, false);
    let stripped = trim_ws(&b);
    let lc = to_lower(&stripped);
    assert(lc@.len() == stripped@.len());
    let rest = match strip_prefix_lit(&lc, "status:") {
        Some(r) => Some(r),
        None => match strip_prefix_lit(&lc, "**status:**") {
            Some(r) => Some(r),
            None => strip_prefix_lit(&lc, "status**:"),
        },
    };
    match rest {
        Some(rest) => {
            let start = stripped.len() - rest.len();
            let tail = copy_range(&stripped, start, stripped.len());
            let t1 = trim_ws(&tail);
            let t2 = trim_matching(&t1, '*');
            let t3 = trim_matching(&t2, '`');
            let value = trim_ws(&t3);
            if value.len() > 0 {
                Some(value)
            } else {
                None
            }
        },
        None => None,
    }
}

pub fn find_bullet_status(content: &[char]) -> (r: Option<Vec<char>>)
    ensures
        match r {
            Some(v) => spec_find_bullet_status(content@) == Some(v@),
            None => spec_find_bullet_status(content@) is None,
        },
{
    let body = body_before_first_h2(content);
    let ls = lines_of(&body);
    let ghost lsv = seqs_of(ls@);
    let mut i: usize = 0;
    while i < ls.len()
        invariant
            lsv == seqs_of(ls@),
            lsv == lines(body@),
            body@ == spec_body_before_first_h2(content@),
            i <= ls.len(),
            first_bullet_value(lsv, 0) == first_bullet_value(lsv, i as int),
        decreases ls.len() - i,
    {
        assert(ls[i as int]@ == lsv[i as int]);
        match bullet_value_of(&ls[i]) {
            Some(v) => {
                return Some(v);
            },
            None => {},
        }
        i = i + 1;
    }
    None
}

/// Trimming a set from both ends leaves alone a non-empty text whose first
/// and last characters are not in the set.
proof fn lemma_trim_set_keeps(s: Seq<char>, set: Seq<char>, ws: bool)
    requires
        s.len() > 0,
        !in_set(s[0], set, ws),
        !in_set(s.last(), set, ws),
    ensures
        trim_set(s, set, ws) == s,
{
}

/// A clean status value: non-empty, and neither end is whitespace, `*` or
/// a backquote.
pub open spec fn is_clean_value(v: Seq<char>) -> bool {
    &&& v.len() > 0
    &&& !is_ws(v[0]) && v[0] != '*' && v[0] != '`'
    &&& !is_ws(v.last()) && v.last() != '*' && v.last() != '`'
}

/// A status label: `Status:`, `**Status:**` or `Status**:`, in any ASCII
/// case.
pub open spec fn is_status_label(label: Seq<char>) -> bool {
    ||| lower(label) == "status:"@
    ||| lower(label) == "**status:**"@
    ||| lower(label) == "status**:"@
}

/// A labelled bullet, `- <label> v` or `* <label> v` with a status label
/// (so `- **Status:** Rejected` as well as `* Status: Accepted`), states the
/// value `v` as it is written.
pub proof fn law_labelled_bullet_value(marker: char, label: Seq<char>, v: Seq<char>)
    requires
        marker == '-' || marker == '*',
        is_status_label(label),
        is_clean_value(v),
    ensures
        bullet_value(seq![marker, ' '] + label + seq![' '] + v) == Some(v),
{
    reveal_strlit("**status:**");
    reveal_strlit("status:");
    reveal_strlit("status**:");
    let empty: Seq<char> = seq![];
    let line = seq![marker, ' '] + label + seq![' '] + v;
    let n = label.len() as int;
    assert(n >= 7);
    assert(lower(label)[0] == ascii_lower(label[0]));
    assert(!is_ws(label[0]));
    assert(line[0] == marker);
    assert(line.last() == v.last());
    lemma_trim_set_keeps(line, empty, true);
    let a = line.drop_first();
    assert(a =~= seq![' '] + label + seq![' '] + v);
    assert(a[0] == ' ');
    assert(!seq!['*', '-'].contains(' '));
    assert(trim_start_set(a, seq!['*', '-'], false) == a);
    assert(seq!['*', '-'][0] == '*' && seq!['*', '-'][1] == '-');
    assert(in_set(marker, seq!['*', '-'], false));
    assert(trim_start_set(line, seq!['*', '-'], false) == a);
    assert(!seq!['*'].contains(' '));
    assert(trim_start_set(a, seq!['*'], false) == a);
    let st = a.drop_first();
    assert(st =~= label + seq![' '] + v);
    assert(st[0] == label[0]);
    assert(trim_start_set(st, empty, true) == st);
    assert(is_ws(' '));
    assert(trim_start_set(a, empty, true) == st);
    assert(st.last() == v.last());
    assert(trim_end_set(st, empty, true) == st);
    assert(bullet_stripped(line) == st);
    let lc = lower(st);
    assert(lc.subrange(0, n) =~= lower(label)) by {
        assert forall|k: int| 0 <= k < n implies #[trigger] lc.subrange(0, n)[k] == lower(
            label,
        )[k] by {
            assert(lc[k] == ascii_lower(st[k]));
            assert(st[k] == label[k]);
            assert(lower(label)[k] == ascii_lower(label[k]));
        }
    }
    if lower(label) == "status:"@ {
        assert(after_status_label(lc) == Some(lc.subrange(n, lc.len() as int)));
    } else if lower(label) == "**status:**"@ {
        assert(lc.subrange(0, 7)[0] == '*');
        assert(strip_prefix(lc, "status:"@) is None);
        assert(after_status_label(lc) == Some(lc.subrange(n, lc.len() as int)));
    } else {
        assert(lc.subrange(0, 7)[6] == '*');
        assert(strip_prefix(lc, "status:"@) is None);
        assert(lc.subrange(0, 9)[0] == 's');
        assert(strip_prefix(lc, "**status:**"@) is None);
        assert(after_status_label(lc) == Some(lc.subrange(n, lc.len() as int)));
    }
    let tail = st.subrange(n, st.len() as int);
    assert(tail =~= seq![' '] + v);
    assert(tail.drop_first() =~= v);
    assert(trim_start_set(v, empty, true) == v);
    assert(tail[0] == ' ' && is_ws(' '));
    assert(trim_start_set(tail, empty, true) == v);
    lemma_trim_set_keeps(v, empty, true);
    assert(trim(tail) == v);
    assert(!seq!['*'].contains(v[0]) && !seq!['*'].contains(v.last()));
    lemma_trim_set_keeps(v, seq!['*'], false);
    assert(!seq!['`'].contains(v[0]) && !seq!['`'].contains(v.last()));
    lemma_trim_set_keeps(v, seq!['`'], false);
}

/// The first bullet item that states a status, between the H1 and the first
/// `##` heading, gives the bullet status.
proof fn lemma_first_bullet_value(ls: Seq<Seq<char>>, i: int, k: int, v: Seq<char>)
    requires
        0 <= i <= k < ls.len(),
        forall|j: int| i <= j < k ==> bullet_value(#[trigger] ls[j]) is None,
        bullet_value(ls[k]) == Some(v),
    ensures
        first_bullet_value(ls, i) == Some(v),
    decreases k - i,
{
    if i < k {
        lemma_first_bullet_value(ls, i + 1, k, v);
    }
}

/// P2 reads every labelled form: when the first status-stating line between
/// the H1 and the first `##` heading is `- <label> v` or `* <label> v` with a
/// status label (`- **Status:** v`, `* Status: v`, ...), the bullet status
/// is `v`.
pub proof fn law_bullet_status_reads_labelled_item(
    content: Seq<char>,
    k: int,
    marker: char,
    label: Seq<char>,
    v: Seq<char>,
)
    requires
        0 <= k < lines(spec_body_before_first_h2(content)).len(),
        forall|j: int|
            0 <= j < k ==> bullet_value(#[trigger] lines(spec_body_before_first_h2(content))[j])
                is None,
        lines(spec_body_before_first_h2(content))[k] == seq![marker, ' '] + label + seq![' '] + v,
        marker == '-' || marker == '*',
        is_status_label(label),
        is_clean_value(v),
    ensures
        spec_find_bullet_status(content) == Some(v),
{
    law_labelled_bullet_value(marker, label, v);
    lemma_first_bullet_value(lines(spec_body_before_first_h2(content)), 0, k, v);
}

/// A line is a `## Status` (or `# Status`) heading, ignoring case.
pub open spec fn is_status_heading(line: Seq<char>) -> bool {
    let lc = lower(trim(line));
    lc == lower("## status"@) || lc == lower("# status"@)
}

/// The index of the first status heading among `ls[i..]`.
pub open spec fn status_heading_from(ls: Seq<Seq<char>>, i: int) -> Option<int>
    decreases ls.len() - i,
{
    if i < 0 || i >= ls.len() {
        None
    } else if is_status_heading(ls[i]) {
        Some(i)
    } else {
        status_heading_from(ls, i + 1)
    }
}

/// The last non-empty trimmed line among `ls[j..]` before the next heading
/// (a line whose trimmed start is `#`); `acc` when there is none.
pub open spec fn last_nonempty_before_heading(
    ls: Seq<Seq<char>>,
    j: int,
    acc: Option<Seq<char>>,
) -> Option<Seq<char>>
    decreases ls.len() - j,
{
    if j < 0 || j >= ls.len() || starts_with(trim_start(ls[j]), "#"@) {
        acc
    } else {
        last_nonempty_before_heading(
            ls,
            j + 1,
            if trim(ls[j]).len() > 0 {
                Some(trim(ls[j]))
            } else {
                acc
            },
        )
    }
}

/// P3: the last non-empty line of the first `## Status` section.
pub open spec fn spec_find_status_section(content: Seq<char>) -> Option<Seq<char>> {
    let ls = lines(content);
    match status_heading_from(ls, 0) {
        Some(i) => last_nonempty_before_heading(ls, i + 1, None),
        None => None,
    }
}

fn status_heading(line: &[char]) -> (r: bool)
    ensures
        r == is_status_heading(line@),
{
    let t = trim_ws(line);
    let lc = to_lower(&t);
    let a = chars_of("## status");
    let b = chars_of("# status");
    let la = to_lower(&a);
    let lb = to_lower(&b);
    crate::text::seq_eq(&lc, &la) || crate::text::seq_eq(&lc, &lb)
}

pub fn find_status_section(content: &[char]) -> (r: Option<Vec<char>>)
    ensures
        match r {
            Some(v) => spec_find_status_section(content@) == Some(v@),
            None => spec_find_status_section(content@) is None,
        },
{
    let ls = lines_of(content);
    let ghost lsv = seqs_of(ls@);
    let mut i: usize = 0;
    while i < ls.len()
        invariant
            lsv == seqs_of(ls@),
            lsv == lines(content@),
            i <= ls.len(),
            status_heading_from(lsv, 0) == status_heading_from(lsv, i as int),
        decreases ls.len() - i,
    {
        assert(ls[i as int]@ == lsv[i as int]);
        if status_heading(&ls[i]) {
            let mut last: Option<Vec<char>> = None;
            let mut j: usize = i + 1;
            while j < ls.len()
                invariant
                    lsv == seqs_of(ls@),
                    i < j <= ls.len(),
                    last_nonempty_before_heading(lsv, i + 1, None)
                        == last_nonempty_before_heading(
                        lsv,
                        j as int,
                        crate::front_matter::opt_view(last),
                    ),
                ensures
                    last_nonempty_before_heading(lsv, i + 1, None) == crate::front_matter::opt_view(
                        last,
                    ),
                decreases ls.len() - j,
            {
                let l = &ls[j];
                assert(l@ == lsv[j as int]);
                let ts = trim_start_ws(l);
                if has_prefix_lit(&ts, "#") {
                    break;
                }
                let t = trim_ws(l);
                if t.len() > 0 {
                    last = Some(t);
                }
                j = j + 1;
            }
            return last;
        }
        i = i + 1;
    }
    None
}

/// The first H1: the text after `# ` on the first line whose trimmed form
/// starts with `# ` (trimmed), or empty for a bare `#` line.
pub open spec fn h1_from(ls: Seq<Seq<char>>, i: int) -> Option<Seq<char>>
    decreases ls.len() - i,
{
    if i < 0 || i >= ls.len() {
        None
    } else {
        let t = trim(ls[i]);
        match strip_prefix(t, "# "@) {
            Some(rest) => Some(trim(rest)),
            None => if t == "#"@ {
                Some(seq![])
            } else {
                h1_from(ls, i + 1)
            },
        }
    }
}

pub open spec fn spec_find_h1(content: Seq<char>) -> Option<Seq<char>> {
    h1_from(lines(content), 0)
}

/// The first H1 heading, verbatim after the `# ` marker.
pub fn find_h1(content: &[char]) -> (r: Option<Vec<char>>)
    ensures
        match r {
            Some(v) => spec_find_h1(content@) == Some(v@),
            None => spec_find_h1(content@) is None,
        },
{
    let ls = lines_of(content);
    let ghost lsv = seqs_of(ls@);
    let mut i: usize = 0;
    while i < ls.len()
        invariant
            lsv == seqs_of(ls@),
            lsv == lines(content@),
            i <= ls.len(),
            h1_from(lsv, 0) == h1_from(lsv, i as int),
        decreases ls.len() - i,
    {
        assert(ls[i as int]@ == lsv[i as int]);
        let t = trim_ws(&ls[i]);
        match strip_prefix_lit(&t, "# ") {
            Some(rest) => {
                return Some(trim_ws(&rest));
            },
            None => {},
        }
        if eq_lit(&t, "#") {
            let empty: Vec<char> = Vec::new();
            assert(empty@ =~= seq![]);
            return Some(empty);
        }
        i = i + 1;
    }
    None
}

/// P4: the status the regex crate captures from the H1 with
/// `H1_SUFFIX_PATTERN`.
pub open spec fn spec_find_h1_suffix_status(content: Seq<char>) -> Option<Seq<char>> {
    match spec_find_h1(content) {
        Some(h1) => match regex_group_one(H1_SUFFIX_PATTERN@, h1) {
            Some(Some(g)) => Some(g),
            _ => None,
        },
        None => None,
    }
}

/// P4: a bracketed status at the end of the H1, e.g. `# 857. Title [Proposed]`.
pub fn find_h1_suffix_status(content: &[char]) -> (r: Option<Vec<char>>)
    ensures
        match r {
            Some(v) => spec_find_h1_suffix_status(content@) == Some(v@),
            None => spec_find_h1_suffix_status(content@) is None,
        },
{
    let h1 = match find_h1(content) {
        Some(h1) => h1,
        None => return None,
    };
    let h1s = string_of(&h1);
    match regex_capture_one(H1_SUFFIX_PATTERN, h1s.as_str()) {
        Some(Some(g)) => Some(chars_of(g.as_str())),
        _ => None,
    }
}


/// A line whose trimmed start is `#` (any heading).
pub open spec fn is_heading_line(line: Seq<char>) -> bool {
    starts_with(trim_start(line), "#"@)
}

/// Line `k` lies in the section opened by the heading at line `i`: after it,
/// with no heading line from `i + 1` up to `k`.
pub open spec fn in_section(ls: Seq<Seq<char>>, i: int, k: int) -> bool {
    &&& i < k < ls.len()
    &&& forall|m: int| i < m <= k ==> !is_heading_line(#[trigger] ls[m])
}

/// Line `k` of the section at `i` is non-blank and no later line of the
/// section is.
pub open spec fn is_last_nonblank_in_section(ls: Seq<Seq<char>>, i: int, k: int) -> bool {
    &&& in_section(ls, i, k)
    &&& trim(ls[k]).len() > 0
    &&& forall|k2: int| k < k2 && in_section(ls, i, k2) ==> trim(#[trigger] ls[k2]).len() == 0
}

proof fn lemma_last_nonempty(ls: Seq<Seq<char>>, i: int, j: int, acc: Option<Seq<char>>)
    requires
        0 <= i < j,
        forall|m: int| i < m < j ==> !is_heading_line(#[trigger] ls[m]),
        acc matches Some(h) ==> exists|k: int|
            #![trigger in_section(ls, i, k)]
            k < j && in_section(ls, i, k) && trim(ls[k]).len() > 0 && h == trim(ls[k]) && forall|
                k2: int,
            | k < k2 < j ==> trim(#[trigger] ls[k2]).len() == 0,
        acc is None ==> forall|k: int| i < k < j ==> trim(#[trigger] ls[k]).len() == 0,
    ensures
        match last_nonempty_before_heading(ls, j, acc) {
            Some(h) => exists|k: int|
                #![trigger in_section(ls, i, k)]
                is_last_nonblank_in_section(ls, i, k) && h == trim(ls[k]),
            None => forall|k: int| in_section(ls, i, k) ==> trim(#[trigger] ls[k]).len() == 0,
        },
    decreases ls.len() - j,
{
    if j < 0 || j >= ls.len() || is_heading_line(ls[j]) {
        // The section ends before `j`.
        assert forall|k2: int| j <= k2 && in_section(ls, i, k2) implies false by {
            if j < ls.len() {
                assert(!is_heading_line(ls[j]));
            }
        }
        match acc {
            Some(h) => {
                let k = choose|k: int|
                    #![trigger in_section(ls, i, k)]
                    k < j && in_section(ls, i, k) && trim(ls[k]).len() > 0 && h == trim(ls[k])
                        && forall|k2: int| k < k2 < j ==> trim(#[trigger] ls[k2]).len() == 0;
                assert(is_last_nonblank_in_section(ls, i, k));
            },
            None => {},
        }
    } else {
        let next = if trim(ls[j]).len() > 0 {
            Some(trim(ls[j]))
        } else {
            acc
        };
        if trim(ls[j]).len() > 0 {
            assert(in_section(ls, i, j));
        } else {
            match acc {
                Some(h) => {
                    let k = choose|k: int|
                        #![trigger in_section(ls, i, k)]
                        k < j && in_section(ls, i, k) && trim(ls[k]).len() > 0 && h == trim(ls[k])
                            && forall|k2: int| k < k2 < j ==> trim(#[trigger] ls[k2]).len() == 0;
                    assert(in_section(ls, i, k));
                },
                None => {},
            }
        }
        lemma_last_nonempty(ls, i, j + 1, next);
    }
}

/// P3 selects the first status heading (`## Status` or `# Status`, any ASCII
/// case) and, of the lines after it up to the next heading, the last
/// non-blank one, trimmed; with no such line (or no such heading) there is
/// no status.
pub proof fn law_status_section_last_nonblank_line(content: Seq<char>)
    ensures
        match status_heading_from(lines(content), 0) {
            None => spec_find_status_section(content) is None,
            Some(i) => {
                &&& 0 <= i < lines(content).len()
                &&& is_status_heading(lines(content)[i])
                &&& forall|m: int| 0 <= m < i ==> !is_status_heading(#[trigger] lines(content)[m])
                &&& match spec_find_status_section(content) {
                    Some(h) => exists|k: int|
                        #![trigger in_section(lines(content), i, k)]
                        is_last_nonblank_in_section(lines(content), i, k) && h == trim(
                            lines(content)[k],
                        ),
                    None => forall|k: int|
                        in_section(lines(content), i, k) ==> trim(#[trigger] lines(content)[k]).len()
                            == 0,
                }
            },
        },
{
    let ls = lines(content);
    lemma_status_heading_first(ls, 0);
    match status_heading_from(ls, 0) {
        Some(i) => lemma_last_nonempty(ls, i, i + 1, None),
        None => {},
    }
}

proof fn lemma_status_heading_first(ls: Seq<Seq<char>>, i: int)
    requires
        0 <= i,
    ensures
        status_heading_from(ls, i) matches Some(h) ==> {
            &&& i <= h < ls.len()
            &&& is_status_heading(ls[h])
            &&& forall|m: int| i <= m < h ==> !is_status_heading(#[trigger] ls[m])
        },
    decreases ls.len() - i,
{
    if i < ls.len() && !is_status_heading(ls[i]) {
        lemma_status_heading_first(ls, i + 1);
    }
}

} // verus!
