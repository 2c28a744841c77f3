//! YAML front matter (`---` fenced at the start of the file): the `status:`
//! value, the key set the lookalike gates read, the explicit `ban:`/`policy:`
//! flag and the `governs:` selector list.
use vstd::prelude::*;
use crate::text::{
    char_is_ws, copy_range, eq_lit, find, find_lit, has_prefix_lit, is_ws, lines, lines_of, lower,
    seqs_of, split, split_on, starts_with, strip_prefix, strip_prefix_lit, strip_suffix,
    strip_suffix_lit, to_lower, trim, trim_char, trim_end, trim_end_ws, trim_matching, trim_start_in,
    trim_start_set, trim_ws,
};

verus! {

/// What the front matter of a document says, as far as the classifier reads it.
pub struct FrontMatter {
    /// A terminated `---` fence opens the document.
    pub present: bool,
    /// The value of the last non-empty top-level `status:` key.
    pub status: Option<Vec<char>>,
    /// Every top-level key is a scope or publishing key (and there is one).
    pub only_scope_or_publishing_keys: bool,
    /// Some top-level key is a publishing key (`layout`, `permalink`, ...).
    pub has_publishing_keys: bool,
    /// Some top-level key is an issue-template key (`about`, `labels`, ...).
    pub has_issue_template_keys: bool,
    /// A top-level `ban:` or `policy:` key carries a non-falsy value.
    pub ban: bool,
    /// The `governs:` selectors, flow (`[a, b]`) or block (`- a`) style.
    pub governs: Vec<Vec<char>>,
}

/// The model of `FrontMatter`.
#[verifier::ext_equal]
pub struct FrontMatterView {
    pub present: bool,
    pub status: Option<Seq<char>>,
    pub only_scope_or_publishing_keys: bool,
    pub has_publishing_keys: bool,
    pub has_issue_template_keys: bool,
    pub ban: bool,
    pub governs: Seq<Seq<char>>,
}

pub open spec fn opt_view(o: Option<Vec<char>>) -> Option<Seq<char>> {
    match o {
        Some(v) => Some(v@),
        None => None,
    }
}

impl View for FrontMatter {
    type V = FrontMatterView;

    open spec fn view(&self) -> FrontMatterView {
        FrontMatterView {
            present: self.present,
            status: opt_view(self.status),
            only_scope_or_publishing_keys: self.only_scope_or_publishing_keys,
            has_publishing_keys: self.has_publishing_keys,
            has_issue_template_keys: self.has_issue_template_keys,
            ban: self.ban,
            governs: seqs_of(self.governs@),
        }
    }
}

/// Front matter with nothing in it.
pub open spec fn spec_empty_front_matter(present: bool) -> FrontMatterView {
    FrontMatterView {
        present,
        status: None,
        only_scope_or_publishing_keys: false,
        has_publishing_keys: false,
        has_issue_template_keys: false,
        ban: false,
        governs: seq![],
    }
}

pub fn empty_front_matter(present: bool) -> (r: FrontMatter)
    ensures
        r@ == spec_empty_front_matter(present),
{
    let r = FrontMatter {
        present,
        status: None,
        only_scope_or_publishing_keys: false,
        has_publishing_keys: false,
        has_issue_template_keys: false,
        ban: false,
        governs: Vec::new(),
    };
    assert(r@.governs =~= seq![]);
    r
}

/// `true`, `yes`, `on` or `1`, ignoring case and surrounding whitespace.
pub open spec fn spec_is_yaml_truthy(val: Seq<char>) -> bool {
    let lc = lower(trim(val));
    lc == "true"@ || lc == "yes"@ || lc == "on"@ || lc == "1"@
}

/// Empty, `false`, `no`, `off` or `0`, ignoring case and surrounding whitespace.
pub open spec fn spec_is_yaml_falsy(val: Seq<char>) -> bool {
    let lc = lower(trim(val));
    lc.len() == 0 || lc == "false"@ || lc == "no"@ || lc == "off"@ || lc == "0"@
}

pub fn is_yaml_truthy(val: &[char]) -> (r: bool)
    ensures
        r == spec_is_yaml_truthy(val@),
{
    let t = trim_ws(val);
    let lc = to_lower(&t);
    eq_lit(&lc, "true") || eq_lit(&lc, "yes") || eq_lit(&lc, "on") || eq_lit(&lc, "1")
}

pub fn is_yaml_falsy(val: &[char]) -> (r: bool)
    ensures
        r == spec_is_yaml_falsy(val@),
{
    let t = trim_ws(val);
    let lc = to_lower(&t);
    lc.len() == 0 || eq_lit(&lc, "false") || eq_lit(&lc, "no") || eq_lit(&lc, "off") || eq_lit(
        &lc,
        "0",
    )
}

/// A scalar as written: trimmed, then double and single quotes removed from
/// both ends.
pub open spec fn yaml_scalar(s: Seq<char>) -> Seq<char> {
    trim_char(trim_char(trim(s), '"'), '\'')
}

pub fn scalar_of(s: &[char]) -> (r: Vec<char>)
    ensures
        r@ == yaml_scalar(s@),
{
    let t = trim_ws(s);
    let a = trim_matching(&t, '"');
    trim_matching(&a, '\'')
}

/// The non-empty scalars among comma-separated pieces, in order.
pub open spec fn flow_items(ps: Seq<Seq<char>>) -> Seq<Seq<char>>
    decreases ps.len(),
{
    if ps.len() == 0 {
        seq![]
    } else {
        let rest = flow_items(ps.drop_last());
        let x = yaml_scalar(ps.last());
        if x.len() > 0 {
            rest.push(x)
        } else {
            rest
        }
    }
}

/// A flow-style list `[a, b, "c"]`: its non-empty items, or `None` when the
/// value is not bracket-delimited.
pub open spec fn spec_parse_flow_list(val: Seq<char>) -> Option<Seq<Seq<char>>> {
    match strip_prefix(trim(val), "["@) {
        Some(a) => match strip_suffix(a, "]"@) {
            Some(inner) => Some(flow_items(split(inner, ','))),
            None => None,
        },
        None => None,
    }
}

pub fn parse_flow_list(val: &[char]) -> (r: Option<Vec<Vec<char>>>)
    ensures
        match r {
            Some(v) => spec_parse_flow_list(val@) == Some(seqs_of(v@)),
            None => spec_parse_flow_list(val@) is None,
        },
{
    let t = trim_ws(val);
    let a = match strip_prefix_lit(&t, "[") {
        Some(a) => a,
        None => return None,
    };
    let inner = match strip_suffix_lit(&a, "]") {
        Some(inner) => inner,
        None => return None,
    };
    let pieces = split_on(&inner, ',');
    let ghost ps = seqs_of(pieces@);
    let mut out: Vec<Vec<char>> = Vec::new();
    let mut i: usize = 0;
    assert(seqs_of(out@) =~= flow_items(ps.take(0)));
    while i < pieces.len()
        invariant
            i <= pieces.len(),
            ps == seqs_of(pieces@),
            seqs_of(out@) == flow_items(ps.take(i as int)),
        decreases pieces.len() - i,
    {
        assert(ps.take(i + 1).drop_last() =~= ps.take(i as int));
        let x = scalar_of(&pieces[i]);
        if x.len() > 0 {
            out.push(x);
        }
        i = i + 1;
        assert(seqs_of(out@) =~= flow_items(ps.take(i as int)));
    }
    assert(ps.take(pieces.len() as int) =~= ps);
    Some(out)
}

/// Keys that only scope or describe a file (never a decision status).
pub open spec fn is_scope_key(k: Seq<char>) -> bool {
    ||| k == "paths"@
    ||| k == "globs"@
    ||| k == "applyto"@
    ||| k == "trigger"@
    ||| k == "alwaysapply"@
    ||| k == "description"@
    ||| k == "governs"@
}

/// Keys of site-generator publishing front matter.
pub open spec fn is_publishing_key(k: Seq<char>) -> bool {
    ||| k == "layout"@
    ||| k == "permalink"@
    ||| k == "slug"@
    ||| k == "sidebar_position"@
    ||| k == "categories"@
    ||| k == "author"@
}

/// Keys of a GitHub issue/PR template.
pub open spec fn is_issue_template_key(k: Seq<char>) -> bool {
    k == "about"@ || k == "labels"@ || k == "assignees"@
}

fn scope_key(k: &[char]) -> (r: bool)
    ensures
        r == is_scope_key(k@),
{
    eq_lit(k, "paths") || eq_lit(k, "globs") || eq_lit(k, "applyto") || eq_lit(k, "trigger")
        || eq_lit(k, "alwaysapply") || eq_lit(k, "description") || eq_lit(k, "governs")
}

fn publishing_key(k: &[char]) -> (r: bool)
    ensures
        r == is_publishing_key(k@),
{
    eq_lit(k, "layout") || eq_lit(k, "permalink") || eq_lit(k, "slug") || eq_lit(
        k,
        "sidebar_position",
    ) || eq_lit(k, "categories") || eq_lit(k, "author")
}

fn issue_template_key(k: &[char]) -> (r: bool)
    ensures
        r == is_issue_template_key(k@),
{
    eq_lit(k, "about") || eq_lit(k, "labels") || eq_lit(k, "assignees")
}

/// A `---` or `...` line (surrounding whitespace ignored) closes the front
/// matter.
pub open spec fn is_fence_line(line: Seq<char>) -> bool {
    trim(line) == "---"@ || trim(line) == "..."@
}

/// The state of the scan over the front-matter lines.
#[verifier::ext_equal]
pub struct FmScan {
    pub status: Option<Seq<char>>,
    /// The top-level keys seen, ASCII-lowercased, in order.
    pub keys: Seq<Seq<char>>,
    pub ban: bool,
    pub governs: Seq<Seq<char>>,
    /// The lines being read are the block-style items of a `governs:` key.
    pub in_block: bool,
}

pub open spec fn fm_start() -> FmScan {
    FmScan { status: None, keys: seq![], ban: false, governs: seq![], in_block: false }
}

/// The effect of a top-level `key: val` line on the scan.
pub open spec fn fm_apply_key(st: FmScan, key: Seq<char>, val: Seq<char>) -> FmScan {
    let is_governs = key == "governs"@;
    let flow = spec_parse_flow_list(val);
    FmScan {
        status: if key == "status"@ && val.len() > 0 {
            Some(val)
        } else {
            st.status
        },
        keys: if key.len() > 0 {
            st.keys.push(key)
        } else {
            st.keys
        },
        ban: if key == "ban"@ || key == "policy"@ {
            st.ban || !spec_is_yaml_falsy(val) || spec_is_yaml_truthy(val)
        } else {
            st.ban
        },
        governs: if is_governs && flow is Some {
            flow->0
        } else {
            st.governs
        },
        in_block: is_governs && flow is None && val.len() == 0,
    }
}

/// The scan of the front-matter lines from line `i` on: `Some` of the final
/// state at the closing `---` or `...` fence, `None` when no fence closes it.
pub open spec fn fm_scan(ls: Seq<Seq<char>>, i: int, st: FmScan) -> Option<FmScan>
    decreases ls.len() - i, if st.in_block {
        1int
    } else {
        0int
    },
{
    if i < 0 || i >= ls.len() {
        None
    } else if st.in_block {
        let line = ls[i];
        let item = trim(line);
        if line.len() > 0 && is_ws(line[0]) && strip_prefix(item, "- "@) is Some {
            let cleaned = yaml_scalar(strip_prefix(item, "- "@)->0);
            fm_scan(
                ls,
                i + 1,
                FmScan {
                    governs: if cleaned.len() > 0 {
                        st.governs.push(cleaned)
                    } else {
                        st.governs
                    },
                    ..st
                },
            )
        } else if line.len() > 0 && is_ws(line[0]) && item == "-"@ {
            fm_scan(ls, i + 1, st)
        } else {
            fm_scan(ls, i, FmScan { in_block: false, ..st })
        }
    } else {
        let t = trim_end(ls[i]);
        if is_fence_line(ls[i]) {
            Some(st)
        } else {
            match find(t, ":"@) {
                None => fm_scan(ls, i + 1, st),
                Some(colon) => if t.len() > 0 && is_ws(t[0]) {
                    fm_scan(ls, i + 1, st)
                } else {
                    let key = lower(trim(t.subrange(0, colon)));
                    let val = yaml_scalar(t.subrange(colon + 1, t.len() as int));
                    fm_scan(ls, i + 1, fm_apply_key(st, key, val))
                },
            }
        }
    }
}

/// The document with any leading byte-order marks removed.
pub open spec fn without_bom(content: Seq<char>) -> Seq<char> {
    trim_start_set(content, seq!['\u{feff}'], false)
}

/// What the front matter of `content` says.
pub open spec fn spec_parse_front_matter(content: Seq<char>) -> FrontMatterView {
    let body = without_bom(content);
    if !starts_with(body, "---"@) {
        spec_empty_front_matter(false)
    } else {
        match fm_scan(lines(body), 1, fm_start()) {
            None => spec_empty_front_matter(false),
            Some(st) => FrontMatterView {
                present: true,
                status: st.status,
                only_scope_or_publishing_keys: st.keys.len() > 0 && (forall|j: int|
                    0 <= j < st.keys.len() ==> is_scope_key(#[trigger] st.keys[j])
                        || is_publishing_key(st.keys[j])),
                has_publishing_keys: exists|j: int|
                    0 <= j < st.keys.len() && is_publishing_key(#[trigger] st.keys[j]),
                has_issue_template_keys: exists|j: int|
                    0 <= j < st.keys.len() && is_issue_template_key(#[trigger] st.keys[j]),
                ban: st.ban,
                governs: st.governs,
            },
        }
    }
}


pub open spec fn scan_view(
    status: Option<Vec<char>>,
    keys: Seq<Vec<char>>,
    ban: bool,
    governs: Seq<Vec<char>>,
    in_block: bool,
) -> FmScan {
    FmScan { status: opt_view(status), keys: seqs_of(keys), ban, governs: seqs_of(governs), in_block }
}

/// Read the YAML front matter of `content`.
pub fn parse_front_matter(content: &[char]) -> (r: FrontMatter)
    ensures
        r@ == spec_parse_front_matter(content@),
{
    let bom: Vec<char> = vec!['\u{feff}'];
    assert(bom@ =~= seq!['\u{feff}']);
    let body = trim_start_in(content, &bom, false);
    if !has_prefix_lit(&body, "---") {
        return empty_front_matter(false);
    }
    let ls = lines_of(&body);
    let ghost lsv = seqs_of(ls@);
    let mut status: Option<Vec<char>> = None;
    let mut keys: Vec<Vec<char>> = Vec::new();
    let mut ban = false;
    let mut governs: Vec<Vec<char>> = Vec::new();
    let mut in_block = false;
    let mut closed = false;
    let mut i: usize = 1;
    assert(scan_view(status, keys@, ban, governs@, in_block) =~= fm_start());
    while i < ls.len() && !closed
        invariant
            lsv == seqs_of(ls@),
            lsv == lines(body@),
            1 <= i,
            closed ==> !in_block,
            fm_scan(lsv, 1, fm_start()) == if closed {
                Some(scan_view(status, keys@, ban, governs@, in_block))
            } else {
                fm_scan(lsv, i as int, scan_view(status, keys@, ban, governs@, in_block))
            },
        decreases (ls.len() - i) * 2 + (if in_block {
            1int
        } else {
            0int
        }) + (if closed {
            0int
        } else {
            1int
        }),
    {
        let line = &ls[i];
        assert(line@ == lsv[i as int]);
        let ghost cur = scan_view(status, keys@, ban, governs@, in_block);
        if in_block {
            let item = trim_ws(line);
            let starts_ws = line.len() > 0 && char_is_ws(line[0]);
            let dash = strip_prefix_lit(&item, "- ");
            if starts_ws && dash.is_some() {
                let rest = dash.unwrap();
                let cleaned = scalar_of(&rest);
                if cleaned.len() > 0 {
                    governs.push(cleaned);
                }
                assert(scan_view(status, keys@, ban, governs@, in_block) =~= FmScan {
                    governs: if yaml_scalar(rest@).len() > 0 {
                        cur.governs.push(yaml_scalar(rest@))
                    } else {
                        cur.governs
                    },
                    ..cur
                });
                i = i + 1;
            } else if starts_ws && eq_lit(&item, "-") {
                i = i + 1;
            } else {
                in_block = false;
                assert(scan_view(status, keys@, ban, governs@, in_block) =~= FmScan {
                    in_block: false,
                    ..cur
                });
            }
        } else {
            let t = trim_end_ws(line);
            let tt = trim_ws(line);
            if eq_lit(&tt, "---") || eq_lit(&tt, "...") {
                closed = true;
            } else {
                proof {
                    reveal_strlit(":");
                }
                match find_lit(&t, ":") {
                    None => {
                        i = i + 1;
                    },
                    Some(colon) => {
                        if t.len() > 0 && char_is_ws(t[0]) {
                            i = i + 1;
                        } else {
                            let key_raw = copy_range(&t, 0, colon);
                            let key_t = trim_ws(&key_raw);
                            let key = to_lower(&key_t);
                            let val_raw = copy_range(&t, colon + 1, t.len());
                            let val = scalar_of(&val_raw);
                            let ghost before = scan_view(status, keys@, ban, governs@, in_block);
                            let is_governs = eq_lit(&key, "governs");
                            let is_status = eq_lit(&key, "status");
                            let is_ban_key = eq_lit(&key, "ban") || eq_lit(&key, "policy");
                            let flow = parse_flow_list(&val);
                            if is_ban_key {
                                ban = ban || !is_yaml_falsy(&val) || is_yaml_truthy(&val);
                            }
                            in_block = is_governs && flow.is_none() && val.len() == 0;
                            if is_governs {
                                match flow {
                                    Some(f) => {
                                        governs = f;
                                    },
                                    None => {},
                                }
                            }
                            if is_status && val.len() > 0 {
                                status = Some(copy_range(&val, 0, val.len()));
                            }
                            if key.len() > 0 {
                                keys.push(key);
                            }
                            assert(scan_view(status, keys@, ban, governs@, in_block) =~= fm_apply_key(
                                before,
                                key@,
                                val@,
                            ));
                            i = i + 1;
                        }
                    },
                }
            }
        }
    }
    if !closed {
        return empty_front_matter(false);
    }
    let ghost kv = seqs_of(keys@);
    let mut has_publishing_keys = false;
    let mut has_issue_template_keys = false;
    let mut all_scope_or_publishing = true;
    let mut k: usize = 0;
    while k < keys.len()
        invariant
            kv == seqs_of(keys@),
            k <= keys.len(),
            has_publishing_keys == exists|j: int| 0 <= j < k && is_publishing_key(#[trigger] kv[j]),
            has_issue_template_keys == exists|j: int|
                0 <= j < k && is_issue_template_key(#[trigger] kv[j]),
            all_scope_or_publishing == forall|j: int|
                0 <= j < k ==> is_scope_key(#[trigger] kv[j]) || is_publishing_key(kv[j]),
        decreases keys.len() - k,
    {
        let key = &keys[k];
        assert(key@ == kv[k as int]);
        let p = publishing_key(key);
        let it = issue_template_key(key);
        let sc = scope_key(key);
        has_publishing_keys = has_publishing_keys || p;
        has_issue_template_keys = has_issue_template_keys || it;
        all_scope_or_publishing = all_scope_or_publishing && (sc || p);
        k = k + 1;
    }
    FrontMatter {
        present: true,
        status,
        only_scope_or_publishing_keys: keys.len() > 0 && all_scope_or_publishing,
        has_publishing_keys,
        has_issue_template_keys,
        ban,
        governs,
    }
}


/// Without a closing fence line the scan finds no front matter.
proof fn lemma_fm_scan_unclosed(ls: Seq<Seq<char>>, i: int, st: FmScan)
    requires
        0 <= i,
        forall|j: int| i <= j < ls.len() ==> !is_fence_line(#[trigger] ls[j]),
    ensures
        fm_scan(ls, i, st) is None,
    decreases ls.len() - i, if st.in_block {
        1int
    } else {
        0int
    },
{
    if i < ls.len() {
        assert(!is_fence_line(ls[i]));
        if st.in_block {
            let line = ls[i];
            let item = trim(line);
            if line.len() > 0 && is_ws(line[0]) && strip_prefix(item, "- "@) is Some {
                let cleaned = yaml_scalar(strip_prefix(item, "- "@)->0);
                lemma_fm_scan_unclosed(
                    ls,
                    i + 1,
                    FmScan {
                        governs: if cleaned.len() > 0 {
                            st.governs.push(cleaned)
                        } else {
                            st.governs
                        },
                        ..st
                    },
                );
            } else if line.len() > 0 && is_ws(line[0]) && item == "-"@ {
                lemma_fm_scan_unclosed(ls, i + 1, st);
            } else {
                lemma_fm_scan_unclosed(ls, i, FmScan { in_block: false, ..st });
            }
        } else {
            let t = trim_end(ls[i]);
            match find(t, ":"@) {
                None => lemma_fm_scan_unclosed(ls, i + 1, st),
                Some(colon) => if t.len() > 0 && is_ws(t[0]) {
                    lemma_fm_scan_unclosed(ls, i + 1, st);
                } else {
                    let key = lower(trim(t.subrange(0, colon)));
                    let val = yaml_scalar(t.subrange(colon + 1, t.len() as int));
                    lemma_fm_scan_unclosed(ls, i + 1, fm_apply_key(st, key, val));
                },
            }
        }
    }
}

/// A front matter whose opening `---` is never closed by a `---` or `...`
/// line is no front matter: nothing of it is read (no status, no keys, no
/// ban, no selectors).
pub proof fn law_unterminated_front_matter_is_absent(content: Seq<char>)
    requires
        forall|j: int|
            1 <= j < lines(without_bom(content)).len() ==> !is_fence_line(
                #[trigger] lines(without_bom(content))[j],
            ),
    ensures
        spec_parse_front_matter(content) == spec_empty_front_matter(false),
{
    lemma_fm_scan_unclosed(lines(without_bom(content)), 1, fm_start());
}


/// A top-level `key: value` line: the key (trimmed, ASCII-lowercased) and the
/// value (a scalar as written), or `None` for an indented line or one
/// without a `:`.
pub open spec fn key_line(line: Seq<char>) -> Option<(Seq<char>, Seq<char>)> {
    let t = trim_end(line);
    match find(t, ":"@) {
        Some(colon) => if t.len() > 0 && is_ws(t[0]) {
            None
        } else {
            Some(
                (
                    lower(trim(t.subrange(0, colon))),
                    yaml_scalar(t.subrange(colon + 1, t.len() as int)),
                ),
            )
        },
        None => None,
    }
}

/// A top-level `ban:` or `policy:` line with a non-falsy value.
pub open spec fn is_ban_line(line: Seq<char>) -> bool {
    key_line(line) matches Some((k, v)) && (k == "ban"@ || k == "policy"@)
        && !spec_is_yaml_falsy(v)
}

/// Some line of `ls[i..]` before the first fence line there is a ban line.
pub open spec fn ban_line_before_fence(ls: Seq<Seq<char>>, i: int) -> bool {
    exists|j: int|
        #![trigger is_ban_line(ls[j])]
        i <= j < ls.len() && is_ban_line(ls[j]) && forall|m: int|
            i <= m <= j ==> !is_fence_line(#[trigger] ls[m])
}

proof fn lemma_truthy_not_falsy(v: Seq<char>)
    ensures
        spec_is_yaml_truthy(v) ==> !spec_is_yaml_falsy(v),
{
    reveal_strlit("true");
    reveal_strlit("yes");
    reveal_strlit("on");
    reveal_strlit("1");
    reveal_strlit("false");
    reveal_strlit("no");
    reveal_strlit("off");
    reveal_strlit("0");
    let lc = lower(trim(v));
    if spec_is_yaml_truthy(v) {
        assert(lc.len() > 0);
        assert(lc != "false"@);
        assert(lc != "no"@) by {
            if lc == "on"@ {
                assert("on"@[0] != "no"@[0]);
            }
        }
        assert(lc != "off"@) by {
            if lc == "yes"@ {
                assert("yes"@[0] != "off"@[0]);
            }
        }
        assert(lc != "0"@) by {
            if lc == "1"@ {
                assert("1"@[0] != "0"@[0]);
            }
        }
    }
}

/// A line taken as a block-list item starts with whitespace and is neither
/// a top-level key line nor a fence line.
proof fn lemma_block_item_line(line: Seq<char>)
    requires
        line.len() > 0,
        is_ws(line[0]),
        strip_prefix(trim(line), "- "@) is Some || trim(line) == "-"@,
    ensures
        key_line(line) is None,
        !is_fence_line(line),
{
    crate::text::lemma_trim_end_set_prefix(line, seq![], true);
    let t = trim_end(line);
    reveal_strlit(":");
    if t.len() > 0 {
        assert(t[0] == line[0]);
    } else {
        assert(find(t, ":"@) is None);
    }
    reveal_strlit("- ");
    reveal_strlit("-");
    reveal_strlit("---");
    reveal_strlit("...");
    let item = trim(line);
    if strip_prefix(item, "- "@) is Some {
        assert(item.subrange(0, 2)[1] == item[1]);
        assert(item[1] == ' ');
        assert(item != "---"@) by {
            if item == "---"@ {
                assert("---"@[1] == '-');
            }
        }
        assert(item != "..."@) by {
            if item == "..."@ {
                assert("..."@[0] == '.');
            }
        }
    }
}

proof fn lemma_fm_scan_ban(ls: Seq<Seq<char>>, i: int, st: FmScan)
    requires
        0 <= i,
    ensures
        fm_scan(ls, i, st) matches Some(f) ==> f.ban == (st.ban || ban_line_before_fence(ls, i)),
    decreases ls.len() - i, if st.in_block {
        1int
    } else {
        0int
    },
{
    if i < ls.len() {
        if st.in_block {
            let line = ls[i];
            let item = trim(line);
            if line.len() > 0 && is_ws(line[0]) && (strip_prefix(item, "- "@) is Some || item
                == "-"@) {
                lemma_block_item_line(line);
                assert(!is_ban_line(ls[i]));
                let next = if strip_prefix(item, "- "@) is Some {
                    let cleaned = yaml_scalar(strip_prefix(item, "- "@)->0);
                    FmScan {
                        governs: if cleaned.len() > 0 {
                            st.governs.push(cleaned)
                        } else {
                            st.governs
                        },
                        ..st
                    }
                } else {
                    st
                };
                lemma_fm_scan_ban(ls, i + 1, next);
                assert(ban_line_before_fence(ls, i) == ban_line_before_fence(ls, i + 1)) by {
                    if ban_line_before_fence(ls, i) {
                        let j = choose|j: int|
                            #![trigger is_ban_line(ls[j])]
                            i <= j < ls.len() && is_ban_line(ls[j]) && forall|m: int|
                                i <= m <= j ==> !is_fence_line(#[trigger] ls[m]);
                        assert(j != i);
                    }
                }
            } else {
                lemma_fm_scan_ban(ls, i, FmScan { in_block: false, ..st });
            }
        } else {
            let t = trim_end(ls[i]);
            if is_fence_line(ls[i]) {
                assert(!ban_line_before_fence(ls, i));
            } else {
                let next = match key_line(ls[i]) {
                    Some((key, val)) => fm_apply_key(st, key, val),
                    None => st,
                };
                lemma_fm_scan_ban(ls, i + 1, next);
                match key_line(ls[i]) {
                    Some((key, val)) => lemma_truthy_not_falsy(val),
                    None => {},
                }
                assert(next.ban == (st.ban || is_ban_line(ls[i])));
                assert(ban_line_before_fence(ls, i) == (is_ban_line(ls[i])
                    || ban_line_before_fence(ls, i + 1))) by {
                    if ban_line_before_fence(ls, i + 1) {
                        let j = choose|j: int|
                            #![trigger is_ban_line(ls[j])]
                            i + 1 <= j < ls.len() && is_ban_line(ls[j]) && forall|m: int|
                                i + 1 <= m <= j ==> !is_fence_line(#[trigger] ls[m]);
                        assert(forall|m: int| i <= m <= j ==> !is_fence_line(#[trigger] ls[m]));
                    }
                    if is_ban_line(ls[i]) {
                        assert(forall|m: int| i <= m <= i ==> !is_fence_line(#[trigger] ls[m]));
                    }
                    if ban_line_before_fence(ls, i) && !is_ban_line(ls[i]) {
                        let j = choose|j: int|
                            #![trigger is_ban_line(ls[j])]
                            i <= j < ls.len() && is_ban_line(ls[j]) && forall|m: int|
                                i <= m <= j ==> !is_fence_line(#[trigger] ls[m]);
                        assert(j != i);
                        assert(forall|m: int| i + 1 <= m <= j ==> !is_fence_line(#[trigger] ls[m]));
                    }
                }
            }
        }
    }
}

/// The value of a top-level `status:` line with a non-empty value.
pub open spec fn status_line_value(line: Seq<char>) -> Option<Seq<char>> {
    match key_line(line) {
        Some((k, v)) => if k == "status"@ && v.len() > 0 {
            Some(v)
        } else {
            None
        },
        None => None,
    }
}

/// The value of the last non-empty top-level `status:` line among `ls[i..]`
/// before the first fence line; `acc` when there is none.
pub open spec fn last_status_value(ls: Seq<Seq<char>>, i: int, acc: Option<Seq<char>>) -> Option<
    Seq<char>,
>
    decreases ls.len() - i,
{
    if i < 0 || i >= ls.len() || is_fence_line(ls[i]) {
        acc
    } else {
        last_status_value(
            ls,
            i + 1,
            match status_line_value(ls[i]) {
                Some(v) => Some(v),
                None => acc,
            },
        )
    }
}

proof fn lemma_fm_scan_status(ls: Seq<Seq<char>>, i: int, st: FmScan)
    requires
        0 <= i,
    ensures
        fm_scan(ls, i, st) matches Some(f) ==> f.status == last_status_value(ls, i, st.status),
    decreases ls.len() - i, if st.in_block {
        1int
    } else {
        0int
    },
{
    if i < ls.len() {
        if st.in_block {
            let line = ls[i];
            let item = trim(line);
            if line.len() > 0 && is_ws(line[0]) && (strip_prefix(item, "- "@) is Some || item
                == "-"@) {
                lemma_block_item_line(line);
                let next = if strip_prefix(item, "- "@) is Some {
                    let cleaned = yaml_scalar(strip_prefix(item, "- "@)->0);
                    FmScan {
                        governs: if cleaned.len() > 0 {
                            st.governs.push(cleaned)
                        } else {
                            st.governs
                        },
                        ..st
                    }
                } else {
                    st
                };
                lemma_fm_scan_status(ls, i + 1, next);
            } else {
                lemma_fm_scan_status(ls, i, FmScan { in_block: false, ..st });
            }
        } else {
            if !is_fence_line(ls[i]) {
                let next = match key_line(ls[i]) {
                    Some((key, val)) => fm_apply_key(st, key, val),
                    None => st,
                };
                lemma_fm_scan_status(ls, i + 1, next);
            }
        }
    }
}

/// The front-matter status is the value of the last non-empty top-level
/// `status:` line (key matched ignoring case) inside a closed front matter;
/// without front matter there is no front-matter status.
pub proof fn law_front_matter_status_is_last_status_line(content: Seq<char>)
    ensures
        spec_parse_front_matter(content).status == if spec_parse_front_matter(content).present {
            last_status_value(lines(without_bom(content)), 1, None)
        } else {
            None
        },
{
    lemma_fm_scan_status(lines(without_bom(content)), 1, fm_start());
}

/// `ban` is set exactly when the front matter is present and a top-level
/// `ban:` or `policy:` line inside it (after the opening line, before the
/// closing fence) has a value that is not falsy (empty, `false`, `no`,
/// `off`, `0`, in any ASCII case).
pub proof fn law_ban_closed_form(content: Seq<char>)
    ensures
        spec_parse_front_matter(content).ban == (spec_parse_front_matter(content).present
            && ban_line_before_fence(lines(without_bom(content)), 1)),
{
    lemma_fm_scan_ban(lines(without_bom(content)), 1, fm_start());
}

} // verus!
