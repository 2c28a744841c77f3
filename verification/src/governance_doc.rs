//! The governance-document classifier: a total, pure function from
//! `(path, content, sidecars)` to a classification, or `None` for a file that
//! is not governance at all.
//!
//! Decision order: template gate, sidecar check, anti-lookalike gates,
//! DECISIONS.md table, then the metadata-position scan (front matter, bullet
//! list, `## Status` section, H1 suffix) with the Nygard/MADR fingerprints.
//! `doc_state` is the honest canonical status; `governance_effective` is the
//! conservative flag that only `accepted` (or MADR's implicit accepted) sets.
use vstd::prelude::*;
use crate::front_matter::{parse_front_matter, spec_parse_front_matter};
use crate::gates::{
    file_name_lc, has_madr_fingerprint, has_nygard_fingerprint, has_pipe_separated_status_literal,
    is_never_decision_filename, looks_like_index_or_toc, looks_like_issue_template,
    looks_like_numbered_tutorial, looks_like_publishing_front_matter, never_decision_filename,
    spec_file_name_lc, spec_has_madr_fingerprint, spec_has_nygard_fingerprint,
    spec_has_pipe_separated_status_literal, spec_looks_like_index_or_toc,
    spec_looks_like_issue_template, spec_looks_like_numbered_tutorial,
    spec_looks_like_publishing_front_matter, spec_template_from, template_from,
};
use crate::patterns::{
    regex_capture_one, regex_group_one, DOC_ID_FILENAME_PATTERN, DOC_ID_TITLE_PATTERN,
};
use crate::positions::{
    find_bullet_status, find_h1, find_h1_suffix_status, find_status_section,
    spec_find_bullet_status, spec_find_h1, spec_find_h1_suffix_status, spec_find_status_section,
};
use crate::status::{
    canonicalize_status, is_literal_accepted, literal_accepted, spec_canonicalize_status,
};
use crate::table::{
    parse_decisions_table, rows_view, spec_parse_decisions_table, TableRow, TableRowView,
};
use crate::text::{
    after_last, after_last_of, chars_of, collapse_whitespace, collapse_ws, string_of, strings_of, strings_view,
    trim_end_matches, trim_end_matches_lit,
};

verus! {

/// Sidecar/filesystem signals the caller observed for the file being
/// classified; the classifier itself does no I/O.
#[derive(Clone, Copy, Debug, Default, PartialEq, Eq)]
pub struct SidecarSignals {
    /// A sibling `kep.yaml` exists next to this file.
    pub kep_yaml_sidecar: bool,
    /// An `.adr-dir` file names this file's directory as the ADR directory.
    pub adr_dir_marker: bool,
    /// A `.log4brains.yml` config names this file's directory as an ADR folder.
    pub log4brains_marker: bool,
}

/// The four doc-classes. The classifier chooses only `DecisionRecord` and
/// (for a KEP sidecar) `ProposalInFlight`.
#[derive(Clone, Copy, Debug, PartialEq, Eq)]
pub enum DocClass {
    /// A record of a decision already made (ADR, MADR, log4brains, DECISIONS.md).
    DecisionRecord,
    /// A proposal that is not yet a decision (RFC, PEP, KEP, ...).
    ProposalInFlight,
    /// A standing rule in force while present (CONTRIBUTING, style guides, ...).
    StandingRule,
    /// A runbook or playbook.
    Procedure,
}

/// How complete the parse is.
#[derive(Clone, Copy, Debug, PartialEq, Eq)]
pub enum ParseQuality {
    /// Status, section fingerprint and identity all matched a known shape.
    FullParse,
    /// Governance-shaped, but the status could not be resolved: `doc_state`
    /// is `"unknown"` and `governance_effective` is `false`.
    RecallOnly,
}

/// The classification of a markdown file as a governance document.
#[derive(Clone, Debug, PartialEq, Eq)]
pub struct GovernanceDoc {
    /// Which doc-class this document is.
    pub doc_class: DocClass,
    /// The canonical status, or `"unknown"` at `RecallOnly`.
    pub doc_state: String,
    /// True only for `accepted` (written, or MADR's implicit accepted).
    pub governance_effective: bool,
    /// How complete the parse is.
    pub parse_quality: ParseQuality,
    /// The H1, or (DECISIONS.md) the first row's decision text, with
    /// whitespace collapsed.
    pub title: String,
    /// The raw record number from the file name or the H1, when present.
    pub doc_id: Option<String>,
    /// Set only by an explicit non-falsy `ban:`/`policy:` front-matter key.
    pub ban: bool,
    /// The raw `governs:` front-matter selectors, in file order.
    pub governs: Vec<String>,
}

/// The model of `GovernanceDoc`.
#[verifier::ext_equal]
pub struct DocView {
    pub doc_class: DocClass,
    pub doc_state: Seq<char>,
    pub governance_effective: bool,
    pub parse_quality: ParseQuality,
    pub title: Seq<char>,
    pub doc_id: Option<Seq<char>>,
    pub ban: bool,
    pub governs: Seq<Seq<char>>,
}

pub open spec fn opt_string_view(o: Option<String>) -> Option<Seq<char>> {
    match o {
        Some(s) => Some(s@),
        None => None,
    }
}

impl View for GovernanceDoc {
    type V = DocView;

    open spec fn view(&self) -> DocView {
        DocView {
            doc_class: self.doc_class,
            doc_state: self.doc_state@,
            governance_effective: self.governance_effective,
            parse_quality: self.parse_quality,
            title: self.title@,
            doc_id: opt_string_view(self.doc_id),
            ban: self.ban,
            governs: strings_view(self.governs@),
        }
    }
}

pub open spec fn opt_doc_view(o: Option<GovernanceDoc>) -> Option<DocView> {
    match o {
        Some(d) => Some(d@),
        None => None,
    }
}

/// A decision record whose status is the canonical `state`; `effective` is
/// whether it is in force.
pub open spec fn full_parse_record(
    state: Seq<char>,
    effective: bool,
    title: Seq<char>,
    doc_id: Option<Seq<char>>,
    ban: bool,
    governs: Seq<Seq<char>>,
) -> DocView {
    DocView {
        doc_class: DocClass::DecisionRecord,
        doc_state: state,
        governance_effective: effective,
        parse_quality: ParseQuality::FullParse,
        title,
        doc_id,
        ban,
        governs,
    }
}

/// A decision record whose status could not be resolved.
pub open spec fn recall_only_record(
    title: Seq<char>,
    doc_id: Option<Seq<char>>,
    ban: bool,
    governs: Seq<Seq<char>>,
) -> DocView {
    DocView {
        doc_class: DocClass::DecisionRecord,
        doc_state: "unknown"@,
        governance_effective: false,
        parse_quality: ParseQuality::RecallOnly,
        title,
        doc_id,
        ban,
        governs,
    }
}

/// The H1 of the document as written (trimmed), or empty.
pub open spec fn spec_title(content: Seq<char>) -> Seq<char> {
    match spec_find_h1(content) {
        Some(h) => h,
        None => seq![],
    }
}

/// The classification of a DECISIONS.md table: its first row, full parse
/// when its status canonicalizes, else recall-only.
pub open spec fn spec_classify_decisions_table(rows: Seq<TableRowView>) -> Option<DocView> {
    if rows.len() == 0 {
        None
    } else {
        let row = rows[0];
        match row.status_raw {
            Some(raw) => match spec_canonicalize_status(raw) {
                Some(canon) => Some(
                    full_parse_record(
                        canon,
                        is_literal_accepted(raw),
                        collapse_ws(row.epitome),
                        None,
                        false,
                        seq![],
                    ),
                ),
                None => Some(recall_only_record(collapse_ws(row.epitome), None, false, seq![])),
            },
            None => Some(recall_only_record(collapse_ws(row.epitome), None, false, seq![])),
        }
    }
}

/// The record id, given what the regex crate captured (group 1) from the
/// file stem and from the title: the file stem's capture when its pattern
/// matched, else the title's.
pub open spec fn spec_doc_id_from_captures(
    from_file_name: Option<Option<Seq<char>>>,
    from_title: Option<Option<Seq<char>>>,
) -> Option<Seq<char>> {
    match from_file_name {
        Some(g) => g,
        None => match from_title {
            Some(g) => g,
            None => None,
        },
    }
}

/// The file stem a record id is read from: the name after the last `/`,
/// with `.md` suffixes removed.
pub open spec fn doc_id_stem(path: Seq<char>) -> Seq<char> {
    trim_end_matches(after_last(path, '/'), ".md"@)
}

/// The record id the regex crate captures from the file stem with
/// `DOC_ID_FILENAME_PATTERN`, or, when that pattern does not match, from the
/// title with `DOC_ID_TITLE_PATTERN`.
pub open spec fn spec_extract_doc_id(path: Seq<char>, title: Seq<char>) -> Option<Seq<char>> {
    spec_doc_id_from_captures(
        regex_group_one(DOC_ID_FILENAME_PATTERN@, doc_id_stem(path)),
        regex_group_one(DOC_ID_TITLE_PATTERN@, title),
    )
}

/// The first status found, in position order: front matter, bullet list,
/// `## Status` section, H1 suffix.
pub open spec fn first_status_hit(content: Seq<char>, h1_suffix: Option<Seq<char>>) -> Option<
    Seq<char>,
> {
    match spec_parse_front_matter(content).status {
        Some(s) => Some(s),
        None => match spec_find_bullet_status(content) {
            Some(s) => Some(s),
            None => match spec_find_status_section(content) {
                Some(s) => Some(s),
                None => h1_suffix,
            },
        },
    }
}

/// The classification, given what the regex crate reported: whether the
/// template status literal was found (`pipe_literal`), the H1-suffix status
/// (`h1_suffix`) and the record id (`doc_id`).
pub open spec fn spec_classify_from(
    path: Seq<char>,
    content: Seq<char>,
    sidecars: SidecarSignals,
    pipe_literal: bool,
    h1_suffix: Option<Seq<char>>,
    doc_id: Option<Seq<char>>,
) -> Option<DocView> {
    if spec_template_from(path, content, pipe_literal) {
        None
    } else if sidecars.kep_yaml_sidecar {
        Some(
            DocView {
                doc_class: DocClass::ProposalInFlight,
                doc_state: "unknown"@,
                governance_effective: false,
                parse_quality: ParseQuality::RecallOnly,
                title: collapse_ws(spec_title(content)),
                doc_id: None,
                ban: false,
                governs: seq![],
            },
        )
    } else if is_never_decision_filename(spec_file_name_lc(path)) {
        None
    } else if spec_looks_like_publishing_front_matter(content) {
        None
    } else if spec_looks_like_issue_template(content) {
        None
    } else if spec_looks_like_index_or_toc(content) {
        None
    } else if spec_looks_like_numbered_tutorial(path, content) {
        None
    } else {
        match spec_parse_decisions_table(content) {
            Some(rows) => spec_classify_decisions_table(rows),
            None => {
                let fm = spec_parse_front_matter(content);
                let nygard = spec_has_nygard_fingerprint(content);
                let madr = spec_has_madr_fingerprint(content);
                let title = collapse_ws(spec_title(content));
                if !nygard && !madr && !(fm.present && !fm.only_scope_or_publishing_keys) {
                    None
                } else {
                    match first_status_hit(content, h1_suffix) {
                        Some(raw) => match spec_canonicalize_status(raw) {
                            Some(canon) => Some(
                                full_parse_record(
                                    canon,
                                    is_literal_accepted(raw),
                                    title,
                                    doc_id,
                                    fm.ban,
                                    fm.governs,
                                ),
                            ),
                            None => Some(recall_only_record(title, doc_id, fm.ban, fm.governs)),
                        },
                        None => if madr {
                            Some(full_parse_record("accepted"@, true, title, doc_id, fm.ban, fm.governs))
                        } else if nygard || sidecars.adr_dir_marker || sidecars.log4brains_marker {
                            Some(recall_only_record(title, doc_id, fm.ban, fm.governs))
                        } else {
                            None
                        },
                    }
                }
            },
        }
    }
}

/// The classification of `(path, content, sidecars)`.
pub open spec fn spec_classify_governance_doc(
    path: Seq<char>,
    content: Seq<char>,
    sidecars: SidecarSignals,
) -> Option<DocView> {
    spec_classify_from(
        path,
        content,
        sidecars,
        spec_has_pipe_separated_status_literal(content),
        spec_find_h1_suffix_status(content),
        spec_extract_doc_id(path, spec_title(content)),
    )
}

fn text_of(v: Option<Vec<char>>) -> (r: Vec<char>)
    ensures
        r@ == match v {
            Some(s) => s@,
            None => seq![],
        },
{
    match v {
        Some(s) => s,
        None => {
            let e: Vec<char> = Vec::new();
            assert(e@ =~= seq![]);
            e
        },
    }
}

fn opt_string_of(v: Option<Vec<char>>) -> (r: Option<String>)
    ensures
        opt_string_view(r) == crate::front_matter::opt_view(v),
{
    match v {
        Some(s) => Some(string_of(&s)),
        None => None,
    }
}

fn record(
    canonical: Option<&'static str>,
    effective: bool,
    title: Vec<char>,
    doc_id: Option<String>,
    ban: bool,
    governs: Vec<String>,
) -> (r: GovernanceDoc)
    ensures
        r@ == match canonical {
            Some(c) => full_parse_record(
                c@,
                effective,
                collapse_ws(title@),
                opt_string_view(doc_id),
                ban,
                strings_view(governs@),
            ),
            None => recall_only_record(
                collapse_ws(title@),
                opt_string_view(doc_id),
                ban,
                strings_view(governs@),
            ),
        },
{
    let t = collapse_whitespace(&title);
    match canonical {
        Some(c) => GovernanceDoc {
            doc_class: DocClass::DecisionRecord,
            doc_state: c.to_owned(),
            governance_effective: effective,
            parse_quality: ParseQuality::FullParse,
            title: string_of(&t),
            doc_id,
            ban,
            governs,
        },
        None => GovernanceDoc {
            doc_class: DocClass::DecisionRecord,
            doc_state: "unknown".to_owned(),
            governance_effective: false,
            parse_quality: ParseQuality::RecallOnly,
            title: string_of(&t),
            doc_id,
            ban,
            governs,
        },
    }
}

/// Classify a parsed DECISIONS.md table by its first row.
pub fn classify_decisions_table(rows: &Vec<TableRow>) -> (r: Option<GovernanceDoc>)
    ensures
        opt_doc_view(r) == spec_classify_decisions_table(rows_view(rows@)),
{
    if rows.len() == 0 {
        return None;
    }
    let row = &rows[0];
    assert(rows_view(rows@)[0] == row@);
    let title = crate::text::copy_range(&row.epitome, 0, row.epitome.len());
    assert(title@ =~= row.epitome@);
    let none: Vec<String> = Vec::new();
    assert(strings_view(none@) =~= seq![]);
    match &row.status_raw {
        Some(raw) => Some(
            record(canonicalize_status(raw), literal_accepted(raw), title, None, false, none),
        ),
        None => Some(record(None, false, title, None, false, none)),
    }
}

pub open spec fn opt_opt_string_view(o: Option<Option<String>>) -> Option<Option<Seq<char>>> {
    match o {
        Some(g) => Some(opt_string_view(g)),
        None => None,
    }
}

/// The record id, given the regex crate's group-1 captures from the file
/// stem and from the title (`None`: the pattern did not match).
pub fn doc_id_from_captures(
    from_file_name: Option<Option<String>>,
    from_title: Option<Option<String>>,
) -> (r: Option<String>)
    ensures
        opt_string_view(r) == spec_doc_id_from_captures(
            opt_opt_string_view(from_file_name),
            opt_opt_string_view(from_title),
        ),
{
    match from_file_name {
        Some(g) => g,
        None => match from_title {
            Some(g) => g,
            None => None,
        },
    }
}

/// The raw record number from the file name (`0001-...`) or the title
/// (`857. ...`, `ADR-012: ...`), as the regex crate captures it.
pub fn extract_doc_id(path: &str, title: &str) -> (r: Option<String>)
    ensures
        opt_string_view(r) == spec_extract_doc_id(path@, title@),
{
    let p = chars_of(path);
    let base = after_last_of(&p, '/');
    let name = trim_end_matches_lit(&base, ".md");
    let name_s = string_of(&name);
    let from_file_name = regex_capture_one(DOC_ID_FILENAME_PATTERN, name_s.as_str());
    let from_title = regex_capture_one(DOC_ID_TITLE_PATTERN, title);
    doc_id_from_captures(from_file_name, from_title)
}

/// The classification, given what the regex crate reported for the document:
/// whether `PIPE_STATUS_PATTERN` matched the content, the H1-suffix status
/// captured with `H1_SUFFIX_PATTERN`, and the record id captured from the file
/// name or title.
pub fn classify_with_pattern_results(
    path: &str,
    content: &str,
    sidecars: &SidecarSignals,
    pipe_literal: bool,
    h1_suffix_status: Option<String>,
    doc_id: Option<String>,
) -> (r: Option<GovernanceDoc>)
    ensures
        opt_doc_view(r) == spec_classify_from(
            path@,
            content@,
            *sidecars,
            pipe_literal,
            opt_string_view(h1_suffix_status),
            opt_string_view(doc_id),
        ),
{
    let p = chars_of(path);
    let c = chars_of(content);
    if template_from(&p, &c, pipe_literal) {
        return None;
    }
    if sidecars.kep_yaml_sidecar {
        let title = text_of(find_h1(&c));
        let none: Vec<String> = Vec::new();
        let d = GovernanceDoc {
            doc_class: DocClass::ProposalInFlight,
            doc_state: "unknown".to_owned(),
            governance_effective: false,
            parse_quality: ParseQuality::RecallOnly,
            title: string_of(&collapse_whitespace(&title)),
            doc_id: None,
            ban: false,
            governs: none,
        };
        assert(d@.governs =~= seq![]);
        return Some(d);
    }
    let name = file_name_lc(&p);
    if never_decision_filename(&name) {
        return None;
    }
    if looks_like_publishing_front_matter(&c) {
        return None;
    }
    if looks_like_issue_template(&c) {
        return None;
    }
    if looks_like_index_or_toc(&c) {
        return None;
    }
    if looks_like_numbered_tutorial(&p, &c) {
        return None;
    }
    match parse_decisions_table(&c) {
        Some(rows) => {
            return classify_decisions_table(&rows);
        },
        None => {},
    }
    let fm = parse_front_matter(&c);
    let nygard = has_nygard_fingerprint(&c);
    let madr = has_madr_fingerprint(&c);
    if !nygard && !madr && !(fm.present && !fm.only_scope_or_publishing_keys) {
        return None;
    }
    let title = text_of(find_h1(&c));
    let governs = strings_of(&fm.governs);
    let raw_hit: Option<Vec<char>> = match fm.status {
        Some(s) => Some(s),
        None => match find_bullet_status(&c) {
            Some(s) => Some(s),
            None => match find_status_section(&c) {
                Some(s) => Some(s),
                None => match h1_suffix_status {
                    Some(s) => Some(chars_of(s.as_str())),
                    None => None,
                },
            },
        },
    };
    match raw_hit {
        Some(raw) => Some(
            record(
                canonicalize_status(&raw),
                literal_accepted(&raw),
                title,
                doc_id,
                fm.ban,
                governs,
            ),
        ),
        None => if madr {
            Some(record(Some("accepted"), true, title, doc_id, fm.ban, governs))
        } else if nygard || sidecars.adr_dir_marker || sidecars.log4brains_marker {
            Some(record(None, false, title, doc_id, fm.ban, governs))
        } else {
            None
        },
    }
}

/// Classify a markdown-ish file as a governance document, or `None` when it
/// is not governance at all. Pure: the result depends only on
/// `(path, content, sidecars)`, and it never panics.
pub fn classify_governance_doc(path: &str, content: &str, sidecars: &SidecarSignals) -> (r:
    Option<GovernanceDoc>)
    ensures
        opt_doc_view(r) == spec_classify_governance_doc(path@, content@, *sidecars),
{
    let c = chars_of(content);
    let pipe = has_pipe_separated_status_literal(content);
    let h1_suffix = opt_string_of(find_h1_suffix_status(&c));
    let title = string_of(&text_of(find_h1(&c)));
    let doc_id = extract_doc_id(path, title.as_str());
    classify_with_pattern_results(path, content, sidecars, pipe, h1_suffix, doc_id)
}

} // verus!
