use memscribe_core::front_matter::{is_yaml_falsy, is_yaml_truthy, parse_flow_list, parse_front_matter};
use memscribe_core::gates::{
    has_pipe_separated_status_literal, is_template_or_placeholder, is_whole_word_match,
    looks_like_index_or_toc, looks_like_numbered_tutorial,
};
use memscribe_core::governance_doc::{
    classify_governance_doc, classify_with_pattern_results, doc_id_from_captures, extract_doc_id,
    DocClass,
    ParseQuality, SidecarSignals,
};
use memscribe_core::positions::{
    body_before_first_h2, find_bullet_status, find_h1, find_h1_suffix_status, find_status_section,
};
use memscribe_core::status::{canonicalize_status, strip_trailing_annotation};
use memscribe_core::table::parse_decisions_table;

fn chars(s: &str) -> Vec<char> {
    s.chars().collect()
}

fn text(v: &[char]) -> String {
    v.iter().collect()
}

#[test]
fn canonicalize_strips_annotations_and_decoration() {
    assert_eq!(canonicalize_status(&chars("Implemented (Swift 5.0)")), Some("accepted"));
    assert_eq!(canonicalize_status(&chars("  **Accepted**  ")), Some("accepted"));
    assert_eq!(canonicalize_status(&chars("`Rejected`")), Some("rejected"));
    assert_eq!(canonicalize_status(&chars("Obsolete")), Some("deprecated"));
    assert_eq!(canonicalize_status(&chars("In Review")), Some("proposed"));
    assert_eq!(canonicalize_status(&chars("Amended by [2](0002-x.md)")), Some("amended"));
    assert_eq!(canonicalize_status(&chars("Replaced by 0007")), Some("superseded"));
    assert_eq!(canonicalize_status(&chars("shipped")), None);
    assert_eq!(canonicalize_status(&chars("")), None);
}

#[test]
fn both_supersession_spellings_canonicalize_alike() {
    assert_eq!(canonicalize_status(&chars("Superceded by [5](0005.md)")), Some("superseded"));
    assert_eq!(canonicalize_status(&chars("SUPERSEDED")), Some("superseded"));
}

#[test]
fn whole_word_match_needs_non_alphanumeric_boundaries() {
    assert!(!is_whole_word_match(&chars("tbdomain"), &chars("tbd")));
    assert!(!is_whole_word_match(&chars("xtbd"), &chars("tbd")));
    assert!(is_whole_word_match(&chars("status: tbd."), &chars("tbd")));
    assert!(is_whole_word_match(&chars("tbd"), &chars("tbd")));
    assert!(!is_whole_word_match(&chars("tbd-free"), &chars("tbd")));
    assert!(!is_whole_word_match(&chars("pre-tbd"), &chars("tbd")));
    assert!(is_whole_word_match(&chars("(tbd)"), &chars("tbd")));
    assert!(is_whole_word_match(&chars("tbdx tbd"), &chars("tbd")));
    assert!(!is_whole_word_match(&chars("anything"), &chars("")));
}

#[test]
fn pipe_status_literal_is_found_by_the_regex() {
    assert!(has_pipe_separated_status_literal("{proposed | rejected | accepted}"));
    assert!(has_pipe_separated_status_literal("[Draft | Proposed | Accepted]"));
    assert!(!has_pipe_separated_status_literal("proposed, rejected, accepted"));
}

#[test]
fn template_gate_signals() {
    assert!(is_template_or_placeholder("doc/adr/template.md", "# x"));
    assert!(is_template_or_placeholder("doc/adr/0000-foo.md", "# x"));
    assert!(is_template_or_placeholder("doc/adr/0001-x.md", "Status: TBD"));
    assert!(is_template_or_placeholder("doc/adr/0001-x.md", "## Status\n{status}\n"));
    assert!(!is_template_or_placeholder("doc/adr/0001-x.md", "We use tbdomain hosting."));
    assert!(!is_template_or_placeholder("doc/adr/0001-x.md", "A TBD-free plan."));
}

#[test]
fn doc_id_from_file_name_then_title() {
    assert_eq!(extract_doc_id("doc/adr/0009-use-postgres.md", "9. Use Postgres"), Some("0009".to_string()));
    assert_eq!(extract_doc_id("docs/adr/capability.md", "857. Capability system"), Some("857".to_string()));
    assert_eq!(extract_doc_id("docs/adr/x.md", "ADR-012: Title"), Some("012".to_string()));
    assert_eq!(extract_doc_id("docs/adr/x.md", "Plain title"), None);
}

#[test]
fn h1_and_h1_suffix_status() {
    let c = chars("intro\n# 857. Capability system [Proposed]\n## Context\n");
    assert_eq!(find_h1(&c).map(|v| text(&v)), Some("857. Capability system [Proposed]".to_string()));
    assert_eq!(find_h1_suffix_status(&c).map(|v| text(&v)), Some("Proposed".to_string()));
    assert_eq!(find_h1_suffix_status(&chars("# Plain title\n")), None);
    assert_eq!(find_h1(&chars("#\nbody")).map(|v| text(&v)), Some(String::new()));
    assert_eq!(find_h1(&chars("no heading")), None);
}

#[test]
fn status_section_takes_its_last_non_empty_line() {
    let c = chars("# T\n\n## Status\n\nProposed\n\nAccepted\n\n## Context\nLater\n");
    assert_eq!(find_status_section(&c).map(|v| text(&v)), Some("Accepted".to_string()));
    assert_eq!(find_status_section(&chars("# T\n## STATUS\n\n## Context\n")), None);
}

#[test]
fn bullet_status_lives_between_h1_and_first_h2() {
    let c = chars("# T\n\n* Status: **Accepted**\n* Date: x\n\n## Context\n- Status: Rejected\n");
    assert_eq!(text(&body_before_first_h2(&c)), "\n* Status: **Accepted**\n* Date: x\n");
    assert_eq!(find_bullet_status(&c).map(|v| text(&v)), Some("Accepted".to_string()));
    let after = chars("# T\n\n## Context\n- Status: Rejected\n");
    assert_eq!(find_bullet_status(&after), None);
}

#[test]
fn front_matter_flow_and_block_lists() {
    let fm = parse_front_matter(&chars("---\nstatus: \"accepted\"\ngoverns: [a, 'b', ]\n---\n# T\n"));
    assert!(fm.present);
    assert_eq!(fm.status.map(|v| text(&v)), Some("accepted".to_string()));
    assert_eq!(fm.governs.iter().map(|v| text(v)).collect::<Vec<_>>(), vec!["a", "b"]);
    let fm = parse_front_matter(&chars("---\ngoverns:\n  - x\n  -\n  - \"y\"\nban: yes\n---\n"));
    assert_eq!(fm.governs.iter().map(|v| text(v)).collect::<Vec<_>>(), vec!["x", "y"]);
    assert!(fm.ban);
    assert!(fm.only_scope_or_publishing_keys == false);
}

#[test]
fn front_matter_needs_a_closing_fence() {
    let fm = parse_front_matter(&chars("---\nstatus: accepted\n# no closing fence\n"));
    assert!(!fm.present);
    assert!(fm.status.is_none());
    let fm = parse_front_matter(&chars("\u{feff}---\nlayout: post\n...\n"));
    assert!(fm.present);
    assert!(fm.has_publishing_keys);
    assert!(fm.only_scope_or_publishing_keys);
    let fm = parse_front_matter(&chars("---\nban: false\npolicy: \"\"\n---\n"));
    assert!(fm.present);
    assert!(!fm.ban);
}

#[test]
fn decisions_table_rows_and_title_fallback() {
    let c = chars("# Log\n\n| Date | Decision | Status |\n|---|---|:-:|\n| 2024 | Use X | Accepted |\n| 2025 |  | |\nafter\n");
    let rows = parse_decisions_table(&c).unwrap();
    assert_eq!(rows.len(), 2);
    assert_eq!(text(&rows[0].epitome), "Use X");
    assert_eq!(rows[0].status_raw.as_ref().map(|v| text(v)), Some("Accepted".to_string()));
    assert_eq!(text(&rows[1].epitome), "2025");
    assert!(rows[1].status_raw.is_none());
    assert!(parse_decisions_table(&chars("| a | b |\nno separator\n")).is_none());
}

#[test]
fn decisions_table_rows_are_trimmed_and_lineless_content_has_none() {
    let c = chars("| Decision | Status |\n|---|---|\n|   Adopt   Y  |  Proposed  |\n|  |  |\n");
    let rows = parse_decisions_table(&c).unwrap();
    assert!(!rows.is_empty());
    for row in &rows {
        let e = text(&row.epitome);
        assert!(!e.is_empty());
        assert_eq!(e.trim(), e);
        if let Some(s) = &row.status_raw {
            let s = text(s);
            assert!(!s.is_empty());
            assert_eq!(s.trim(), s);
        }
    }
    assert_eq!(text(&rows[0].epitome), "Adopt   Y");
    assert!(parse_decisions_table(&chars("# Title\n\nStatus: Accepted\n| only two |\n")).is_none());
}

#[test]
fn lookalike_gates() {
    assert!(looks_like_index_or_toc(&chars("# ADRs\n\n- [1. A](0001-a.md)\n* [2. B](0002-b.md)\n")));
    assert!(!looks_like_index_or_toc(&chars("")));
    assert!(!looks_like_index_or_toc(&chars("# ADRs\nSome prose.\n")));
    assert!(looks_like_numbered_tutorial(&chars("docs/0002_setup.md"), &chars("# Setup\n## Step 1\nDo it.\n")));
    assert!(!looks_like_numbered_tutorial(&chars("docs/setup.md"), &chars("# Setup\n")));
    assert!(!looks_like_numbered_tutorial(&chars("docs/0002-setup.md"), &chars("# Setup\n## Status\nAccepted\n")));
}

#[test]
fn pattern_results_drive_the_classification() {
    let content = "# Some title\n\n## Context\nc\n\n## Decision\nd\n";
    let none = SidecarSignals::default();
    let d = classify_with_pattern_results("doc/adr/x.md", content, &none, false, Some("Accepted".to_string()), Some("42".to_string())).unwrap();
    assert_eq!(d.doc_state, "accepted");
    assert_eq!(d.doc_id.as_deref(), Some("42"));
    assert!(classify_with_pattern_results("doc/adr/x.md", content, &none, true, None, None).is_none());
    let d = classify_with_pattern_results("doc/adr/x.md", content, &none, false, None, None).unwrap();
    assert_eq!(d.parse_quality, ParseQuality::RecallOnly);
}

#[test]
fn template_gate_runs_before_the_kep_sidecar() {
    let kep = SidecarSignals { kep_yaml_sidecar: true, ..Default::default() };
    assert!(classify_governance_doc("keps/x/README.md", "# KEP\nTBD\n", &kep).is_none());
    let d = classify_governance_doc("keps/x/README.md", "no heading at all", &kep).unwrap();
    assert_eq!(d.doc_class, DocClass::ProposalInFlight);
    assert_eq!(d.doc_state, "unknown");
    assert_eq!(d.title, "");
    assert!(d.doc_id.is_none() && !d.ban && d.governs.is_empty());
}

#[test]
fn never_decision_file_names_ignore_location_hints() {
    let adr_dir = SidecarSignals { adr_dir_marker: true, ..Default::default() };
    let content = "# 1. X\n\n## Status\n\nAccepted\n\n## Context\nc\n\n## Decision\nd\n";
    assert!(classify_governance_doc("doc/adr/SECURITY.md", content, &adr_dir).is_none());
    assert!(classify_governance_doc("doc/adr/0001-x.md", content, &adr_dir).is_some());
}

#[test]
fn status_less_doc_defaults_only_with_madr_fingerprint() {
    let nygard = "# 5. X\n\n## Context\nc\n\n## Decision\nd\n";
    let d = classify_governance_doc("doc/adr/0005-x.md", nygard, &SidecarSignals::default()).unwrap();
    assert!(!d.governance_effective);
    assert_eq!(d.parse_quality, ParseQuality::RecallOnly);
    let madr = "# X\n\n## Considered Options\n\n* A\n";
    let d = classify_governance_doc("doc/adr/0005-x.md", madr, &SidecarSignals::default()).unwrap();
    assert!(d.governance_effective);
    assert_eq!(d.doc_state, "accepted");
}

#[test]
fn unknown_status_word_is_recall_only_and_unknown() {
    let content = "# 2. X\n\n## Status\n\nShipped\n\n## Context\nc\n\n## Decision\nd\n";
    let d = classify_governance_doc("doc/adr/0002-x.md", content, &SidecarSignals::default()).unwrap();
    assert_eq!(d.doc_state, "unknown");
    assert_eq!(d.parse_quality, ParseQuality::RecallOnly);
    assert!(!d.governance_effective);
    assert_eq!(d.doc_id.as_deref(), Some("0002"));
}

#[test]
fn front_matter_status_wins_over_section_status() {
    let content = "---\nstatus: rejected\n---\n# 3. X\n\n## Status\n\nAccepted\n\n## Context\nc\n\n## Decision\nd\n";
    let d = classify_governance_doc("doc/adr/0003-x.md", content, &SidecarSignals::default()).unwrap();
    assert_eq!(d.doc_state, "rejected");
    assert!(!d.governance_effective);
}

#[test]
fn near_synonyms_of_accepted_are_not_effective() {
    for status in ["Implemented", "Final", "Published", "Approved", "Accepted with revisions"] {
        let content = format!("# 4. X\n\n## Status\n\n{status}\n\n## Context\nc\n\n## Decision\nd\n");
        let d = classify_governance_doc("doc/adr/0004-x.md", &content, &SidecarSignals::default()).unwrap();
        assert_eq!(d.doc_state, "accepted", "{status}");
        assert_eq!(d.parse_quality, ParseQuality::FullParse);
        assert!(!d.governance_effective, "{status}");
    }
    let content = "# 4. X\n\n## Status\n\n**Accepted** (2024-01-05)\n\n## Context\nc\n\n## Decision\nd\n";
    let d = classify_governance_doc("doc/adr/0004-x.md", content, &SidecarSignals::default()).unwrap();
    assert!(d.governance_effective);
}

#[test]
fn title_is_whitespace_collapsed() {
    let content = "#   4.  Use\tPostgres   here  \n\n## Status\n\nAccepted\n\n## Context\nc\n\n## Decision\nd\n";
    let d = classify_governance_doc("doc/adr/x.md", content, &SidecarSignals::default()).unwrap();
    assert_eq!(d.title, "4. Use Postgres here");
    assert_eq!(d.doc_id.as_deref(), Some("4"));
    let table = "| Date | Decision | Status |\n|---|---|---|\n| d |  Use   X  | Rejected |\n";
    let d = classify_governance_doc("DECISIONS.md", table, &SidecarSignals::default()).unwrap();
    assert_eq!(d.title, "Use X");
    assert_eq!(d.doc_state, "rejected");
    assert!(d.doc_id.is_none());
}

#[test]
fn canonicalization_ignores_case() {
    for (a, b) in [("ACCEPTED", "accepted"), ("Closed / Rejected", "closed / rejected"), ("Proposed To Drop", "proposed to drop")] {
        assert_eq!(canonicalize_status(&chars(a)), canonicalize_status(&chars(b)));
        assert!(canonicalize_status(&chars(a)).is_some());
    }
}

#[test]
fn file_name_capture_wins_over_title_capture() {
    let s = |x: &str| Some(x.to_string());
    assert_eq!(doc_id_from_captures(Some(s("0007")), Some(s("7"))), s("0007"));
    assert_eq!(doc_id_from_captures(Some(None), Some(s("7"))), None);
    assert_eq!(doc_id_from_captures(None, Some(s("7"))), s("7"));
    assert_eq!(doc_id_from_captures(None, None), None);
    assert_eq!(extract_doc_id("a/b/20240410-event.md.md", "x"), s("20240410"));
    assert_eq!(extract_doc_id("a/b/123-short.md", "ADR-9. Title"), s("9"));
}

#[test]
fn flow_lists_are_total() {
    let items = |v: &str| parse_flow_list(&chars(v)).map(|l| l.iter().map(|x| text(x)).collect::<Vec<_>>());
    assert_eq!(items("[]"), Some(vec![]));
    assert_eq!(items(" [ , '' ] "), Some(vec![]));
    assert_eq!(items("[a, \"b c\"]"), Some(vec!["a".to_string(), "b c".to_string()]));
    assert_eq!(items("a, b"), None);
    assert_eq!(items("[a, b"), None);
}

#[test]
fn yaml_truthy_and_falsy_words() {
    for v in ["true", " YES ", "On", "1"] {
        assert!(is_yaml_truthy(&chars(v)));
        assert!(!is_yaml_falsy(&chars(v)));
    }
    for v in ["", "  ", "False", "no", "OFF", "0"] {
        assert!(is_yaml_falsy(&chars(v)));
        assert!(!is_yaml_truthy(&chars(v)));
    }
    assert!(!is_yaml_falsy(&chars("no secrets in the repo")));
}

#[test]
fn trailing_links_and_annotations_are_stripped() {
    let strip = |s: &str| text(&strip_trailing_annotation(&chars(s)));
    assert_eq!(strip("superseded by [xxx](yyyymmdd-xxx.md)"), "superseded by");
    assert_eq!(strip("  Implemented (Swift 5.0) "), "Implemented");
    assert_eq!(strip("Accepted [ADR-5]"), "Accepted");
    assert_eq!(strip("Superceded by [x] (y)"), "Superceded by");
    assert_eq!(strip("[Accepted](x.md)"), "[Accepted](x.md)");
    assert_eq!(strip("Accepted"), "Accepted");
    assert_eq!(canonicalize_status(&chars("Accepted [ADR-5](0005.md)")), Some("accepted"));
    let content = "# 6. X\n\n## Status\n\nAccepted [ADR-5](0005-y.md)\n\n## Context\nc\n\n## Decision\nd\n";
    let d = classify_governance_doc("doc/adr/0006-x.md", content, &SidecarSignals::default()).unwrap();
    assert_eq!(d.doc_state, "accepted");
    assert!(d.governance_effective);
}

#[test]
fn ban_counts_only_top_level_keys_inside_the_fence() {
    assert!(!parse_front_matter(&chars("---\nstatus: accepted\n---\nban: true\n")).ban);
    assert!(!parse_front_matter(&chars("---\nmeta:\n  ban: true\n---\n")).ban);
    assert!(parse_front_matter(&chars("---\nPolicy: Off-hours deploys are banned\n---\n")).ban);
    assert!(!parse_front_matter(&chars("---\nban: OFF\n---\n")).ban);
}
