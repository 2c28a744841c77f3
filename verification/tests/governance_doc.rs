use memscribe_core::governance_doc::{
    classify_governance_doc, DocClass, GovernanceDoc, ParseQuality, SidecarSignals,
};

fn classify(path: &str, content: &str) -> Option<GovernanceDoc> {
    classify_governance_doc(path, content, &SidecarSignals::default())
}

// -- Nygard-style ADR (adr-tools) -----------------------------------

#[test]
fn nygard_accepted_is_full_parse_and_effective() {
    let content = "\
# 9. Use Postgres for the orders service

Date: 2024-01-05

## Status

Accepted

## Context

We need a relational store for the orders service.

## Decision

We will use Postgres.

## Consequences

Operational familiarity across the team.
";
    let d = classify("doc/adr/0009-use-postgres.md", content).unwrap();
    assert_eq!(d.doc_class, DocClass::DecisionRecord);
    assert_eq!(d.doc_state, "accepted");
    assert!(d.governance_effective);
    assert_eq!(d.parse_quality, ParseQuality::FullParse);
    assert_eq!(d.doc_id.as_deref(), Some("0009"));
}

/// NAMED TRAP: adr-tools' historical "Superceded" (sic) misspelling.
#[test]
fn adr_tools_superceded_misspelling_normalizes() {
    let content = "\
# 3. Old choice

## Status

Superceded by [5. New choice](0005-new-choice.md)

## Context

Ctx.

## Decision

Old decision.

## Consequences

None.
";
    let d = classify("doc/adr/0003-old-choice.md", content).unwrap();
    assert_eq!(d.doc_state, "superseded");
    assert!(!d.governance_effective);
}

#[test]
fn adr_tools_correctly_spelled_superseded_also_normalizes() {
    let content = "\
# 3. Old choice

## Status

Superseded by [5. New choice](0005-new-choice.md)

## Context

Ctx.

## Decision

Old decision.

## Consequences

None.
";
    let d = classify("doc/adr/0003-old-choice.md", content).unwrap();
    assert_eq!(d.doc_state, "superseded");
}

/// NAMED TRAP: multi-line "## Status" section — only the LAST non-empty
/// line is authoritative (accretion via `adr link`-style edits).
#[test]
fn multiline_status_section_last_line_wins() {
    let content = "\
# 12. Choose a diff algorithm

## Status

Accepted

Amended by [15. Refine diff algorithm](0015-refine-diff.md)

## Context

Ctx.

## Decision

Use histogram diff.

## Consequences

Faster diffs.
";
    let d = classify("doc/adr/0012-diff-algo.md", content).unwrap();
    assert_eq!(d.doc_state, "amended");
}

/// NAMED TRAP: status expressed as an H1 suffix, exactly the founder's
/// ADR-857 example from the design doc.
#[test]
fn h1_suffix_status_is_recognized() {
    let content = "\
# 857. Capability system [Proposed]

## Context

We need a capability system.

## Decision

Introduce a CapabilityRegistry.

## Consequences

New abstraction to maintain.
";
    let d = classify("docs/adr/857-capability-system.md", content).unwrap();
    assert_eq!(d.doc_state, "proposed");
    assert!(!d.governance_effective);
    assert_eq!(d.doc_id.as_deref(), Some("857"));
}

#[test]
fn nygard_without_status_section_is_recall_only() {
    let content = "\
# 20. Some old decision

## Context

Ctx.

## Decision

Did the thing.

## Consequences

Some.
";
    let d = classify("doc/adr/0020-some-old-decision.md", content).unwrap();
    assert_eq!(d.parse_quality, ParseQuality::RecallOnly);
    assert_eq!(d.doc_state, "unknown");
    assert!(!d.governance_effective);
}

// -- MADR 2.x (bold-bullet status) ----------------------------------

/// NAMED TRAP: status expressed as a bold-bullet list item.
#[test]
fn madr_2x_bold_bullet_status_accepted() {
    let content = "\
# Use Redis for session storage

* Status: Accepted
* Deciders: alice, bob
* Date: 2024-02-01

## Context and Problem Statement

We need shared session storage across instances.

## Considered Options

* Redis
* In-memory

## Decision Outcome

Chosen option: \"Redis\", because it is already in our stack.
";
    let d = classify("docs/adr/0001-redis-sessions.md", content).unwrap();
    assert_eq!(d.doc_class, DocClass::DecisionRecord);
    assert_eq!(d.doc_state, "accepted");
    assert!(d.governance_effective);
}

#[test]
fn madr_2x_status_rejected() {
    let content = "\
# Use GraphQL for the public API

- Status: Rejected
- Deciders: team

## Context and Problem Statement

Should we expose GraphQL?

## Considered Options

* GraphQL
* REST

## Decision Outcome

Chosen option: \"REST\", because simpler operationally.
";
    let d = classify("docs/adr/0002-graphql.md", content).unwrap();
    assert_eq!(d.doc_state, "rejected");
    assert!(!d.governance_effective);
}

// -- MADR 3.x/4.x (YAML front matter) -------------------------------

#[test]
fn madr_3x_yaml_status_accepted() {
    let content = "\
---
status: accepted
date: 2024-03-01
deciders: alice, bob
---

# Use RaBitQ for vector compression

## Context and Problem Statement

We need cheaper vector storage.

## Considered Options

* RaBitQ
* int8

## Decision Outcome

Chosen option: \"RaBitQ\", because of the compression ratio.
";
    let d = classify("docs/decisions/0007-rabitq.md", content).unwrap();
    assert_eq!(d.doc_state, "accepted");
    assert!(d.governance_effective);
}

#[test]
fn madr_4x_decision_makers_key_status_proposed() {
    let content = "\
---
status: proposed
decision-makers: alice, bob
---

# Adopt a new retry policy

## Context and Problem Statement

Retries are ad hoc today.

## Considered Options

* Exponential backoff
* Fixed delay

## Decision Outcome

Chosen option: \"Exponential backoff\".
";
    let d = classify("docs/decisions/0011-retry-policy.md", content).unwrap();
    assert_eq!(d.doc_state, "proposed");
    assert!(!d.governance_effective);
}

/// NAMED TRAP: MADR 3.x/4.x with no status field present defaults to
/// Accepted — but ONLY because the section fingerprint matches MADR.
#[test]
fn madr_absent_status_defaults_to_accepted_when_fingerprint_matches() {
    let content = "\
# Use trunk-based development

## Context and Problem Statement

We need a branching strategy.

## Considered Options

* Trunk-based
* GitFlow

## Decision Outcome

Chosen option: \"Trunk-based\", because it minimizes merge pain.
";
    let d = classify("docs/decisions/0004-trunk-based.md", content).unwrap();
    assert_eq!(d.doc_state, "accepted");
    assert!(d.governance_effective);
    assert_eq!(d.parse_quality, ParseQuality::FullParse);
}

/// The flip side of the trap above: a random status-less doc that does
/// NOT match the MADR fingerprint must NOT be defaulted to accepted.
#[test]
fn status_less_doc_without_madr_fingerprint_is_not_defaulted() {
    let content = "\
# Some notes

Just some prose about the system with no decision structure at all,
no Context/Decision/Consequences headings, nothing MADR-shaped.
";
    assert!(classify("docs/notes.md", content).is_none());
}

// -- log4brains (sidecar-marked) -------------------------------------

#[test]
fn log4brains_status_accepted() {
    let content = "\
# Use event sourcing for the ledger

- Status: accepted
- Date: 2024-04-10
- Tags: ledger

Technical Story: LEDGER-42

## Context and Problem Statement

We need an auditable ledger.

## Decision Outcome

Chosen option: \"Event sourcing\".
";
    let sidecars = SidecarSignals {
        log4brains_marker: true,
        ..Default::default()
    };
    let d = classify_governance_doc("docs/adr/20240410-event-sourcing.md", content, &sidecars)
        .unwrap();
    assert_eq!(d.doc_state, "accepted");
    assert!(d.governance_effective);
}

#[test]
fn log4brains_draft_is_proposed_family_not_effective() {
    let content = "\
# Draft idea

- Status: draft
- Date: 2024-04-11

## Context and Problem Statement

Early idea, not yet settled.

## Decision Outcome

Chosen option: \"early sketch, revisit later\".
";
    let sidecars = SidecarSignals {
        log4brains_marker: true,
        ..Default::default()
    };
    let d =
        classify_governance_doc("docs/adr/20240411-draft-idea.md", content, &sidecars).unwrap();
    assert_eq!(d.doc_state, "proposed");
    assert!(!d.governance_effective);
}

// -- DECISIONS.md (table-row-is-the-record) --------------------------

#[test]
fn decisions_md_table_row_is_the_record() {
    let content = "\
# Decisions

| Date | Decision | Status | Rationale |
|------|----------|--------|-----------|
| 2024-01-01 | Use Postgres for orders | Accepted | Team familiarity |
| 2024-02-01 | Use GraphQL for public API | Rejected | Too complex ops |
";
    let d = classify("DECISIONS.md", content).unwrap();
    assert_eq!(d.doc_class, DocClass::DecisionRecord);
    assert_eq!(d.title, "Use Postgres for orders");
    assert_eq!(d.doc_state, "accepted");
    assert!(d.governance_effective);
}

#[test]
fn decisions_md_table_without_status_column_is_recall_only() {
    let content = "\
# Decision Log

| Date | Decision |
|------|----------|
| 2024-01-01 | Use Postgres for orders |
";
    let d = classify("DECISIONS.md", content).unwrap();
    assert_eq!(d.parse_quality, ParseQuality::RecallOnly);
    assert!(!d.governance_effective);
}

// -- kep.yaml sidecar --------------------------------------------------

#[test]
fn kep_yaml_sidecar_routes_to_recall_only_proposal() {
    let content = "\
# Node swap KEP

## Summary

Add swap support to kubelet.
";
    let sidecars = SidecarSignals {
        kep_yaml_sidecar: true,
        ..Default::default()
    };
    let d =
        classify_governance_doc("keps/sig-node/2400-node-swap/README.md", content, &sidecars)
            .unwrap();
    assert_eq!(d.doc_class, DocClass::ProposalInFlight);
    assert_eq!(d.parse_quality, ParseQuality::RecallOnly);
    assert!(!d.governance_effective);
}

// -- Anti-lookalike gates --------------------------------------------

/// REJECTION: template file with placeholder id + pipe-separated status.
#[test]
fn rejects_adr_template() {
    let content = "\
# NNNN. Title of the ADR

## Status

{proposed | rejected | accepted | deprecated | superseded}

## Context

TBD

## Decision

Fill me in.

## Consequences

TBD
";
    assert!(classify("doc/adr/0000-template.md", content).is_none());
}

/// REJECTION: generated table-of-contents / index.md.
#[test]
fn rejects_generated_toc_index() {
    let content = "\
# Architecture Decision Records

- [1. Record architecture decisions](0001-record-architecture-decisions.md)
- [2. Use Postgres](0002-use-postgres.md)
- [3. Use Redis](0003-use-redis.md)
";
    assert!(classify("doc/adr/index.md", content).is_none());
}

/// REJECTION: a numbered tutorial with no status field.
#[test]
fn rejects_numbered_tutorial_without_status() {
    let content = "\
# Getting started

## Step 1: install

Run the installer.

## Step 2: configure

Edit the config file.

## Step 3: run

Start the service.
";
    assert!(classify("docs/0001-getting-started.md", content).is_none());
}

/// REJECTION: Jekyll blog post with `status: published` front matter.
#[test]
fn rejects_jekyll_blog_post_with_status_published() {
    let content = "\
---
layout: post
title: \"Our new architecture\"
status: published
permalink: /blog/our-new-architecture/
---

# Our new architecture

We rebuilt the whole thing and here is a narrative about it, written for
a general audience, not a decision record.
";
    assert!(classify("_posts/2024-05-01-our-new-architecture.md", content).is_none());
}

/// REJECTION: plain README.md, no matter what it contains.
#[test]
fn rejects_readme() {
    let content = "\
# My Project

## Status

Accepted

## Context

Some context that happens to use ADR-shaped words.

## Decision

We decided this.

## Consequences

None.
";
    assert!(classify("README.md", content).is_none());
}

/// REJECTION: CONTRIBUTING.md.
#[test]
fn rejects_contributing_md() {
    let content = "\
# Contributing

## Status

Please read this before contributing.

Run the tests before opening a PR. Follow the style guide.
";
    assert!(classify("CONTRIBUTING.md", content).is_none());
}

/// REJECTION: CHANGELOG.md — "Deprecated" is a section name, not a status.
#[test]
fn rejects_changelog_md() {
    let content = "\
# Changelog

## [1.2.0] - 2024-06-01

### Added

- New endpoint.

### Deprecated

- Old endpoint.

### Fixed

- Off-by-one bug.
";
    assert!(classify("CHANGELOG.md", content).is_none());
}

/// REJECTION: GitHub issue template front matter.
#[test]
fn rejects_issue_template() {
    let content = "\
---
name: Bug report
about: Create a report to help us improve
labels: bug
assignees: octocat
---

# Bug report

**Describe the bug**
A clear description.
";
    assert!(classify(".github/ISSUE_TEMPLATE/bug_report.md", content).is_none());
}

/// REJECTION: KEP-shaped README without the sibling kep.yaml sidecar —
/// never ingest KEP trees via ADR heuristics.
#[test]
fn rejects_kep_shaped_readme_without_sidecar() {
    let content = "\
# Node swap KEP

## Summary

Add swap support to kubelet.

## Motivation

Some workloads need swap.
";
    assert!(classify("keps/sig-node/2400-node-swap/README.md", content).is_none());
}

// -- Totality / never-panics smoke ------------------------------------

#[test]
fn empty_input_does_not_panic_and_is_not_governance() {
    assert!(classify("", "").is_none());
    assert!(classify("adr/0001-x.md", "").is_none());
}

#[test]
fn garbage_bytes_as_lossy_utf8_do_not_panic() {
    let bytes: Vec<u8> = vec![0xff, 0xfe, 0x00, 0x01, b'#', b' ', 0x80, 0x81];
    let s = String::from_utf8_lossy(&bytes).to_string();
    let _ = classify("weird.md", &s);
}

#[test]
fn deterministic_repeated_calls() {
    let content = "\
# 1. Record architecture decisions

## Status

Accepted

## Context

Ctx.

## Decision

Use ADRs.

## Consequences

None.
";
    let a = classify("doc/adr/0001-record-architecture-decisions.md", content);
    let b = classify("doc/adr/0001-record-architecture-decisions.md", content);
    assert_eq!(a, b);
}

// -- V1 contract: explicit-only `ban:`/`policy:` front matter ----------

/// An accepted ADR with `ban: true` front matter surfaces `ban: true` —
/// the ONLY v1 mechanism that ever sets it (never inferred from prose).
#[test]
fn front_matter_ban_true_is_honored() {
    let content = "\
---
status: accepted
ban: true
---

# Never commit secrets to the repo

## Context

We had an incident.

## Decision

Secrets must never be committed.

## Consequences

CI scans for them.
";
    let d = classify("docs/adr/0005-no-secrets.md", content).unwrap();
    assert!(d.ban, "explicit ban: true front matter must set GovernanceDoc::ban");
    assert!(d.governance_effective);
}

/// `policy:` is an accepted synonym for `ban:`, and a non-empty string
/// value (not just literal `true`) still counts as an assertion.
#[test]
fn front_matter_policy_string_value_is_honored_as_a_ban() {
    let content = "\
---
status: accepted
policy: no disabling TLS verification
---

# Never disable TLS verification

## Context

An incident happened.

## Decision

TLS verification must always be on.

## Consequences

None.
";
    let d = classify("docs/adr/0006-tls-verification.md", content).unwrap();
    assert!(d.ban, "a non-falsy policy: value must be honored as a ban assertion");
}

/// Absence of `ban:`/`policy:` must never be inferred true from ban-shaped
/// prose — explicit-only per the V1 contract.
#[test]
fn ban_is_false_when_front_matter_omits_it_even_with_ban_shaped_prose() {
    let content = "\
# 7. Never use raw SQL string concatenation

## Status

Accepted

## Context

SQL injection risk.

## Decision

We will never allow raw string-concatenated SQL.

## Consequences

Use the query builder everywhere.
";
    let d = classify("docs/adr/0007-no-raw-sql.md", content).unwrap();
    assert!(
        !d.ban,
        "ban-shaped prose without an explicit ban:/policy: field must never set ban=true"
    );
}

/// Explicit `ban: false` (or falsy variants) never sets the flag.
#[test]
fn front_matter_ban_false_is_honored_as_no_ban() {
    let content = "\
---
status: accepted
ban: false
---

# Use Postgres for the orders service

## Context

Ctx.

## Decision

Use Postgres.

## Consequences

None.
";
    let d = classify("docs/adr/0008-use-postgres.md", content).unwrap();
    assert!(!d.ban);
}

// -- V1 contract / Tier 0: explicit `governs:` front matter -------------

/// A flow-style `governs: [a, b]` list is carried through verbatim.
#[test]
fn front_matter_governs_flow_list_is_carried_through() {
    let content = "\
---
status: accepted
governs: [lang:ts, path:apps/web/**]
---

# Use strict null checks in the frontend

## Context

Ctx.

## Decision

Enable strict null checks.

## Consequences

Fewer null-pointer bugs.
";
    let d = classify("docs/adr/0009-strict-null-checks.md", content).unwrap();
    assert_eq!(
        d.governs,
        vec!["lang:ts".to_string(), "path:apps/web/**".to_string()]
    );
}

/// A block-style YAML list under `governs:` is also carried through.
#[test]
fn front_matter_governs_block_list_is_carried_through() {
    let content = "\
---
status: accepted
governs:
  - service:billing-api
  - path:services/billing/**
---

# Billing must use idempotency keys

## Context

Ctx.

## Decision

All billing writes require an idempotency key.

## Consequences

None.
";
    let d = classify("docs/adr/0010-billing-idempotency.md", content).unwrap();
    assert_eq!(
        d.governs,
        vec![
            "service:billing-api".to_string(),
            "path:services/billing/**".to_string()
        ]
    );
}

/// No `governs:` key at all ⇒ empty, never invented.
#[test]
fn governs_is_empty_when_front_matter_omits_it() {
    let content = "\
---
status: accepted
---

# Use Postgres for the orders service

## Context

Ctx.

## Decision

Use Postgres.

## Consequences

None.
";
    let d = classify("docs/adr/0011-use-postgres.md", content).unwrap();
    assert!(d.governs.is_empty());
}
