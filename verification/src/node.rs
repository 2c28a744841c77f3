//! The output contract: prepared-node records that a consumer ingests.
//! Everything here is observed or deterministically derived; anything that
//! would need inference is only flagged.
use vstd::prelude::*;
use std::ops::Range;
use time::OffsetDateTime;

verus! {

/// A stable id for a prepared node, derived deterministically from its source.
#[derive(Clone, Debug, PartialEq, Eq, Hash, PartialOrd, Ord)]
pub struct NodeId(pub String);

impl NodeId {
    /// Construct a node id.
    pub fn new(s: &str) -> (r: NodeId)
        ensures
            r.0@ == s@,
    {
        NodeId(s.to_owned())
    }

    /// The id as a string slice.
    pub fn as_str(&self) -> (r: &str)
        ensures
            r@ == self.0@,
    {
        self.0.as_str()
    }
}

/// The epistemic status of a node or edge.
#[derive(Clone, Copy, Debug, PartialEq, Eq)]
pub enum FactStatus {
    /// Verbatim from the source.
    Observed,
    /// Computed by a deterministic function of observed data.
    DeterministicallyDerived,
    /// Ranked by a statistical measure (downstream).
    StatisticallyRanked,
    /// A hypothesis of a downstream inference layer; only ever flagged here.
    LlmHypothesis,
}

/// The category of a deterministic commitment marker.
#[derive(Clone, Copy, Debug, PartialEq, Eq)]
pub enum MarkerCategory {
    /// Explicit decision verb ("use", "let's go with", "decide").
    DecisionVerb,
    /// A rejected alternative ("instead of X", "rather than").
    Rejection,
    /// A ban ("we will NOT / never use X").
    Ban,
    /// An imperative ("must", "always", "never", "shall").
    Imperative,
    /// A memory directive ("remember that", "keep in mind").
    Memory,
    /// Assistant-proposal-then-user-confirmation.
    Confirmation,
    /// An imperative request to change code ("fix", "add", "refactor").
    ActionRequest,
}

/// Which deterministic commitment marker fired on a turn, and where.
#[derive(Clone, Debug, PartialEq, Eq)]
pub struct CommitmentMarker {
    /// The rule id that matched (e.g. `decision_verb.use`).
    pub rule_id: String,
    /// The marker category.
    pub category: MarkerCategory,
    /// The verbatim text span that matched.
    pub matched_text: String,
    /// Byte offset of the match within the turn text.
    pub offset: usize,
}

/// Which pipeline produced a decision record.
#[derive(Clone, Copy, Debug, PartialEq, Eq, Default)]
pub enum DecisionOrigin {
    /// Deterministically parsed from a gated conversation turn.
    #[default]
    Conversation,
    /// Mined from a git commit subject/body.
    GitCommit,
    /// Ingested from a classified governance document.
    Governance,
}

impl DecisionOrigin {
    /// Whether this is the default origin, `Conversation`.
    pub fn is_default(&self) -> (r: bool)
        ensures
            r == (*self == DecisionOrigin::Conversation),
    {
        match self {
            DecisionOrigin::Conversation => true,
            _ => false,
        }
    }
}

/// A considered option within a decision.
#[derive(Clone, Debug, PartialEq, Eq)]
pub struct Opt {
    /// The option text (verbatim span).
    pub text: String,
    /// Whether this option was the one chosen.
    pub chosen: bool,
}

/// A pointer to a confirmation check named in a decision.
#[derive(Clone, Debug, PartialEq, Eq)]
pub struct CheckRef {
    /// The kind of check (`archunit` | `test` | `schema`).
    pub kind: String,
    /// The named target.
    pub target: String,
}

/// The classified governance-doc facts a decision record carries when it was
/// ingested from a governance document.
#[derive(Clone, Debug, PartialEq, Eq)]
pub struct GovernanceFacts {
    /// The doc-class slug (`"decision_record"`, `"proposal_in_flight"`, ...).
    pub doc_class: String,
    /// The canonical status; `"unknown"` at recall-only parse quality.
    pub doc_state: String,
    /// True only for `accepted`.
    pub governance_effective: bool,
    /// The parse-quality slug (`"full_parse"` / `"recall_only"`).
    pub parse_quality: String,
    /// An author-declared scope (`governs:` front matter), when present.
    pub scope: Option<ScopeNode>,
}

/// The raw scope selectors from a `governs:` front-matter list, verbatim.
#[derive(Clone, Debug, PartialEq, Eq)]
pub struct ScopeNode {
    /// The raw selector strings, in file order.
    pub selectors: Vec<String>,
}

/// The relation a binding edge expresses.
#[derive(Clone, Copy, Debug, PartialEq, Eq)]
pub enum Relation {
    /// A decision/conversation produced an episode.
    Produced,
    /// A decision governs an episode.
    Governs,
    /// An episode is derived from a decision/conversation.
    DerivedFrom,
    /// Two nodes are statistically correlated.
    CorrelatedWith,
}


/// `time::OffsetDateTime`, carried through as an opaque value.
#[verifier::external_type_specification]
#[verifier::external_body]
pub struct ExOffsetDateTime(OffsetDateTime);

/// `time::OffsetDateTime` derives `Clone` beside `Copy`: a clone is the same
/// value.
pub assume_specification[ <OffsetDateTime as Clone>::clone ](t: &OffsetDateTime) -> (r:
    OffsetDateTime)
    ensures
        r == *t,
;

/// `std::ops::Range` derives `Clone`; nothing is claimed of the clone.
pub assume_specification<Idx: Clone>[ <Range<Idx> as Clone>::clone ](r: &Range<Idx>) -> Range<Idx>;

/// A decision parsed deterministically from a gated turn; prose typing that
/// needs inference is left to the consumer.
#[derive(Clone, Debug, PartialEq, Eq)]
pub struct DecisionRecord {
    /// The decision sentence (a verbatim span).
    pub epitome: String,
    /// Options parsed from "instead of X", "vs", or explicit lists.
    pub considered_options: Vec<Opt>,
    /// True for a ban ("we will NOT / never use X").
    pub is_ban: bool,
    /// A pointer to a node that supersedes this decision, if known.
    pub superseded_by: Option<NodeId>,
    /// A named confirmation check, if the decision references one.
    pub confirmation: Option<CheckRef>,
    /// The exact turn span (no accreted context).
    pub source_span: Range<u64>,
    /// `Observed` for the verbatim text.
    pub fact_status: FactStatus,
    /// When the decision was made.
    pub timestamp: OffsetDateTime,
    /// Who made the decision, when known.
    pub decided_by: Option<String>,
    /// Which pipeline produced this record.
    pub origin: DecisionOrigin,
    /// A stable repo identifier the decision was ingested against.
    pub repo_identity: Option<String>,
    /// The record number, or a fallback key, of a governance-ingested decision.
    pub adr_key: Option<String>,
    /// The classified governance-doc facts, for a governance-ingested decision.
    pub governance: Option<GovernanceFacts>,
}

/// A provenance record: `used(session, decision)` and
/// `wasGeneratedBy(diff, session)`, with the invariant `t_use <= t_gen`.
/// The two instants are held as nanoseconds since the Unix epoch (UTC), which
/// order them as points in time.
#[derive(Clone, Debug, PartialEq, Eq)]
pub struct ProvRecord {
    /// The session that used the decision.
    pub used_session: String,
    /// The decision node that was used, if any.
    pub used_decision: Option<NodeId>,
    /// The session that generated the edit.
    pub was_generated_by_session: String,
    /// When the decision was used, in nanoseconds since the Unix epoch.
    pub t_use: i128,
    /// When the edit was generated, in nanoseconds since the Unix epoch.
    pub t_gen: i128,
}

impl ProvRecord {
    /// Whether the temporal invariant `t_use <= t_gen` holds.
    pub fn is_temporally_valid(&self) -> (r: bool)
        ensures
            r == (self.t_use <= self.t_gen),
    {
        self.t_use <= self.t_gen
    }
}

} // verus!
