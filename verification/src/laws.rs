//! Properties of the classifier as a whole, proved over its specification.
//!
//! Each law is stated over `spec_classify_from`, the classification for any
//! outcome of the regex searches; `classify_governance_doc` is the instance
//! `spec_classify_governance_doc` of it, and `classify_with_pattern_results`
//! is it exactly, so every law holds of both functions' results.
use vstd::prelude::*;
use crate::front_matter::spec_parse_front_matter;
use crate::gates::{
    is_never_decision_filename, spec_file_name_lc, spec_has_madr_fingerprint,
    spec_has_nygard_fingerprint, spec_looks_like_index_or_toc, spec_looks_like_issue_template,
    spec_looks_like_numbered_tutorial, spec_looks_like_publishing_front_matter, spec_template_from,
};
use crate::governance_doc::{
    first_status_hit, spec_classify_from, spec_classify_governance_doc, spec_extract_doc_id,
    spec_title, DocClass, DocView, ParseQuality,
};
use crate::status::{
    canonical_of_token, is_accepted_word, is_literal_accepted, is_proposed_word,
    spec_canonicalize_status, status_token,
};
use crate::table::spec_parse_decisions_table;
use crate::positions::{spec_find_bullet_status, spec_find_status_section};
use crate::status::{cut_annotation, spec_strip_trailing_annotation};
use crate::text::{
    ascii_lower, collapse_ws, find, find_from, in_set, is_ws, lower, matches_at,
    starts_with, trim, trim_end_set, trim_set, trim_start_set,
};

verus! {

/// The closed decision vocabulary.
pub open spec fn is_canonical_status(s: Seq<char>) -> bool {
    ||| s == "proposed"@
    ||| s == "accepted"@
    ||| s == "rejected"@
    ||| s == "deprecated"@
    ||| s == "superseded"@
    ||| s == "amended"@
}

/// Every status the canonicalization produces is in the closed vocabulary
/// `proposed`, `accepted`, `rejected`, `deprecated`, `superseded`, `amended`.
pub proof fn law_canonical_vocabulary(raw: Seq<char>)
    ensures
        spec_canonicalize_status(raw) matches Some(c) ==> is_canonical_status(c),
{
}

/// Both spellings of the supersession status, "superseded" and the historic
/// "superceded", canonicalize to `superseded`, whatever follows them.
pub proof fn law_superseded_spellings(raw: Seq<char>)
    requires
        starts_with(status_token(raw), "superseded"@) || starts_with(
            status_token(raw),
            "superceded"@,
        ),
    ensures
        spec_canonicalize_status(raw) == Some("superseded"@),
{
}

/// The token `accepted` canonicalizes to `accepted`.
proof fn lemma_accepted_token_is_accepted(raw: Seq<char>)
    requires
        is_literal_accepted(raw),
    ensures
        spec_canonicalize_status(raw) == Some("accepted"@),
{
    let lc = status_token(raw);
    reveal_strlit("accepted");
    reveal_strlit("superseded");
    reveal_strlit("superceded");
    reveal_strlit("replaced");
    reveal_strlit("amended");
    reveal_strlit("proposed");
    reveal_strlit("draft");
    reveal_strlit("predraft");
    reveal_strlit("prediscussion");
    reveal_strlit("ideation");
    reveal_strlit("discussion");
    reveal_strlit("in review");
    reveal_strlit("open for comments");
    reveal_strlit("awaiting review");
    reveal_strlit("scheduled for review");
    reveal_strlit("active review");
    reveal_strlit("submitted");
    reveal_strlit("candidate");
    reveal_strlit("exploring");
    reveal_strlit("provisional");
    reveal_strlit("proposed to target");
    reveal_strlit("proposed to drop");
    reveal_strlit("returned for revision");
    assert(!starts_with(lc, "replaced"@)) by {
        assert(lc.subrange(0, 8)[0] != "replaced"@[0]);
    }
    assert(!starts_with(lc, "amended"@)) by {
        assert(lc.subrange(0, 7)[1] != "amended"@[1]);
    }
    // `lc` has 8 characters and starts with 'a'; every proposal word differs
    // from it in length or in its first character.
    assert(lc.len() == 8 && lc[0] == 'a');
    assert(!is_proposed_word(lc));
    assert(is_accepted_word(lc));
}

/// Every word of the closed vocabulary maps to itself: a raw status whose
/// token is `proposed`, `accepted`, `rejected`, `deprecated`, `superseded`
/// or `amended` canonicalizes to that same word.
pub proof fn law_vocabulary_maps_to_itself(raw: Seq<char>)
    requires
        is_canonical_status(status_token(raw)),
    ensures
        spec_canonicalize_status(raw) == Some(status_token(raw)),
{
    let lc = status_token(raw);
    reveal_strlit("superseded");
    reveal_strlit("superceded");
    reveal_strlit("replaced");
    reveal_strlit("amended");
    reveal_strlit("proposed");
    reveal_strlit("draft");
    reveal_strlit("predraft");
    reveal_strlit("prediscussion");
    reveal_strlit("ideation");
    reveal_strlit("discussion");
    reveal_strlit("in review");
    reveal_strlit("open for comments");
    reveal_strlit("awaiting review");
    reveal_strlit("scheduled for review");
    reveal_strlit("active review");
    reveal_strlit("submitted");
    reveal_strlit("candidate");
    reveal_strlit("exploring");
    reveal_strlit("provisional");
    reveal_strlit("proposed to target");
    reveal_strlit("proposed to drop");
    reveal_strlit("returned for revision");
    reveal_strlit("accepted");
    reveal_strlit("approved");
    reveal_strlit("agreed");
    reveal_strlit("decided");
    reveal_strlit("active");
    reveal_strlit("final");
    reveal_strlit("accepted with revisions");
    reveal_strlit("accepted with reservations");
    reveal_strlit("previewing");
    reveal_strlit("implemented");
    reveal_strlit("done");
    reveal_strlit("complete");
    reveal_strlit("targeted");
    reveal_strlit("integrated");
    reveal_strlit("closed / delivered");
    reveal_strlit("published");
    reveal_strlit("committed");
    reveal_strlit("publish");
    reveal_strlit("implementable");
    reveal_strlit("ready-for-release");
    reveal_strlit("released");
    reveal_strlit("recommended");
    reveal_strlit("rejected");
    reveal_strlit("withdrawn");
    reveal_strlit("abandoned");
    reveal_strlit("closed");
    reveal_strlit("closed / rejected");
    reveal_strlit("closed / withdrawn");
    reveal_strlit("deprecated");
    reveal_strlit("obsolete");
    reveal_strlit("historic");
    reveal_strlit("discontinued");
    if lc == "superseded"@ {
        assert(lc.subrange(0, 10) =~= lc);
    } else if lc == "amended"@ {
        assert(lc.subrange(0, 7) =~= lc);
    } else if lc == "proposed"@ {
        assert(lc.subrange(0, 8)[0] == 'p');
        assert(lc.subrange(0, 7)[0] == 'p');
    } else if lc == "accepted"@ {
        lemma_accepted_token_is_accepted(raw);
    } else if lc == "rejected"@ {
        assert(lc.subrange(0, 8)[2] == 'j');
        assert(lc.subrange(0, 7)[0] == 'r');
        assert(lc[0] == 'r' && lc[2] == 'j');
    } else {
        assert(lc == "deprecated"@);
        assert(lc.subrange(0, 10)[0] == 'd');
        assert(lc.subrange(0, 8)[0] == 'd');
        assert(lc.subrange(0, 7)[0] == 'd');
        assert(lc[0] == 'd' && lc[1] == 'e');
    }
}

/// The status synonym table, word by word.
proof fn lemma_synonym_table(t: Seq<char>)
    ensures
        (t == "proposed"@ ||
            t == "draft"@ ||
            t == "predraft"@ ||
            t == "prediscussion"@ ||
            t == "ideation"@ ||
            t == "discussion"@ ||
            t == "in review"@ ||
            t == "open for comments"@ ||
            t == "awaiting review"@ ||
            t == "scheduled for review"@ ||
            t == "active review"@ ||
            t == "submitted"@ ||
            t == "candidate"@ ||
            t == "exploring"@ ||
            t == "provisional"@ ||
            t == "proposed to target"@ ||
            t == "proposed to drop"@ ||
            t == "returned for revision"@) ==> canonical_of_token(t) == Some("proposed"@),
        (t == "accepted"@ ||
            t == "approved"@ ||
            t == "agreed"@ ||
            t == "decided"@ ||
            t == "active"@ ||
            t == "final"@ ||
            t == "accepted with revisions"@ ||
            t == "accepted with reservations"@ ||
            t == "previewing"@ ||
            t == "implemented"@ ||
            t == "done"@ ||
            t == "complete"@ ||
            t == "targeted"@ ||
            t == "integrated"@ ||
            t == "closed / delivered"@ ||
            t == "published"@ ||
            t == "committed"@ ||
            t == "publish"@ ||
            t == "implementable"@ ||
            t == "ready-for-release"@ ||
            t == "released"@ ||
            t == "recommended"@) ==> canonical_of_token(t) == Some("accepted"@),
        (t == "rejected"@ ||
            t == "withdrawn"@ ||
            t == "abandoned"@ ||
            t == "closed"@ ||
            t == "closed / rejected"@ ||
            t == "closed / withdrawn"@) ==> canonical_of_token(t) == Some("rejected"@),
        (t == "deprecated"@ ||
            t == "obsolete"@ ||
            t == "historic"@ ||
            t == "discontinued"@) ==> canonical_of_token(t) == Some("deprecated"@),
{
    reveal_strlit("proposed");
    reveal_strlit("draft");
    reveal_strlit("predraft");
    reveal_strlit("prediscussion");
    reveal_strlit("ideation");
    reveal_strlit("discussion");
    reveal_strlit("in review");
    reveal_strlit("open for comments");
    reveal_strlit("awaiting review");
    reveal_strlit("scheduled for review");
    reveal_strlit("active review");
    reveal_strlit("submitted");
    reveal_strlit("candidate");
    reveal_strlit("exploring");
    reveal_strlit("provisional");
    reveal_strlit("proposed to target");
    reveal_strlit("proposed to drop");
    reveal_strlit("returned for revision");
    reveal_strlit("accepted");
    reveal_strlit("approved");
    reveal_strlit("agreed");
    reveal_strlit("decided");
    reveal_strlit("active");
    reveal_strlit("final");
    reveal_strlit("accepted with revisions");
    reveal_strlit("accepted with reservations");
    reveal_strlit("previewing");
    reveal_strlit("implemented");
    reveal_strlit("done");
    reveal_strlit("complete");
    reveal_strlit("targeted");
    reveal_strlit("integrated");
    reveal_strlit("closed / delivered");
    reveal_strlit("published");
    reveal_strlit("committed");
    reveal_strlit("publish");
    reveal_strlit("implementable");
    reveal_strlit("ready-for-release");
    reveal_strlit("released");
    reveal_strlit("recommended");
    reveal_strlit("rejected");
    reveal_strlit("withdrawn");
    reveal_strlit("abandoned");
    reveal_strlit("closed");
    reveal_strlit("closed / rejected");
    reveal_strlit("closed / withdrawn");
    reveal_strlit("deprecated");
    reveal_strlit("obsolete");
    reveal_strlit("historic");
    reveal_strlit("discontinued");
    reveal_strlit("superseded");
    reveal_strlit("superceded");
    reveal_strlit("replaced");
    reveal_strlit("amended");
    if t == "proposed"@ {
        assert(canonical_of_token("proposed"@) == Some("proposed"@)) by {
            assert("proposed"@.subrange(0, 8)[0] != "replaced"@[0]);
            assert("proposed"@.subrange(0, 7)[0] != "amended"@[0]);
        }
    }
    if t == "draft"@ {
        assert(canonical_of_token("draft"@) == Some("proposed"@));
    }
    if t == "predraft"@ {
        assert(canonical_of_token("predraft"@) == Some("proposed"@)) by {
            assert("predraft"@.subrange(0, 8)[0] != "replaced"@[0]);
            assert("predraft"@.subrange(0, 7)[0] != "amended"@[0]);
        }
    }
    if t == "prediscussion"@ {
        assert(canonical_of_token("prediscussion"@) == Some("proposed"@)) by {
            assert("prediscussion"@.subrange(0, 10)[0] != "superseded"@[0]);
            assert("prediscussion"@.subrange(0, 10)[0] != "superceded"@[0]);
            assert("prediscussion"@.subrange(0, 8)[0] != "replaced"@[0]);
            assert("prediscussion"@.subrange(0, 7)[0] != "amended"@[0]);
        }
    }
    if t == "ideation"@ {
        assert(canonical_of_token("ideation"@) == Some("proposed"@)) by {
            assert("ideation"@.subrange(0, 8)[0] != "replaced"@[0]);
            assert("ideation"@.subrange(0, 7)[0] != "amended"@[0]);
        }
    }
    if t == "discussion"@ {
        assert(canonical_of_token("discussion"@) == Some("proposed"@)) by {
            assert("discussion"@.subrange(0, 10)[0] != "superseded"@[0]);
            assert("discussion"@.subrange(0, 10)[0] != "superceded"@[0]);
            assert("discussion"@.subrange(0, 8)[0] != "replaced"@[0]);
            assert("discussion"@.subrange(0, 7)[0] != "amended"@[0]);
        }
    }
    if t == "in review"@ {
        assert(canonical_of_token("in review"@) == Some("proposed"@)) by {
            assert("in review"@.subrange(0, 8)[0] != "replaced"@[0]);
            assert("in review"@.subrange(0, 7)[0] != "amended"@[0]);
        }
    }
    if t == "open for comments"@ {
        assert(canonical_of_token("open for comments"@) == Some("proposed"@)) by {
            assert("open for comments"@.subrange(0, 10)[0] != "superseded"@[0]);
            assert("open for comments"@.subrange(0, 10)[0] != "superceded"@[0]);
            assert("open for comments"@.subrange(0, 8)[0] != "replaced"@[0]);
            assert("open for comments"@.subrange(0, 7)[0] != "amended"@[0]);
        }
    }
    if t == "awaiting review"@ {
        assert(canonical_of_token("awaiting review"@) == Some("proposed"@)) by {
            assert("awaiting review"@.subrange(0, 10)[0] != "superseded"@[0]);
            assert("awaiting review"@.subrange(0, 10)[0] != "superceded"@[0]);
            assert("awaiting review"@.subrange(0, 8)[0] != "replaced"@[0]);
            assert("awaiting review"@.subrange(0, 7)[1] != "amended"@[1]);
        }
    }
    if t == "scheduled for review"@ {
        assert(canonical_of_token("scheduled for review"@) == Some("proposed"@)) by {
            assert("scheduled for review"@.subrange(0, 10)[1] != "superseded"@[1]);
            assert("scheduled for review"@.subrange(0, 10)[1] != "superceded"@[1]);
            assert("scheduled for review"@.subrange(0, 8)[0] != "replaced"@[0]);
            assert("scheduled for review"@.subrange(0, 7)[0] != "amended"@[0]);
        }
    }
    if t == "active review"@ {
        assert(canonical_of_token("active review"@) == Some("proposed"@)) by {
            assert("active review"@.subrange(0, 10)[0] != "superseded"@[0]);
            assert("active review"@.subrange(0, 10)[0] != "superceded"@[0]);
            assert("active review"@.subrange(0, 8)[0] != "replaced"@[0]);
            assert("active review"@.subrange(0, 7)[1] != "amended"@[1]);
        }
    }
    if t == "submitted"@ {
        assert(canonical_of_token("submitted"@) == Some("proposed"@)) by {
            assert("submitted"@.subrange(0, 8)[0] != "replaced"@[0]);
            assert("submitted"@.subrange(0, 7)[0] != "amended"@[0]);
        }
    }
    if t == "candidate"@ {
        assert(canonical_of_token("candidate"@) == Some("proposed"@)) by {
            assert("candidate"@.subrange(0, 8)[0] != "replaced"@[0]);
            assert("candidate"@.subrange(0, 7)[0] != "amended"@[0]);
        }
    }
    if t == "exploring"@ {
        assert(canonical_of_token("exploring"@) == Some("proposed"@)) by {
            assert("exploring"@.subrange(0, 8)[0] != "replaced"@[0]);
            assert("exploring"@.subrange(0, 7)[0] != "amended"@[0]);
        }
    }
    if t == "provisional"@ {
        assert(canonical_of_token("provisional"@) == Some("proposed"@)) by {
            assert("provisional"@.subrange(0, 10)[0] != "superseded"@[0]);
            assert("provisional"@.subrange(0, 10)[0] != "superceded"@[0]);
            assert("provisional"@.subrange(0, 8)[0] != "replaced"@[0]);
            assert("provisional"@.subrange(0, 7)[0] != "amended"@[0]);
        }
    }
    if t == "proposed to target"@ {
        assert(canonical_of_token("proposed to target"@) == Some("proposed"@)) by {
            assert("proposed to target"@.subrange(0, 10)[0] != "superseded"@[0]);
            assert("proposed to target"@.subrange(0, 10)[0] != "superceded"@[0]);
            assert("proposed to target"@.subrange(0, 8)[0] != "replaced"@[0]);
            assert("proposed to target"@.subrange(0, 7)[0] != "amended"@[0]);
        }
    }
    if t == "proposed to drop"@ {
        assert(canonical_of_token("proposed to drop"@) == Some("proposed"@)) by {
            assert("proposed to drop"@.subrange(0, 10)[0] != "superseded"@[0]);
            assert("proposed to drop"@.subrange(0, 10)[0] != "superceded"@[0]);
            assert("proposed to drop"@.subrange(0, 8)[0] != "replaced"@[0]);
            assert("proposed to drop"@.subrange(0, 7)[0] != "amended"@[0]);
        }
    }
    if t == "returned for revision"@ {
        assert(canonical_of_token("returned for revision"@) == Some("proposed"@)) by {
            assert("returned for revision"@.subrange(0, 10)[0] != "superseded"@[0]);
            assert("returned for revision"@.subrange(0, 10)[0] != "superceded"@[0]);
            assert("returned for revision"@.subrange(0, 8)[2] != "replaced"@[2]);
            assert("returned for revision"@.subrange(0, 7)[0] != "amended"@[0]);
        }
    }
    if t == "accepted"@ {
        assert(canonical_of_token("accepted"@) == Some("accepted"@)) by {
            assert("accepted"@.subrange(0, 8)[0] != "replaced"@[0]);
            assert("accepted"@.subrange(0, 7)[1] != "amended"@[1]);
            assert("accepted"@[0] != "proposed"@[0]);
            assert("accepted"@[0] != "predraft"@[0]);
            assert("accepted"@[0] != "ideation"@[0]);
        }
    }
    if t == "approved"@ {
        assert(canonical_of_token("approved"@) == Some("accepted"@)) by {
            assert("approved"@.subrange(0, 8)[0] != "replaced"@[0]);
            assert("approved"@.subrange(0, 7)[1] != "amended"@[1]);
            assert("approved"@[0] != "proposed"@[0]);
            assert("approved"@[0] != "predraft"@[0]);
            assert("approved"@[0] != "ideation"@[0]);
        }
    }
    if t == "agreed"@ {
        assert(canonical_of_token("agreed"@) == Some("accepted"@));
    }
    if t == "decided"@ {
        assert(canonical_of_token("decided"@) == Some("accepted"@)) by {
            assert("decided"@.subrange(0, 7)[0] != "amended"@[0]);
        }
    }
    if t == "active"@ {
        assert(canonical_of_token("active"@) == Some("accepted"@));
    }
    if t == "final"@ {
        assert(canonical_of_token("final"@) == Some("accepted"@)) by {
            assert("final"@[0] != "draft"@[0]);
        }
    }
    if t == "accepted with revisions"@ {
        assert(canonical_of_token("accepted with revisions"@) == Some("accepted"@)) by {
            assert("accepted with revisions"@.subrange(0, 10)[0] != "superseded"@[0]);
            assert("accepted with revisions"@.subrange(0, 10)[0] != "superceded"@[0]);
            assert("accepted with revisions"@.subrange(0, 8)[0] != "replaced"@[0]);
            assert("accepted with revisions"@.subrange(0, 7)[1] != "amended"@[1]);
        }
    }
    if t == "accepted with reservations"@ {
        assert(canonical_of_token("accepted with reservations"@) == Some("accepted"@)) by {
            assert("accepted with reservations"@.subrange(0, 10)[0] != "superseded"@[0]);
            assert("accepted with reservations"@.subrange(0, 10)[0] != "superceded"@[0]);
            assert("accepted with reservations"@.subrange(0, 8)[0] != "replaced"@[0]);
            assert("accepted with reservations"@.subrange(0, 7)[1] != "amended"@[1]);
        }
    }
    if t == "previewing"@ {
        assert(canonical_of_token("previewing"@) == Some("accepted"@)) by {
            assert("previewing"@.subrange(0, 10)[0] != "superseded"@[0]);
            assert("previewing"@.subrange(0, 10)[0] != "superceded"@[0]);
            assert("previewing"@.subrange(0, 8)[0] != "replaced"@[0]);
            assert("previewing"@.subrange(0, 7)[0] != "amended"@[0]);
            assert("previewing"@[0] != "discussion"@[0]);
        }
    }
    if t == "implemented"@ {
        assert(canonical_of_token("implemented"@) == Some("accepted"@)) by {
            assert("implemented"@.subrange(0, 10)[0] != "superseded"@[0]);
            assert("implemented"@.subrange(0, 10)[0] != "superceded"@[0]);
            assert("implemented"@.subrange(0, 8)[0] != "replaced"@[0]);
            assert("implemented"@.subrange(0, 7)[0] != "amended"@[0]);
            assert("implemented"@[0] != "provisional"@[0]);
        }
    }
    if t == "done"@ {
        assert(canonical_of_token("done"@) == Some("accepted"@));
    }
    if t == "complete"@ {
        assert(canonical_of_token("complete"@) == Some("accepted"@)) by {
            assert("complete"@.subrange(0, 8)[0] != "replaced"@[0]);
            assert("complete"@.subrange(0, 7)[0] != "amended"@[0]);
            assert("complete"@[0] != "proposed"@[0]);
            assert("complete"@[0] != "predraft"@[0]);
            assert("complete"@[0] != "ideation"@[0]);
        }
    }
    if t == "targeted"@ {
        assert(canonical_of_token("targeted"@) == Some("accepted"@)) by {
            assert("targeted"@.subrange(0, 8)[0] != "replaced"@[0]);
            assert("targeted"@.subrange(0, 7)[0] != "amended"@[0]);
            assert("targeted"@[0] != "proposed"@[0]);
            assert("targeted"@[0] != "predraft"@[0]);
            assert("targeted"@[0] != "ideation"@[0]);
        }
    }
    if t == "integrated"@ {
        assert(canonical_of_token("integrated"@) == Some("accepted"@)) by {
            assert("integrated"@.subrange(0, 10)[0] != "superseded"@[0]);
            assert("integrated"@.subrange(0, 10)[0] != "superceded"@[0]);
            assert("integrated"@.subrange(0, 8)[0] != "replaced"@[0]);
            assert("integrated"@.subrange(0, 7)[0] != "amended"@[0]);
            assert("integrated"@[0] != "discussion"@[0]);
        }
    }
    if t == "closed / delivered"@ {
        assert(canonical_of_token("closed / delivered"@) == Some("accepted"@)) by {
            assert("closed / delivered"@.subrange(0, 10)[0] != "superseded"@[0]);
            assert("closed / delivered"@.subrange(0, 10)[0] != "superceded"@[0]);
            assert("closed / delivered"@.subrange(0, 8)[0] != "replaced"@[0]);
            assert("closed / delivered"@.subrange(0, 7)[0] != "amended"@[0]);
            assert("closed / delivered"@[0] != "proposed to target"@[0]);
        }
    }
    if t == "published"@ {
        assert(canonical_of_token("published"@) == Some("accepted"@)) by {
            assert("published"@.subrange(0, 8)[0] != "replaced"@[0]);
            assert("published"@.subrange(0, 7)[0] != "amended"@[0]);
            assert("published"@[0] != "in review"@[0]);
            assert("published"@[0] != "submitted"@[0]);
            assert("published"@[0] != "candidate"@[0]);
            assert("published"@[0] != "exploring"@[0]);
        }
    }
    if t == "committed"@ {
        assert(canonical_of_token("committed"@) == Some("accepted"@)) by {
            assert("committed"@.subrange(0, 8)[0] != "replaced"@[0]);
            assert("committed"@.subrange(0, 7)[0] != "amended"@[0]);
            assert("committed"@[0] != "in review"@[0]);
            assert("committed"@[0] != "submitted"@[0]);
            assert("committed"@[1] != "candidate"@[1]);
            assert("committed"@[0] != "exploring"@[0]);
        }
    }
    if t == "publish"@ {
        assert(canonical_of_token("publish"@) == Some("accepted"@)) by {
            assert("publish"@.subrange(0, 7)[0] != "amended"@[0]);
        }
    }
    if t == "implementable"@ {
        assert(canonical_of_token("implementable"@) == Some("accepted"@)) by {
            assert("implementable"@.subrange(0, 10)[0] != "superseded"@[0]);
            assert("implementable"@.subrange(0, 10)[0] != "superceded"@[0]);
            assert("implementable"@.subrange(0, 8)[0] != "replaced"@[0]);
            assert("implementable"@.subrange(0, 7)[0] != "amended"@[0]);
            assert("implementable"@[0] != "prediscussion"@[0]);
            assert("implementable"@[0] != "active review"@[0]);
        }
    }
    if t == "ready-for-release"@ {
        assert(canonical_of_token("ready-for-release"@) == Some("accepted"@)) by {
            assert("ready-for-release"@.subrange(0, 10)[0] != "superseded"@[0]);
            assert("ready-for-release"@.subrange(0, 10)[0] != "superceded"@[0]);
            assert("ready-for-release"@.subrange(0, 8)[2] != "replaced"@[2]);
            assert("ready-for-release"@.subrange(0, 7)[0] != "amended"@[0]);
            assert("ready-for-release"@[0] != "open for comments"@[0]);
        }
    }
    if t == "released"@ {
        assert(canonical_of_token("released"@) == Some("accepted"@)) by {
            assert("released"@.subrange(0, 8)[2] != "replaced"@[2]);
            assert("released"@.subrange(0, 7)[0] != "amended"@[0]);
            assert("released"@[0] != "proposed"@[0]);
            assert("released"@[0] != "predraft"@[0]);
            assert("released"@[0] != "ideation"@[0]);
        }
    }
    if t == "recommended"@ {
        assert(canonical_of_token("recommended"@) == Some("accepted"@)) by {
            assert("recommended"@.subrange(0, 10)[0] != "superseded"@[0]);
            assert("recommended"@.subrange(0, 10)[0] != "superceded"@[0]);
            assert("recommended"@.subrange(0, 8)[2] != "replaced"@[2]);
            assert("recommended"@.subrange(0, 7)[0] != "amended"@[0]);
            assert("recommended"@[0] != "provisional"@[0]);
        }
    }
    if t == "rejected"@ {
        assert(canonical_of_token("rejected"@) == Some("rejected"@)) by {
            assert("rejected"@.subrange(0, 8)[2] != "replaced"@[2]);
            assert("rejected"@.subrange(0, 7)[0] != "amended"@[0]);
            assert("rejected"@[0] != "proposed"@[0]);
            assert("rejected"@[0] != "predraft"@[0]);
            assert("rejected"@[0] != "ideation"@[0]);
            assert("rejected"@[0] != "accepted"@[0]);
            assert("rejected"@[0] != "approved"@[0]);
            assert("rejected"@[0] != "complete"@[0]);
            assert("rejected"@[0] != "targeted"@[0]);
            assert("rejected"@[2] != "released"@[2]);
        }
    }
    if t == "withdrawn"@ {
        assert(canonical_of_token("withdrawn"@) == Some("rejected"@)) by {
            assert("withdrawn"@.subrange(0, 8)[0] != "replaced"@[0]);
            assert("withdrawn"@.subrange(0, 7)[0] != "amended"@[0]);
            assert("withdrawn"@[0] != "in review"@[0]);
            assert("withdrawn"@[0] != "submitted"@[0]);
            assert("withdrawn"@[0] != "candidate"@[0]);
            assert("withdrawn"@[0] != "exploring"@[0]);
            assert("withdrawn"@[0] != "published"@[0]);
            assert("withdrawn"@[0] != "committed"@[0]);
        }
    }
    if t == "abandoned"@ {
        assert(canonical_of_token("abandoned"@) == Some("rejected"@)) by {
            assert("abandoned"@.subrange(0, 8)[0] != "replaced"@[0]);
            assert("abandoned"@.subrange(0, 7)[1] != "amended"@[1]);
            assert("abandoned"@[0] != "in review"@[0]);
            assert("abandoned"@[0] != "submitted"@[0]);
            assert("abandoned"@[0] != "candidate"@[0]);
            assert("abandoned"@[0] != "exploring"@[0]);
            assert("abandoned"@[0] != "published"@[0]);
            assert("abandoned"@[0] != "committed"@[0]);
        }
    }
    if t == "closed"@ {
        assert(canonical_of_token("closed"@) == Some("rejected"@)) by {
            assert("closed"@[0] != "agreed"@[0]);
            assert("closed"@[0] != "active"@[0]);
        }
    }
    if t == "closed / rejected"@ {
        assert(canonical_of_token("closed / rejected"@) == Some("rejected"@)) by {
            assert("closed / rejected"@.subrange(0, 10)[0] != "superseded"@[0]);
            assert("closed / rejected"@.subrange(0, 10)[0] != "superceded"@[0]);
            assert("closed / rejected"@.subrange(0, 8)[0] != "replaced"@[0]);
            assert("closed / rejected"@.subrange(0, 7)[0] != "amended"@[0]);
            assert("closed / rejected"@[0] != "open for comments"@[0]);
            assert("closed / rejected"@[0] != "ready-for-release"@[0]);
        }
    }
    if t == "closed / withdrawn"@ {
        assert(canonical_of_token("closed / withdrawn"@) == Some("rejected"@)) by {
            assert("closed / withdrawn"@.subrange(0, 10)[0] != "superseded"@[0]);
            assert("closed / withdrawn"@.subrange(0, 10)[0] != "superceded"@[0]);
            assert("closed / withdrawn"@.subrange(0, 8)[0] != "replaced"@[0]);
            assert("closed / withdrawn"@.subrange(0, 7)[0] != "amended"@[0]);
            assert("closed / withdrawn"@[0] != "proposed to target"@[0]);
            assert("closed / withdrawn"@[9] != "closed / delivered"@[9]);
        }
    }
    if t == "deprecated"@ {
        assert(canonical_of_token("deprecated"@) == Some("deprecated"@)) by {
            assert("deprecated"@.subrange(0, 10)[0] != "superseded"@[0]);
            assert("deprecated"@.subrange(0, 10)[0] != "superceded"@[0]);
            assert("deprecated"@.subrange(0, 8)[0] != "replaced"@[0]);
            assert("deprecated"@.subrange(0, 7)[0] != "amended"@[0]);
            assert("deprecated"@[1] != "discussion"@[1]);
            assert("deprecated"@[0] != "previewing"@[0]);
            assert("deprecated"@[0] != "integrated"@[0]);
        }
    }
    if t == "obsolete"@ {
        assert(canonical_of_token("obsolete"@) == Some("deprecated"@)) by {
            assert("obsolete"@.subrange(0, 8)[0] != "replaced"@[0]);
            assert("obsolete"@.subrange(0, 7)[0] != "amended"@[0]);
            assert("obsolete"@[0] != "proposed"@[0]);
            assert("obsolete"@[0] != "predraft"@[0]);
            assert("obsolete"@[0] != "ideation"@[0]);
            assert("obsolete"@[0] != "accepted"@[0]);
            assert("obsolete"@[0] != "approved"@[0]);
            assert("obsolete"@[0] != "complete"@[0]);
            assert("obsolete"@[0] != "targeted"@[0]);
            assert("obsolete"@[0] != "released"@[0]);
            assert("obsolete"@[0] != "rejected"@[0]);
        }
    }
    if t == "historic"@ {
        assert(canonical_of_token("historic"@) == Some("deprecated"@)) by {
            assert("historic"@.subrange(0, 8)[0] != "replaced"@[0]);
            assert("historic"@.subrange(0, 7)[0] != "amended"@[0]);
            assert("historic"@[0] != "proposed"@[0]);
            assert("historic"@[0] != "predraft"@[0]);
            assert("historic"@[0] != "ideation"@[0]);
            assert("historic"@[0] != "accepted"@[0]);
            assert("historic"@[0] != "approved"@[0]);
            assert("historic"@[0] != "complete"@[0]);
            assert("historic"@[0] != "targeted"@[0]);
            assert("historic"@[0] != "released"@[0]);
            assert("historic"@[0] != "rejected"@[0]);
        }
    }
    if t == "discontinued"@ {
        assert(canonical_of_token("discontinued"@) == Some("deprecated"@)) by {
            assert("discontinued"@.subrange(0, 10)[0] != "superseded"@[0]);
            assert("discontinued"@.subrange(0, 10)[0] != "superceded"@[0]);
            assert("discontinued"@.subrange(0, 8)[0] != "replaced"@[0]);
            assert("discontinued"@.subrange(0, 7)[0] != "amended"@[0]);
        }
    }
}

/// The status synonym table: every word of the status vocabulary maps
/// to its canonical status (token compared after annotation stripping,
/// trimming and ASCII lowercasing), and a token that begins with "replaced"
/// or "amended" maps to `superseded` or `amended`.
pub proof fn law_status_synonym_table(raw: Seq<char>)
    ensures
        ({
            let t = status_token(raw);
            &&& (t == "proposed"@ ||
                t == "draft"@ ||
                t == "predraft"@ ||
                t == "prediscussion"@ ||
                t == "ideation"@ ||
                t == "discussion"@ ||
                t == "in review"@ ||
                t == "open for comments"@ ||
                t == "awaiting review"@ ||
                t == "scheduled for review"@ ||
                t == "active review"@ ||
                t == "submitted"@ ||
                t == "candidate"@ ||
                t == "exploring"@ ||
                t == "provisional"@ ||
                t == "proposed to target"@ ||
                t == "proposed to drop"@ ||
                t == "returned for revision"@) ==> spec_canonicalize_status(raw) == Some("proposed"@)
            &&& (t == "accepted"@ ||
                t == "approved"@ ||
                t == "agreed"@ ||
                t == "decided"@ ||
                t == "active"@ ||
                t == "final"@ ||
                t == "accepted with revisions"@ ||
                t == "accepted with reservations"@ ||
                t == "previewing"@ ||
                t == "implemented"@ ||
                t == "done"@ ||
                t == "complete"@ ||
                t == "targeted"@ ||
                t == "integrated"@ ||
                t == "closed / delivered"@ ||
                t == "published"@ ||
                t == "committed"@ ||
                t == "publish"@ ||
                t == "implementable"@ ||
                t == "ready-for-release"@ ||
                t == "released"@ ||
                t == "recommended"@) ==> spec_canonicalize_status(raw) == Some("accepted"@)
            &&& (t == "rejected"@ ||
                t == "withdrawn"@ ||
                t == "abandoned"@ ||
                t == "closed"@ ||
                t == "closed / rejected"@ ||
                t == "closed / withdrawn"@) ==> spec_canonicalize_status(raw) == Some("rejected"@)
            &&& (t == "deprecated"@ ||
                t == "obsolete"@ ||
                t == "historic"@ ||
                t == "discontinued"@) ==> spec_canonicalize_status(raw) == Some("deprecated"@)
            &&& starts_with(t, "replaced"@) ==> spec_canonicalize_status(raw) == Some("superseded"@)
            &&& starts_with(t, "amended"@) ==> spec_canonicalize_status(raw) == Some("amended"@)
        }),
{
    let t = status_token(raw);
    lemma_synonym_table(t);
    reveal_strlit("amended");
    reveal_strlit("superseded");
    reveal_strlit("superceded");
    reveal_strlit("replaced");
    if starts_with(t, "amended"@) {
        assert(t.subrange(0, 7)[0] == 'a');
        assert(t[0] == 'a');
    }
}

/// `governance_effective` implies a full parse whose `doc_state` is
/// `accepted`.
pub proof fn law_effective_implies_accepted(
    path: Seq<char>,
    content: Seq<char>,
    sidecars: crate::governance_doc::SidecarSignals,
    pipe_literal: bool,
    h1_suffix: Option<Seq<char>>,
    doc_id: Option<Seq<char>>,
)
    ensures
        spec_classify_from(path, content, sidecars, pipe_literal, h1_suffix, doc_id) matches Some(d)
            ==> (d.governance_effective ==> d.doc_state == "accepted"@ && d.parse_quality
            == ParseQuality::FullParse),
{
    match spec_parse_decisions_table(content) {
        Some(rows) => if rows.len() > 0 {
            if let Some(raw) = rows[0].status_raw {
                if is_literal_accepted(raw) {
                    lemma_accepted_token_is_accepted(raw);
                }
            }
        },
        None => {
            if let Some(raw) = first_status_hit(content, h1_suffix) {
                if is_literal_accepted(raw) {
                    lemma_accepted_token_is_accepted(raw);
                }
            }
        },
    }
}

/// Only `accepted` itself sets `governance_effective`: a written status that
/// states `accepted` (the table's first row, or the first status in position
/// order), or, with no status anywhere, MADR's implicit accepted. A
/// near-synonym such as "implemented", "published" or "final" never does.
pub proof fn law_only_accepted_is_effective(
    path: Seq<char>,
    content: Seq<char>,
    sidecars: crate::governance_doc::SidecarSignals,
    pipe_literal: bool,
    h1_suffix: Option<Seq<char>>,
    doc_id: Option<Seq<char>>,
)
    ensures
        spec_classify_from(path, content, sidecars, pipe_literal, h1_suffix, doc_id) matches Some(d)
            ==> (d.governance_effective ==> match spec_parse_decisions_table(content) {
            Some(rows) => rows[0].status_raw matches Some(raw) && is_literal_accepted(raw),
            None => match first_status_hit(content, h1_suffix) {
                Some(raw) => is_literal_accepted(raw),
                None => spec_has_madr_fingerprint(content),
            },
        }),
{
}

/// Conversely, a stated `accepted` always puts the record in force, whichever
/// position supplied it (front matter, bullet list, `## Status` section or
/// H1 suffix, or the first row of a decisions table), and so does MADR's
/// implicit accepted when no position states a status: the result is then
/// an effective full parse with `doc_state` `accepted`.
pub proof fn law_stated_accepted_is_effective(
    path: Seq<char>,
    content: Seq<char>,
    sidecars: crate::governance_doc::SidecarSignals,
    pipe_literal: bool,
    h1_suffix: Option<Seq<char>>,
    doc_id: Option<Seq<char>>,
)
    requires
        !sidecars.kep_yaml_sidecar,
    ensures
        spec_classify_from(path, content, sidecars, pipe_literal, h1_suffix, doc_id) matches Some(d)
            ==> (match spec_parse_decisions_table(content) {
            Some(rows) => rows[0].status_raw matches Some(raw) && is_literal_accepted(raw),
            None => match first_status_hit(content, h1_suffix) {
                Some(raw) => is_literal_accepted(raw),
                None => spec_has_madr_fingerprint(content),
            },
        } ==> {
            &&& d.governance_effective
            &&& d.doc_state == "accepted"@
            &&& d.parse_quality == ParseQuality::FullParse
        }),
{
    match spec_parse_decisions_table(content) {
        Some(rows) => if rows.len() > 0 {
            if let Some(raw) = rows[0].status_raw {
                if is_literal_accepted(raw) {
                    lemma_accepted_token_is_accepted(raw);
                }
            }
        },
        None => {
            if let Some(raw) = first_status_hit(content, h1_suffix) {
                if is_literal_accepted(raw) {
                    lemma_accepted_token_is_accepted(raw);
                }
            }
        },
    }
}

/// The record id does not depend on how the status was resolved: every
/// decision record that does not come from a decisions table carries the
/// record id read from the file name or title (whether its status was
/// written, unrecognised, or MADR's implicit accepted); a decisions-table
/// record and a KEP proposal carry none. For `classify_governance_doc` that
/// id is `spec_extract_doc_id` of the path and the H1.
pub proof fn law_doc_id_is_the_record_id(
    path: Seq<char>,
    content: Seq<char>,
    sidecars: crate::governance_doc::SidecarSignals,
    pipe_literal: bool,
    h1_suffix: Option<Seq<char>>,
    doc_id: Option<Seq<char>>,
)
    ensures
        spec_classify_from(path, content, sidecars, pipe_literal, h1_suffix, doc_id) matches Some(d)
            ==> d.doc_id == if sidecars.kep_yaml_sidecar || spec_parse_decisions_table(
            content,
        ) is Some {
            None
        } else {
            doc_id
        },
        spec_classify_governance_doc(path, content, sidecars) matches Some(d) ==> d.doc_id
            == if sidecars.kep_yaml_sidecar || spec_parse_decisions_table(content) is Some {
            None
        } else {
            spec_extract_doc_id(path, spec_title(content))
        },
{
}

/// The status positions are read in a fixed order: front matter, then the
/// bullet list before the first `##` heading, then the `## Status` section,
/// then the H1 suffix; the first position that states a status wins.
pub proof fn law_status_position_order(content: Seq<char>, h1_suffix: Option<Seq<char>>)
    ensures
        spec_parse_front_matter(content).status is Some ==> first_status_hit(content, h1_suffix)
            == spec_parse_front_matter(content).status,
        spec_parse_front_matter(content).status is None && spec_find_bullet_status(content) is Some
            ==> first_status_hit(content, h1_suffix) == spec_find_bullet_status(content),
        spec_parse_front_matter(content).status is None && spec_find_bullet_status(content) is None
            && spec_find_status_section(content) is Some ==> first_status_hit(content, h1_suffix)
            == spec_find_status_section(content),
        spec_parse_front_matter(content).status is None && spec_find_bullet_status(content) is None
            && spec_find_status_section(content) is None ==> first_status_hit(content, h1_suffix)
            == h1_suffix,
{
}

/// A decision record outside a decisions table reports the canonical form of
/// the first status found: a full parse with that `doc_state` when the
/// status names a member of the vocabulary, recall-only otherwise.
pub proof fn law_doc_state_is_first_status(
    path: Seq<char>,
    content: Seq<char>,
    sidecars: crate::governance_doc::SidecarSignals,
    pipe_literal: bool,
    h1_suffix: Option<Seq<char>>,
    doc_id: Option<Seq<char>>,
    raw: Seq<char>,
)
    requires
        !sidecars.kep_yaml_sidecar,
        spec_parse_decisions_table(content) is None,
        first_status_hit(content, h1_suffix) == Some(raw),
    ensures
        spec_classify_from(path, content, sidecars, pipe_literal, h1_suffix, doc_id) matches Some(d)
            ==> match spec_canonicalize_status(raw) {
            Some(c) => d.doc_state == c && d.parse_quality == ParseQuality::FullParse,
            None => d.doc_state == "unknown"@ && d.parse_quality == ParseQuality::RecallOnly,
        },
{
}

/// The title, `ban` and `governs` of a result come from the document: the
/// title is the H1 with whitespace collapsed (a decisions table's first-row
/// title instead), and a decision record outside a table carries its front
/// matter's `ban` and `governs` unchanged.
pub proof fn law_record_fields_come_from_the_document(
    path: Seq<char>,
    content: Seq<char>,
    sidecars: crate::governance_doc::SidecarSignals,
    pipe_literal: bool,
    h1_suffix: Option<Seq<char>>,
    doc_id: Option<Seq<char>>,
)
    ensures
        spec_classify_from(path, content, sidecars, pipe_literal, h1_suffix, doc_id) matches Some(d)
            ==> {
            &&& d.title == match spec_parse_decisions_table(content) {
                Some(rows) if !sidecars.kep_yaml_sidecar => collapse_ws(rows[0].epitome),
                _ => collapse_ws(spec_title(content)),
            }
            &&& (!sidecars.kep_yaml_sidecar && spec_parse_decisions_table(content) is None) ==> {
                &&& d.ban == spec_parse_front_matter(content).ban
                &&& d.governs == spec_parse_front_matter(content).governs
            }
        },
{
}

/// Outside a decisions table, a decision record needs the Nygard or MADR
/// section fingerprint or front matter with decision keys; one with no
/// status in any position needs, besides, the MADR fingerprint (implicit
/// accepted), the Nygard fingerprint, or an `.adr-dir` / log4brains marker.
pub proof fn law_decision_record_needs_a_fingerprint(
    path: Seq<char>,
    content: Seq<char>,
    sidecars: crate::governance_doc::SidecarSignals,
    pipe_literal: bool,
    h1_suffix: Option<Seq<char>>,
    doc_id: Option<Seq<char>>,
)
    requires
        !sidecars.kep_yaml_sidecar,
        spec_parse_decisions_table(content) is None,
    ensures
        spec_classify_from(path, content, sidecars, pipe_literal, h1_suffix, doc_id) is Some ==> {
            &&& spec_has_nygard_fingerprint(content) || spec_has_madr_fingerprint(content) || (
            spec_parse_front_matter(content).present
                && !spec_parse_front_matter(content).only_scope_or_publishing_keys)
            &&& first_status_hit(content, h1_suffix) is None ==> spec_has_madr_fingerprint(content)
                || spec_has_nygard_fingerprint(content) || sidecars.adr_dir_marker
                || sidecars.log4brains_marker
        },
{
}

/// A file that passes every gate (no template signal, no KEP sidecar, no
/// never-decision file name, no publishing or issue-template front matter,
/// no index/TOC or numbered-tutorial lookalike) and carries the Nygard or
/// MADR fingerprint is always classified as a decision record.
pub proof fn law_fingerprinted_file_is_classified(
    path: Seq<char>,
    content: Seq<char>,
    sidecars: crate::governance_doc::SidecarSignals,
    pipe_literal: bool,
    h1_suffix: Option<Seq<char>>,
    doc_id: Option<Seq<char>>,
)
    requires
        !spec_template_from(path, content, pipe_literal),
        !sidecars.kep_yaml_sidecar,
        !is_never_decision_filename(spec_file_name_lc(path)),
        !spec_looks_like_publishing_front_matter(content),
        !spec_looks_like_issue_template(content),
        !spec_looks_like_index_or_toc(content),
        !spec_looks_like_numbered_tutorial(path, content),
        spec_has_nygard_fingerprint(content) || spec_has_madr_fingerprint(content),
    ensures
        spec_classify_from(path, content, sidecars, pipe_literal, h1_suffix, doc_id) matches Some(d)
            && d.doc_class == DocClass::DecisionRecord,
{
    if let Some(rows) = spec_parse_decisions_table(content) {
        crate::table::law_parse_decisions_table_shape(content);
    }
}

/// A recall-only result never invents a status: its `doc_state` is
/// `unknown` and it is not effective; a full parse carries a status of the
/// closed vocabulary.
pub proof fn law_doc_state_is_honest(
    path: Seq<char>,
    content: Seq<char>,
    sidecars: crate::governance_doc::SidecarSignals,
    pipe_literal: bool,
    h1_suffix: Option<Seq<char>>,
    doc_id: Option<Seq<char>>,
)
    ensures
        spec_classify_from(path, content, sidecars, pipe_literal, h1_suffix, doc_id) matches Some(d)
            ==> {
            &&& d.parse_quality == ParseQuality::RecallOnly ==> d.doc_state == "unknown"@
                && !d.governance_effective
            &&& d.parse_quality == ParseQuality::FullParse ==> is_canonical_status(d.doc_state)
        },
{
}

/// The classifier chooses only two doc-classes: `ProposalInFlight`, exactly
/// when a `kep.yaml` sidecar is present, and `DecisionRecord` otherwise.
pub proof fn law_doc_class_choice(
    path: Seq<char>,
    content: Seq<char>,
    sidecars: crate::governance_doc::SidecarSignals,
    pipe_literal: bool,
    h1_suffix: Option<Seq<char>>,
    doc_id: Option<Seq<char>>,
)
    ensures
        spec_classify_from(path, content, sidecars, pipe_literal, h1_suffix, doc_id) matches Some(d)
            ==> {
            &&& (d.doc_class == DocClass::ProposalInFlight <==> sidecars.kep_yaml_sidecar)
            &&& (d.doc_class == DocClass::DecisionRecord <==> !sidecars.kep_yaml_sidecar)
        },
{
}

/// The template gate runs first: a template or placeholder file is never
/// governance, whatever the sidecars say.
pub proof fn law_template_is_never_governance(
    path: Seq<char>,
    content: Seq<char>,
    sidecars: crate::governance_doc::SidecarSignals,
    pipe_literal: bool,
    h1_suffix: Option<Seq<char>>,
    doc_id: Option<Seq<char>>,
)
    requires
        spec_template_from(path, content, pipe_literal),
    ensures
        spec_classify_from(path, content, sidecars, pipe_literal, h1_suffix, doc_id) is None,
{
}

/// A `kep.yaml` sidecar routes any non-template file, even a README, to a
/// recall-only proposal titled by its H1.
pub proof fn law_kep_sidecar_is_recall_only_proposal(
    path: Seq<char>,
    content: Seq<char>,
    sidecars: crate::governance_doc::SidecarSignals,
    pipe_literal: bool,
    h1_suffix: Option<Seq<char>>,
    doc_id: Option<Seq<char>>,
)
    requires
        !spec_template_from(path, content, pipe_literal),
        sidecars.kep_yaml_sidecar,
    ensures
        spec_classify_from(path, content, sidecars, pipe_literal, h1_suffix, doc_id) == Some(
            DocView {
                doc_class: DocClass::ProposalInFlight,
                doc_state: "unknown"@,
                governance_effective: false,
                parse_quality: ParseQuality::RecallOnly,
                title: collapse_ws(spec_title(content)),
                doc_id: None,
                ban: false,
                governs: seq![],
            },
        ),
{
}

/// README, CONTRIBUTING, CHANGELOG and the other standing files are never a
/// decision record, whatever they contain (unless a KEP sidecar claims them).
pub proof fn law_never_decision_filenames(
    path: Seq<char>,
    content: Seq<char>,
    sidecars: crate::governance_doc::SidecarSignals,
    pipe_literal: bool,
    h1_suffix: Option<Seq<char>>,
    doc_id: Option<Seq<char>>,
)
    requires
        !sidecars.kep_yaml_sidecar,
        is_never_decision_filename(spec_file_name_lc(path)),
    ensures
        spec_classify_from(path, content, sidecars, pipe_literal, h1_suffix, doc_id) is None,
{
}

/// `ban` is explicit-only: it is set only on a decision record whose front
/// matter is present and carries a non-falsy `ban:`/`policy:` key.
pub proof fn law_ban_is_explicit_only(
    path: Seq<char>,
    content: Seq<char>,
    sidecars: crate::governance_doc::SidecarSignals,
    pipe_literal: bool,
    h1_suffix: Option<Seq<char>>,
    doc_id: Option<Seq<char>>,
)
    ensures
        spec_classify_from(path, content, sidecars, pipe_literal, h1_suffix, doc_id) matches Some(d)
            ==> (d.ban ==> {
            &&& d.doc_class == DocClass::DecisionRecord
            &&& spec_parse_front_matter(content).present
            &&& spec_parse_front_matter(content).ban
        }),
{
}

/// `governs` is never invented: a non-empty selector list is exactly the
/// `governs:` list of the document's front matter.
pub proof fn law_governs_comes_from_front_matter(
    path: Seq<char>,
    content: Seq<char>,
    sidecars: crate::governance_doc::SidecarSignals,
    pipe_literal: bool,
    h1_suffix: Option<Seq<char>>,
    doc_id: Option<Seq<char>>,
)
    ensures
        spec_classify_from(path, content, sidecars, pipe_literal, h1_suffix, doc_id) matches Some(d)
            ==> (d.governs.len() > 0 ==> {
            &&& spec_parse_front_matter(content).present
            &&& d.governs == spec_parse_front_matter(content).governs
        }),
{
}

/// A document with no status in any position (and no decisions table) is
/// implicitly accepted exactly when it carries the MADR fingerprint;
/// otherwise it is at best recall-only.
pub proof fn law_implicit_accept_needs_madr(
    path: Seq<char>,
    content: Seq<char>,
    sidecars: crate::governance_doc::SidecarSignals,
    pipe_literal: bool,
    h1_suffix: Option<Seq<char>>,
    doc_id: Option<Seq<char>>,
)
    requires
        !sidecars.kep_yaml_sidecar,
        spec_parse_decisions_table(content) is None,
        first_status_hit(content, h1_suffix) is None,
    ensures
        spec_classify_from(path, content, sidecars, pipe_literal, h1_suffix, doc_id) matches Some(d)
            ==> {
            &&& (d.governance_effective <==> spec_has_madr_fingerprint(content))
            &&& (d.parse_quality == ParseQuality::FullParse <==> spec_has_madr_fingerprint(
                content,
            ))
        },
{
}


/// An ASCII letter.
pub open spec fn is_ascii_letter(c: char) -> bool {
    ('a' <= c && c <= 'z') || ('A' <= c && c <= 'Z')
}

/// None of the characters of `p` is an ASCII letter.
pub open spec fn letter_free(p: Seq<char>) -> bool {
    forall|k: int| 0 <= k < p.len() ==> !is_ascii_letter(#[trigger] p[k])
}

proof fn lemma_lower_char(c: char, d: char)
    requires
        !is_ascii_letter(d),
    ensures
        ascii_lower(ascii_lower(c)) == ascii_lower(c),
        is_ws(ascii_lower(c)) == is_ws(c),
        (ascii_lower(c) == d) == (c == d),
{
}

proof fn lemma_in_set_lower(c: char, set: Seq<char>, ws: bool)
    requires
        letter_free(set),
    ensures
        in_set(ascii_lower(c), set, ws) == in_set(c, set, ws),
{
    assert(is_ws(ascii_lower(c)) == is_ws(c));
    if set.contains(c) {
        let k = choose|k: int| 0 <= k < set.len() && set[k] == c;
        lemma_lower_char(c, set[k]);
        assert(set[k] == ascii_lower(c));
    }
    if set.contains(ascii_lower(c)) {
        let k = choose|k: int| 0 <= k < set.len() && set[k] == ascii_lower(c);
        lemma_lower_char(c, set[k]);
    }
}

proof fn lemma_lower_idempotent(s: Seq<char>)
    ensures
        lower(lower(s)) == lower(s),
{
    assert forall|k: int| 0 <= k < s.len() implies #[trigger] lower(lower(s))[k] == lower(s)[k] by {
        lemma_lower_char(s[k], ' ');
    }
    assert(lower(lower(s)) =~= lower(s));
}

proof fn lemma_trim_start_set_lower(s: Seq<char>, set: Seq<char>, ws: bool)
    requires
        letter_free(set),
    ensures
        trim_start_set(lower(s), set, ws) == lower(trim_start_set(s, set, ws)),
    decreases s.len(),
{
    if s.len() > 0 {
        lemma_in_set_lower(s[0], set, ws);
        assert(lower(s).drop_first() =~= lower(s.drop_first()));
        lemma_trim_start_set_lower(s.drop_first(), set, ws);
    }
}

proof fn lemma_trim_end_set_lower(s: Seq<char>, set: Seq<char>, ws: bool)
    requires
        letter_free(set),
    ensures
        trim_end_set(lower(s), set, ws) == lower(trim_end_set(s, set, ws)),
    decreases s.len(),
{
    if s.len() > 0 {
        lemma_in_set_lower(s.last(), set, ws);
        assert(lower(s).drop_last() =~= lower(s.drop_last()));
        lemma_trim_end_set_lower(s.drop_last(), set, ws);
    }
}

proof fn lemma_trim_set_lower(s: Seq<char>, set: Seq<char>, ws: bool)
    requires
        letter_free(set),
    ensures
        trim_set(lower(s), set, ws) == lower(trim_set(s, set, ws)),
{
    lemma_trim_start_set_lower(s, set, ws);
    lemma_trim_end_set_lower(trim_start_set(s, set, ws), set, ws);
}

proof fn lemma_matches_at_lower(s: Seq<char>, p: Seq<char>, i: int)
    requires
        letter_free(p),
    ensures
        matches_at(lower(s), p, i) == matches_at(s, p, i),
{
    if 0 <= i && i + p.len() <= s.len() {
        assert forall|k: int| 0 <= k < p.len() implies (lower(s)[i + k] == p[k]) == (s[i + k]
            == p[k]) by {
            lemma_lower_char(s[i + k], p[k]);
        }
        if matches_at(s, p, i) {
            assert forall|k: int| 0 <= k < p.len() implies #[trigger] lower(s).subrange(
                i,
                i + p.len(),
            )[k] == p[k] by {
                assert(s.subrange(i, i + p.len())[k] == p[k]);
            }
            assert(lower(s).subrange(i, i + p.len()) =~= p);
        }
        if matches_at(lower(s), p, i) {
            assert forall|k: int| 0 <= k < p.len() implies #[trigger] s.subrange(i, i + p.len())[k]
                == p[k] by {
                assert(lower(s).subrange(i, i + p.len())[k] == p[k]);
            }
            assert(s.subrange(i, i + p.len()) =~= p);
        }
    }
}

proof fn lemma_find_from_lower(s: Seq<char>, p: Seq<char>, i: int)
    requires
        letter_free(p),
    ensures
        find_from(lower(s), p, i) == find_from(s, p, i),
    decreases s.len() + 1 - i,
{
    lemma_matches_at_lower(s, p, i);
    if !(i < 0 || i + p.len() > s.len()) && !matches_at(s, p, i) {
        lemma_find_from_lower(s, p, i + 1);
    }
}

proof fn lemma_cut_annotation_lower(s: Seq<char>, marker: Seq<char>, closers: Seq<char>)
    requires
        letter_free(marker),
        letter_free(closers),
    ensures
        cut_annotation(lower(s), marker, closers) == lower(cut_annotation(s, marker, closers)),
{
    let empty: Seq<char> = seq![];
    assert(letter_free(empty));
    lemma_find_from_lower(s, marker, 0);
    if s.len() > 0 {
        lemma_in_set_lower(s.last(), closers, false);
    }
    match find(s, marker) {
        Some(idx) => {
            crate::text::lemma_find_from_matches(s, marker, 0);
            assert(lower(s).subrange(0, idx) =~= lower(s.subrange(0, idx)));
            lemma_trim_set_lower(s.subrange(0, idx), empty, true);
        },
        None => {},
    }
}

proof fn lemma_strip_annotation_lower(raw: Seq<char>)
    ensures
        spec_strip_trailing_annotation(lower(raw)) == lower(spec_strip_trailing_annotation(raw)),
{
    reveal_strlit(" (");
    reveal_strlit(" [");
    let empty: Seq<char> = seq![];
    assert(letter_free(empty));
    assert(letter_free(" ("@));
    assert(letter_free(" ["@));
    let paren = seq![')'];
    let brackets = seq![']', ')'];
    assert(letter_free(paren));
    assert(letter_free(brackets));
    lemma_trim_set_lower(raw, empty, true);
    let s = trim(raw);
    lemma_cut_annotation_lower(s, " ("@, paren);
    lemma_cut_annotation_lower(cut_annotation(s, " ("@, paren), " ["@, brackets);
}

/// A raw status and its ASCII-lowercase form have the same matching token.
proof fn lemma_token_of_lower(raw: Seq<char>)
    ensures
        status_token(lower(raw)) == status_token(raw),
{
    let empty: Seq<char> = seq![];
    assert(letter_free(empty));
    lemma_strip_annotation_lower(raw);
    let a = spec_strip_trailing_annotation(raw);
    lemma_trim_set_lower(a, empty, true);
    lemma_lower_idempotent(trim(a));
}

/// Canonicalization is case-insensitive: two raw statuses that differ only
/// in ASCII case (e.g. `ACCEPTED` and `Accepted`) map to the same status.
pub proof fn law_canonicalize_ignores_case(a: Seq<char>, b: Seq<char>)
    requires
        lower(a) == lower(b),
    ensures
        spec_canonicalize_status(a) == spec_canonicalize_status(b),
        status_token(a) == status_token(b),
{
    lemma_token_of_lower(a);
    lemma_token_of_lower(b);
}

} // verus!
