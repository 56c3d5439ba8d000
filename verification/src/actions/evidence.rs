//! Evidence records for executed actions.

use vstd::prelude::*;
use crate::ipc::{Evidence, EvidenceView};
use crate::text::texts;

verus! {

/// Evidence with one artifact.
pub fn action_evidence(summary: &str, artifact: &str) -> (out: Evidence)
    ensures
        out@ == (EvidenceView { summary: summary@, artifacts: seq![artifact@] }),
{
    let mut artifacts: Vec<String> = Vec::new();
    artifacts.push(artifact.to_string());
    assert(texts(artifacts@) =~= seq![artifact@]);
    Evidence { summary: summary.to_string(), artifacts }
}

} // verus!
