//! The commit gate: does a commit still need a generated summary?

use vstd::prelude::*;

verus! {

/// The summary fields persisted for one commit of one repository.
#[derive(Clone, Debug)]
pub struct StoredSummaryState {
    pub blurb: Option<String>,
    pub description: Option<String>,
}

impl StoredSummaryState {
    /// A stored state is complete when both generated fields are present.
    pub open spec fn complete(self) -> bool {
        self.blurb is Some && self.description is Some
    }
}

/// A commit needs a summary when nothing is stored for it, or when what is
/// stored misses a field.
pub open spec fn gate_open(existing: Option<StoredSummaryState>) -> bool {
    match existing {
        None => true,
        Some(state) => !state.complete(),
    }
}

/// Decides whether a commit must be (re)generated given what is stored for it.
///
/// Partially populated records count as incomplete and are attempted again.
pub fn needs_processing(existing: Option<&StoredSummaryState>) -> (needed: bool)
    ensures
        needed == match existing {
            None => true,
            Some(state) => !state.complete(),
        },
{
    match existing {
        None => true,
        Some(state) => state.blurb.is_none() || state.description.is_none(),
    }
}

} // verus!
