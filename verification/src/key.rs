//! The identity under which activity is recorded.

use vstd::prelude::*;

verus! {

/// A participant in one space. Two keys are the same key exactly when both
/// identifiers agree, so the same participant in two spaces is on probation
/// twice, independently.
#[derive(Clone, Copy, Debug, PartialEq, Eq, Hash, Structural)]
pub struct ParticipantKey {
    pub participant: u64,
    pub space: u64,
}

impl ParticipantKey {
    pub fn new(participant: u64, space: u64) -> (key: Self)
        ensures
            key == (ParticipantKey { participant, space }),
    {
        ParticipantKey { participant, space }
    }
}

} // verus!
