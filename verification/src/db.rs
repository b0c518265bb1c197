//! What the vote store reports.

use vstd::prelude::*;

verus! {

/// The votes that a song has received.
#[derive(Debug, PartialEq, Eq)]
pub struct VoteCount {
    pub song_id: String,
    pub votes_for: u32,
    pub votes_against: u32,
}

} // verus!
