//! The executor variants that the platform selects between.

use vstd::prelude::*;

verus! {

/// Runs a task from scratch.
pub struct GeminiExecutor;

/// Continues an earlier attempt, given the new request text.
pub struct GeminiFollowupExecutor {
    pub attempt_id: u128,
    pub prompt: String,
}

} // verus!
