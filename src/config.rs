use vstd::prelude::*;

use crate::grading::GradeSettings;

verus! {

/// The settings the agent runs with, read once at start.
#[derive(Clone, Debug)]
pub struct Config {
    /// The node's RPC address.
    pub substrate_ws_url: String,
    /// Seconds between two successful batch runs.
    pub interval: u64,
    /// Growth factor of the wait after hard failures.
    pub error_interval: u32,
    /// Where to fetch the stash list from; empty when there is none.
    pub stashes_url: String,
    /// How grades are fetched.
    pub grade: GradeSettings,
}

} // verus!
