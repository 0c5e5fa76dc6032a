//! Constants of the proposal lifecycle.

use vstd::prelude::*;

verus! {

/// Smallest deposit of a proposal: one thousand units of 10^8 subunits each.
pub const MIN_PROPOSAL_DEPOSIT: u128 = 100_000_000_000;

/// Default voting period in blocks, about fourteen days.
pub const DEFAULT_VOTING_PERIOD: u64 = 120960;

/// Default delay before execution in blocks, about two days.
pub const DEFAULT_EXECUTION_DELAY: u64 = 17280;

/// Default quorum, in percent of the total supply.
pub const DEFAULT_QUORUM_THRESHOLD: u8 = 10;

/// Default approval threshold, in percent.
pub const DEFAULT_APPROVAL_THRESHOLD: u8 = 60;

} // verus!
