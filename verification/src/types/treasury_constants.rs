//! Constants of treasury operations.

use vstd::prelude::*;

verus! {

/// Fewest signatures that a normal operation needs.
pub const MIN_SIGNATURES: u8 = 3;

/// Largest number of guardians, and so of signatures.
pub const MAX_GUARDIANS: u8 = 10;

/// Default time lock in blocks, about seven days.
pub const DEFAULT_TIMELOCK_BLOCKS: u64 = 60480;

/// Time lock of an emergency operation in blocks, about one day.
pub const EMERGENCY_TIMELOCK_BLOCKS: u64 = 8640;

} // verus!
