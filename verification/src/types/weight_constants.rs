//! Fixed-point constants of the vote-weight formula.

use vstd::prelude::*;

verus! {

/// Base weight multiplier: 10000 stands for a factor of one.
pub const BASE_MULTIPLIER: u32 = 10000;

/// Largest age multiplier: 20000 stands for a factor of two.
pub const MAX_AGE_MULTIPLIER: u32 = 20000;

/// Blocks of holding that earn one percent of bonus, about one day.
pub const AGE_BONUS_BLOCKS: u64 = 8640;

/// Age from which the largest multiplier applies, about one year.
pub const MAX_AGE_BLOCKS: u64 = 3153600;

/// Multiplier for stake that is eligible for the deposit bonus: 15000
/// stands for a factor of one and a half.
pub const NERVOS_DAO_MULTIPLIER: u32 = 15000;

} // verus!
