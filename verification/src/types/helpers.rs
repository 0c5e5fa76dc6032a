//! The vote-weight formula and the hash of a lock script.

use vstd::prelude::*;
use ckb_std::ckb_types::packed::Script;
use ckb_std::ckb_types::prelude::Entity;
use crate::types::weight_constants::{
    AGE_BONUS_BLOCKS, BASE_MULTIPLIER, MAX_AGE_BLOCKS, MAX_AGE_MULTIPLIER, NERVOS_DAO_MULTIPLIER,
};

verus! {

/// `ckb_std::ckb_types::packed::Script`, carried through as an opaque value.
#[verifier::external_type_specification]
#[verifier::external_body]
pub struct ExScript(ckb_std::ckb_types::packed::Script);

/// The 32 bytes of a script's hash.
pub uninterp spec fn script_hash(script: Script) -> Seq<u8>;

/// Returns the hash of a lock script, by which its owner is known.
///
/// Calls `calc_script_hash` of `ckb_std::ckb_types::packed::Script`, which
/// hashes the script's serialized bytes to 32 bytes, and copies them out.
/// The contract names that hash `script_hash`; the hash itself is not stated.
#[verifier::external_body]
pub fn script_to_lock_hash(script: &Script) -> (hash: [u8; 32])
    ensures
        hash@ == script_hash(*script),
{
    let mut hash = [0u8; 32];
    let script_hash = script.calc_script_hash();
    hash.copy_from_slice(script_hash.as_slice());
    hash
}

/// The age multiplier in fixed point: one percent for each full bonus period
/// held, at most a factor of two, which also applies from `MAX_AGE_BLOCKS` on.
pub open spec fn age_multiplier(age_blocks: nat) -> nat {
    if age_blocks >= MAX_AGE_BLOCKS as nat {
        MAX_AGE_MULTIPLIER as nat
    } else {
        let bonus = (age_blocks / (AGE_BONUS_BLOCKS as nat)) * 100;
        if bonus <= 10000 {
            BASE_MULTIPLIER as nat + bonus
        } else {
            BASE_MULTIPLIER as nat + 10000
        }
    }
}

/// Computes the age multiplier of a stake held for `age_blocks` blocks.
pub fn calculate_age_multiplier(age_blocks: u64) -> (multiplier: u32)
    ensures
        multiplier as nat == age_multiplier(age_blocks as nat),
        BASE_MULTIPLIER <= multiplier <= MAX_AGE_MULTIPLIER,
        age_blocks >= MAX_AGE_BLOCKS ==> multiplier == MAX_AGE_MULTIPLIER,
{
    if age_blocks >= MAX_AGE_BLOCKS {
        MAX_AGE_MULTIPLIER
    } else {
        let bonus_periods: u64 = age_blocks / AGE_BONUS_BLOCKS;
        assert(bonus_periods <= 364);
        let bonus: u32 = bonus_periods as u32 * 100;
        let span: u32 = MAX_AGE_MULTIPLIER - BASE_MULTIPLIER;
        if bonus <= span {
            BASE_MULTIPLIER + bonus
        } else {
            BASE_MULTIPLIER + span
        }
    }
}

/// A value times a fixed-point multiplier, rounded down.
pub open spec fn scaled(value: nat, multiplier: nat) -> nat {
    value * multiplier / (BASE_MULTIPLIER as nat)
}

/// The voting weight of a stake: the amount scaled by the age multiplier and,
/// for eligible stake, by the deposit bonus after that. Each step rounds down.
pub open spec fn vote_weight(amount: nat, age_blocks: nat, has_nervos_dao: bool) -> nat {
    let aged = scaled(amount, age_multiplier(age_blocks));
    if has_nervos_dao {
        scaled(aged, NERVOS_DAO_MULTIPLIER as nat)
    } else {
        aged
    }
}

/// Scaling by a larger value or a larger multiplier gives no less.
pub proof fn lemma_scaled_monotonic(v1: nat, m1: nat, v2: nat, m2: nat)
    requires
        v1 <= v2,
        m1 <= m2,
    ensures
        scaled(v1, m1) <= scaled(v2, m2),
{
    assert(v1 * m1 <= v2 * m2) by (nonlinear_arith)
        requires
            v1 <= v2,
            m1 <= m2,
    ;
}

/// Scaling by a multiplier of at least one and at most `factor` keeps the value
/// between itself and `factor` times itself.
pub proof fn lemma_scaled_bounds(value: nat, multiplier: nat, factor: nat)
    requires
        BASE_MULTIPLIER as nat <= multiplier <= factor * (BASE_MULTIPLIER as nat),
    ensures
        value <= scaled(value, multiplier) <= factor * value,
{
    assert(value * 10000 <= value * multiplier <= (factor * value) * 10000) by (nonlinear_arith)
        requires
            10000 <= multiplier <= factor * 10000,
    ;
}

/// Scales `value` by `multiplier` without leaving 128 bits on the way: the
/// quotient and the remainder by the base are scaled apart.
fn scale(value: u128, multiplier: u32) -> (result: u128)
    requires
        scaled(value as nat, multiplier as nat) <= u128::MAX,
    ensures
        result as nat == scaled(value as nat, multiplier as nat),
{
    let base: u128 = BASE_MULTIPLIER as u128;
    let factor: u128 = multiplier as u128;
    let whole: u128 = value / base;
    let rest: u128 = value % base;
    proof {
        let w = whole as int;
        let r = rest as int;
        let m = factor as int;
        assert(value as int * m == 10000 * (w * m) + r * m) by (nonlinear_arith)
            requires
                value as int == 10000 * w + r,
        ;
        assert(0 <= w * m && 0 <= r * m < 10000 * 0x1_0000_0000) by (nonlinear_arith)
            requires
                0 <= w,
                0 <= r < 10000,
                0 <= m < 0x1_0000_0000,
        ;
        assert((10000 * (w * m) + r * m) / 10000 == w * m + (r * m) / 10000);
    }
    whole * factor + rest * factor / base
}

/// Computes the voting weight of `amount` held for `utxo_age_blocks` blocks.
///
/// The weight must fit in 128 bits; it never exceeds three times the amount
/// (see `lemma_vote_weight_bounds`).
pub fn calculate_vote_weight(amount: u128, utxo_age_blocks: u64, has_nervos_dao: bool) -> (weight:
    u128)
    requires
        vote_weight(amount as nat, utxo_age_blocks as nat, has_nervos_dao) <= u128::MAX,
    ensures
        weight as nat == vote_weight(amount as nat, utxo_age_blocks as nat, has_nervos_dao),
{
    let age_multiplier: u32 = calculate_age_multiplier(utxo_age_blocks);
    proof {
        let aged = scaled(amount as nat, age_multiplier as nat);
        lemma_scaled_bounds(aged, NERVOS_DAO_MULTIPLIER as nat, 2);
    }
    let aged: u128 = scale(amount, age_multiplier);
    if has_nervos_dao {
        scale(aged, NERVOS_DAO_MULTIPLIER)
    } else {
        aged
    }
}

/// The age multiplier lies between one and two in fixed point.
pub proof fn lemma_age_multiplier_bounds(age_blocks: nat)
    ensures
        BASE_MULTIPLIER as nat <= age_multiplier(age_blocks) <= MAX_AGE_MULTIPLIER as nat,
        age_blocks >= MAX_AGE_BLOCKS as nat ==> age_multiplier(age_blocks)
            == MAX_AGE_MULTIPLIER as nat,
        age_blocks < AGE_BONUS_BLOCKS as nat ==> age_multiplier(age_blocks)
            == BASE_MULTIPLIER as nat,
{
}

/// A stake held longer has no smaller age multiplier.
pub proof fn lemma_age_multiplier_monotonic(younger: nat, older: nat)
    requires
        younger <= older,
    ensures
        age_multiplier(younger) <= age_multiplier(older),
{
    assert(younger / 8640 <= older / 8640);
}

/// The weight lies between the amount and three times the amount; without the
/// deposit bonus it is at most twice the amount.
pub proof fn lemma_vote_weight_bounds(amount: nat, age_blocks: nat, has_nervos_dao: bool)
    ensures
        amount <= vote_weight(amount, age_blocks, has_nervos_dao) <= 3 * amount,
        !has_nervos_dao ==> vote_weight(amount, age_blocks, has_nervos_dao) <= 2 * amount,
{
    let aged = scaled(amount, age_multiplier(age_blocks));
    lemma_scaled_bounds(amount, age_multiplier(age_blocks), 2);
    lemma_scaled_bounds(aged, NERVOS_DAO_MULTIPLIER as nat, 2);
    assert(aged * 15000 <= (3 * amount) * 10000) by (nonlinear_arith)
        requires
            aged <= 2 * amount,
    ;
}

/// The weight does not decrease when the amount or the age grows, nor when the
/// stake becomes eligible for the deposit bonus.
pub proof fn lemma_vote_weight_monotonic(
    amount1: nat,
    age1: nat,
    bonus1: bool,
    amount2: nat,
    age2: nat,
    bonus2: bool,
)
    requires
        amount1 <= amount2,
        age1 <= age2,
        bonus1 ==> bonus2,
    ensures
        vote_weight(amount1, age1, bonus1) <= vote_weight(amount2, age2, bonus2),
{
    lemma_age_multiplier_monotonic(age1, age2);
    let aged1 = scaled(amount1, age_multiplier(age1));
    let aged2 = scaled(amount2, age_multiplier(age2));
    lemma_scaled_monotonic(amount1, age_multiplier(age1), amount2, age_multiplier(age2));
    lemma_scaled_monotonic(aged1, NERVOS_DAO_MULTIPLIER as nat, aged2, NERVOS_DAO_MULTIPLIER as nat);
    lemma_scaled_bounds(aged2, NERVOS_DAO_MULTIPLIER as nat, 2);
}

/// A stake with no full bonus period and no deposit bonus weighs its amount.
pub proof fn lemma_vote_weight_identity(amount: nat, age_blocks: nat)
    requires
        age_blocks < AGE_BONUS_BLOCKS as nat,
    ensures
        vote_weight(amount, age_blocks, false) == amount,
{
    assert(amount * 10000 / 10000 == amount);
}

} // verus!
