//! Fee and balance arithmetic.
use vstd::prelude::*;

verus! {

/// The compute unit limit the client requests for prioritised transactions.
pub const PRIORITY_COMPUTE_UNITS: u64 = 400_000;

/// `LAMPORTS_PER_SOL` of `solana_sdk::native_token`. It is one billion. Verus
/// takes this contract on trust.
#[verifier::external_body]
pub fn lamports_per_sol() -> (lamports: u64)
    ensures
        lamports == 1_000_000_000,
{
    solana_sdk::native_token::LAMPORTS_PER_SOL
}

/// Micro-lamports in one lamport.
pub const MICRO_LAMPORTS_PER_LAMPORT: u64 = 1_000_000;

/// The surcharge, in micro-lamports per compute unit, added to the most
/// recent prioritisation fee.
pub const PRIORITY_PRICE_SURCHARGE: u64 = 1_000_000;

/// `a * b`, or `u64::MAX` when the product does not fit.
pub open spec fn saturating_product(a: u64, b: u64) -> u64 {
    if a * b > u64::MAX { u64::MAX } else { (a * b) as u64 }
}

/// The compute unit price (micro-lamports per unit) that spreads a total
/// priority fee, given in lamports, over a compute budget: the fee in
/// micro-lamports (saturating) divided by the budget, a budget of zero
/// counting as one.
pub open spec fn unit_price(priority_fee_lamports: u64, compute_units: u64) -> u64 {
    (saturating_product(priority_fee_lamports, MICRO_LAMPORTS_PER_LAMPORT) / (if compute_units == 0 { 1 } else { compute_units })) as u64
}

/// Computes `unit_price`.
pub fn price_per_compute_unit(priority_fee_lamports: u64, compute_units: u64) -> (price: u64)
    ensures
        price == unit_price(priority_fee_lamports, compute_units),
{
    let micro_lamports: u64 = if priority_fee_lamports > u64::MAX / MICRO_LAMPORTS_PER_LAMPORT {
        u64::MAX
    } else {
        priority_fee_lamports * MICRO_LAMPORTS_PER_LAMPORT
    };
    let units: u64 = if compute_units == 0 { 1 } else { compute_units };
    micro_lamports / units
}

/// The price never asks more than the fee (a micro-lamport being a
/// millionth of a lamport): with a nonzero budget and a fee
/// whose micro-lamport amount fits in a `u64`, the price times the budget is
/// at most the fee in micro-lamports, and one more micro-lamport per unit
/// would exceed it.
pub proof fn unit_price_spends_at_most_the_fee(priority_fee_lamports: u64, compute_units: u64)
    requires
        compute_units > 0,
        priority_fee_lamports * MICRO_LAMPORTS_PER_LAMPORT <= u64::MAX,
    ensures
        MICRO_LAMPORTS_PER_LAMPORT == 1_000_000,
        unit_price(priority_fee_lamports, compute_units) * compute_units <= priority_fee_lamports * MICRO_LAMPORTS_PER_LAMPORT,
        priority_fee_lamports * MICRO_LAMPORTS_PER_LAMPORT < (unit_price(priority_fee_lamports, compute_units) + 1) * compute_units,
{
    let total: int = priority_fee_lamports * MICRO_LAMPORTS_PER_LAMPORT;
    let d: int = compute_units as int;
    assert(saturating_product(priority_fee_lamports, MICRO_LAMPORTS_PER_LAMPORT) == total);
    let q: int = total / d;
    vstd::arithmetic::div_mod::lemma_fundamental_div_mod(total, d);
    assert(0 <= total % d < d) by {
        vstd::arithmetic::div_mod::lemma_mod_bound(total, d);
    }
    assert(q * d <= total) by (nonlinear_arith)
        requires total == d * q + total % d, total % d >= 0;
    assert(total < (q + 1) * d) by (nonlinear_arith)
        requires total == d * q + total % d, total % d < d;
}

/// A lamport balance read as a signed amount, as `as i64` reads it.
pub open spec fn signed_lamports(x: u64) -> i64 {
    x as i64
}

/// The change of a balance, `after - before`, both read as signed amounts.
pub fn lamport_delta(before: u64, after: u64) -> (delta: i64)
    requires
        i64::MIN <= signed_lamports(after) - signed_lamports(before) <= i64::MAX,
    ensures
        delta == signed_lamports(after) - signed_lamports(before),
{
    (after as i64) - (before as i64)
}

/// The balance change gives back the new balance: for balances that are
/// valid signed amounts, the old balance plus the change is the new one.
pub proof fn lamport_delta_restores_balance(before: u64, after: u64)
    requires
        before <= i64::MAX,
        after <= i64::MAX,
    ensures
        i64::MIN <= signed_lamports(after) - signed_lamports(before) <= i64::MAX,
        before + (signed_lamports(after) - signed_lamports(before)) == after,
{
    assert(signed_lamports(before) == before) by (bit_vector)
        requires before <= 0x7fff_ffff_ffff_ffffu64;
    assert(signed_lamports(after) == after) by (bit_vector)
        requires after <= 0x7fff_ffff_ffff_ffffu64;
}

/// The compute unit price offered above the recent prioritisation fees: the
/// most recent fee plus the surcharge; `None` when no recent fee is known.
pub fn price_above_recent_fees(recent_fees: &Vec<u64>) -> (price: Option<u64>)
    requires
        recent_fees@.len() > 0 ==> recent_fees@.last() + PRIORITY_PRICE_SURCHARGE <= u64::MAX,
    ensures
        recent_fees@.len() == 0 ==> price is None,
        recent_fees@.len() > 0 ==> price == Some((recent_fees@.last() + PRIORITY_PRICE_SURCHARGE) as u64),
{
    let n: usize = recent_fees.len();
    if n == 0 {
        None
    } else {
        Some(recent_fees[n - 1] + PRIORITY_PRICE_SURCHARGE)
    }
}

} // verus!
