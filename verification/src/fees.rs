//! The fee schedule and its arithmetic.
//!
//! A gross amount is split four ways using basis-point rates (parts per
//! 10000): broadcaster, relayer and protocol each take their rate, computed
//! independently with truncating division, and the net amount is what is
//! left by subtraction, so the four parts always sum back to the gross
//! amount exactly.

use vstd::prelude::*;

verus! {

/// Total fee taken from a payment, in basis points (1.00%).
pub const TOTAL_FEE_BPS: u64 = 100;

/// Broadcaster share (the first relay peer), in basis points (0.50%).
pub const BROADCASTER_FEE_BPS: u64 = 50;

/// Relayer share (the submitter to the blockchain), in basis points (0.10%).
pub const RELAYER_FEE_BPS: u64 = 10;

/// Protocol share (the deployer), in basis points (0.40%).
pub const PROTOCOL_FEE_BPS: u64 = 40;

/// Basis points in a whole: rates are fractions of this denominator.
pub const BPS_DENOMINATOR: u64 = 10000;

/// The broadcaster's fee on a gross amount: its rate applied with
/// truncating division.
pub open spec fn broadcaster_fee_of(amount: int) -> int {
    amount * (BROADCASTER_FEE_BPS as int) / (BPS_DENOMINATOR as int)
}

/// The relayer's fee on a gross amount.
pub open spec fn relayer_fee_of(amount: int) -> int {
    amount * (RELAYER_FEE_BPS as int) / (BPS_DENOMINATOR as int)
}

/// The protocol's fee on a gross amount.
pub open spec fn protocol_fee_of(amount: int) -> int {
    amount * (PROTOCOL_FEE_BPS as int) / (BPS_DENOMINATOR as int)
}

/// The net amount after all three fees: derived by subtraction, never by its
/// own rate formula, so conservation holds exactly.
pub open spec fn net_amount_of(amount: int) -> int {
    amount - broadcaster_fee_of(amount) - relayer_fee_of(amount) - protocol_fee_of(amount)
}

/// Whether every scaled product of the fee computation stays within `i128`.
/// The broadcaster rate is the largest, so its product is the binding one.
pub open spec fn fees_fit(amount: int) -> bool {
    amount * (BROADCASTER_FEE_BPS as int) <= i128::MAX
}

/// The three shares of the schedule make up exactly the total fee rate.
pub proof fn lemma_fee_schedule_total()
    ensures
        BROADCASTER_FEE_BPS + RELAYER_FEE_BPS + PROTOCOL_FEE_BPS == TOTAL_FEE_BPS,
{
}

/// Conservation: for every non-negative gross amount, the net amount and the
/// three fees sum back to the gross amount exactly.
pub proof fn lemma_fee_conservation(amount: int)
    requires
        0 <= amount,
    ensures
        net_amount_of(amount) + broadcaster_fee_of(amount) + relayer_fee_of(amount)
            + protocol_fee_of(amount) == amount,
{
}

/// The fee split is a pure function of the gross amount: equal inputs give
/// equal splits, and no state takes part in the computation.
pub proof fn lemma_fee_split_deterministic(amount_a: int, amount_b: int)
    requires
        amount_a == amount_b,
    ensures
        broadcaster_fee_of(amount_a) == broadcaster_fee_of(amount_b),
        relayer_fee_of(amount_a) == relayer_fee_of(amount_b),
        protocol_fee_of(amount_a) == protocol_fee_of(amount_b),
        net_amount_of(amount_a) == net_amount_of(amount_b),
{
}

/// On a non-negative gross amount every fee is non-negative, the fees
/// together never exceed the gross amount, and the net amount lies between
/// zero and the gross amount.
pub proof fn lemma_fee_bounds(amount: int)
    requires
        0 <= amount,
    ensures
        0 <= broadcaster_fee_of(amount),
        0 <= relayer_fee_of(amount),
        0 <= protocol_fee_of(amount),
        broadcaster_fee_of(amount) + relayer_fee_of(amount) + protocol_fee_of(amount) <= amount,
        0 <= net_amount_of(amount) <= amount,
{
    let b = broadcaster_fee_of(amount);
    let r = relayer_fee_of(amount);
    let p = protocol_fee_of(amount);
    assert(0 <= b && 10000 * b <= amount * 50) by (nonlinear_arith)
        requires
            0 <= amount,
            b == amount * 50 / 10000,
    ;
    assert(0 <= r && 10000 * r <= amount * 10) by (nonlinear_arith)
        requires
            0 <= amount,
            r == amount * 10 / 10000,
    ;
    assert(0 <= p && 10000 * p <= amount * 40) by (nonlinear_arith)
        requires
            0 <= amount,
            p == amount * 40 / 10000,
    ;
    assert(b + r + p <= amount) by (nonlinear_arith)
        requires
            0 <= amount,
            10000 * b <= amount * 50,
            10000 * r <= amount * 10,
            10000 * p <= amount * 40,
    ;
}

} // verus!
