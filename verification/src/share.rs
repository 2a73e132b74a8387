//! The pro-rata share arithmetic.

use vstd::prelude::*;
use crate::error::SentinelError;

verus! {

/// A depositor's pro-rata share of the converted asset: the part of
/// `total_received` that `deposited` is of `total_deposited`, rounded down.
pub open spec fn pro_rata_share(deposited: nat, total_received: nat, total_deposited: nat) -> nat
    recommends
        total_deposited > 0,
{
    (deposited * total_received) / total_deposited
}

/// A position that holds no more than the pool is owed no more than the
/// conversion returned.
pub proof fn lemma_share_within_received(deposited: nat, total_received: nat, total_deposited: nat)
    requires
        total_deposited > 0,
        deposited <= total_deposited,
    ensures
        pro_rata_share(deposited, total_received, total_deposited) <= total_received,
{
    assert((deposited * total_received) / total_deposited <= total_received) by (nonlinear_arith)
        requires
            total_deposited > 0,
            deposited <= total_deposited,
    ;
}

/// Rounding each share down never pays two positions more than their joint
/// holding would be owed.
pub proof fn lemma_shares_add_up(a: nat, b: nat, total_received: nat, total_deposited: nat)
    requires
        total_deposited > 0,
    ensures
        pro_rata_share(a, total_received, total_deposited) + pro_rata_share(
            b,
            total_received,
            total_deposited,
        ) <= pro_rata_share(a + b, total_received, total_deposited),
{
    let t = total_deposited as int;
    let x = (a * total_received) as int;
    let y = (b * total_received) as int;
    assert((a + b) * total_received == x + y) by (nonlinear_arith)
        requires
            x == a * total_received,
            y == b * total_received,
    ;
    assert(x / t + y / t <= (x + y) / t) by (nonlinear_arith)
        requires
            t > 0,
            x >= 0,
            y >= 0,
    ;
}

/// Computes a depositor's share in 128 bits, so that the product cannot
/// overflow, and narrows it back to an amount.
///
/// Fails with `ArithmeticOverflow` exactly when the pool is empty (there is
/// nothing to divide by) or the share does not fit an amount.
pub fn user_share(deposited: u64, total_new_received: u64, total_old_deposited: u64) -> (r: Result<
    u64,
    SentinelError,
>)
    ensures
        r is Ok <==> total_old_deposited > 0 && pro_rata_share(
            deposited as nat,
            total_new_received as nat,
            total_old_deposited as nat,
        ) <= u64::MAX,
        r matches Ok(share) ==> share == pro_rata_share(
            deposited as nat,
            total_new_received as nat,
            total_old_deposited as nat,
        ),
        r matches Err(e) ==> e == SentinelError::ArithmeticOverflow,
{
    if total_old_deposited == 0 {
        return Err(SentinelError::ArithmeticOverflow);
    }
    assert(deposited * total_new_received <= 0xFFFF_FFFF_FFFF_FFFF * 0xFFFF_FFFF_FFFF_FFFF)
        by (nonlinear_arith)
        requires
            deposited <= 0xFFFF_FFFF_FFFF_FFFF,
            total_new_received <= 0xFFFF_FFFF_FFFF_FFFF,
    ;
    let product: u128 = (deposited as u128) * (total_new_received as u128);
    let quotient: u128 = product / (total_old_deposited as u128);
    if quotient > u64::MAX as u128 {
        Err(SentinelError::ArithmeticOverflow)
    } else {
        Ok(quotient as u64)
    }
}

} // verus!
