use vstd::prelude::*;

verus! {

/// The platform's share of a gross `amount` at `fee_percentage` percent, rounded down.
pub open spec fn fee_of(amount: nat, fee_percentage: nat) -> nat {
    amount * fee_percentage / 100
}

/// What is left for the farmer once the platform's share is taken.
pub open spec fn net_of(amount: nat, fee_percentage: nat) -> nat {
    (amount - fee_of(amount, fee_percentage)) as nat
}

/// For a percentage of at most one hundred, the fee never exceeds the amount,
/// and fee and net add up to the amount exactly.
pub proof fn lemma_fee_split_exact(amount: nat, fee_percentage: nat)
    requires
        fee_percentage <= 100,
    ensures
        fee_of(amount, fee_percentage) <= amount,
        fee_of(amount, fee_percentage) + net_of(amount, fee_percentage) == amount,
{
    assert(amount * fee_percentage <= amount * 100) by (nonlinear_arith)
        requires
            fee_percentage <= 100,
    ;
    assert(amount * fee_percentage / 100 <= amount * 100 / 100) by (nonlinear_arith)
        requires
            amount * fee_percentage <= amount * 100,
    ;
    assert(amount * 100 / 100 == amount) by (nonlinear_arith);
}

/// Splits a gross `amount` into the platform fee and the farmer's net share.
pub fn split_fee(amount: u64, fee_percentage: u8) -> (r: (u64, u64))
    requires
        fee_percentage <= 100,
    ensures
        r.0 == fee_of(amount as nat, fee_percentage as nat),
        r.1 == net_of(amount as nat, fee_percentage as nat),
        r.0 + r.1 == amount,
{
    proof {
        lemma_fee_split_exact(amount as nat, fee_percentage as nat);
    }
    let wide: u128 = (amount as u128) * (fee_percentage as u128);
    let fee: u128 = wide / 100;
    assert(fee <= amount);
    let fee: u64 = fee as u64;
    (fee, amount - fee)
}

} // verus!
