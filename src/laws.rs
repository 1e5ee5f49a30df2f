use vstd::prelude::*;
use crate::ledger::{nonce_used, LedgerView};
use crate::pool::{
    initialize_spec, next_state, record_reward_spec, refuse, transition, withdraw_spec,
};
use crate::token::token_account_amount;
use crate::types::{Accounts, Address, RewardPoolError, RewardPoolInstruction, MINIMUM_WITHDRAWAL_AMOUNT};

verus! {

/// Neither cumulative counter of an existing pool has gone down from `before` to `after`.
pub open spec fn counters_advance(before: LedgerView, after: LedgerView) -> bool {
    before.pool matches Some(p) ==> {
        &&& after.pool matches Some(q)
        &&& q.total_rewards_distributed >= p.total_rewards_distributed
        &&& q.total_platform_fees_collected >= p.total_platform_fees_collected
    }
}

/// The ledger after running `requests` in order, each with the accounts it came with.
pub open spec fn run(v: LedgerView, requests: Seq<(Accounts, RewardPoolInstruction)>) -> LedgerView
    decreases requests.len(),
{
    if requests.len() == 0 {
        v
    } else {
        run(next_state(v, requests[0].0, requests[0].1), requests.drop_first())
    }
}

/// A single request never lowers either cumulative counter, nor removes the pool.
pub proof fn lemma_request_counters_advance(v: LedgerView, a: Accounts, ins: RewardPoolInstruction)
    ensures
        counters_advance(v, next_state(v, a, ins)),
{
}

/// Across any sequence of requests, accepted or refused, the total distributed
/// and the total of fees collected never decrease.
pub proof fn lemma_run_counters_advance(v: LedgerView, requests: Seq<(Accounts, RewardPoolInstruction)>)
    ensures
        counters_advance(v, run(v, requests)),
    decreases requests.len(),
{
    if requests.len() > 0 {
        let w = next_state(v, requests[0].0, requests[0].1);
        lemma_request_counters_advance(v, requests[0].0, requests[0].1);
        lemma_run_counters_advance(w, requests.drop_first());
    }
}

/// A withdrawal whose (farmer, nonce) pair is already recorded never pays out;
/// once the signature, pause and amount checks pass, it fails with `InvalidNonce`.
pub proof fn lemma_used_nonce_rejected(v: LedgerView, a: Accounts, amount: u64, nonce: u64)
    requires
        nonce_used(v.withdrawals, a.signer, nonce),
    ensures
        withdraw_spec(v, a, amount, nonce) is Err,
        ({
            &&& a.is_signer
            &&& v.pool matches Some(p) && !p.is_paused
            &&& amount >= MINIMUM_WITHDRAWAL_AMOUNT
            &&& token_account_amount(a.reward_account_data@) matches Some(b) && b >= amount
        }) ==> withdraw_spec(v, a, amount, nonce) == refuse(RewardPoolError::InvalidNonce),
{
}

/// After a farmer withdraws under a nonce, repeating that nonce is refused
/// with `InvalidNonce`, whatever the amount.
pub proof fn lemma_withdrawal_replay_rejected(
    v: LedgerView,
    a: Accounts,
    amount: u64,
    nonce: u64,
    again: Accounts,
    amount_again: u64,
)
    requires
        withdraw_spec(v, a, amount, nonce) is Ok,
        again.is_signer,
        again.signer == a.signer,
        amount_again >= MINIMUM_WITHDRAWAL_AMOUNT,
        token_account_amount(again.reward_account_data@) matches Some(b) && b >= amount_again,
    ensures
        withdraw_spec(withdraw_spec(v, a, amount, nonce)->Ok_0.0, again, amount_again, nonce)
            == refuse(RewardPoolError::InvalidNonce),
{
    let w = withdraw_spec(v, a, amount, nonce)->Ok_0.0;
    let n = v.withdrawals.len() as int;
    assert(w.withdrawals[n].farmer_pubkey == a.signer);
}

/// While the pool is paused, a signed accrual or withdrawal fails with `PoolPaused`.
pub proof fn lemma_paused_blocks_flows(
    v: LedgerView,
    a: Accounts,
    amount: u64,
    farmer: Address,
    task_id: String,
    nonce: u64,
)
    requires
        v.pool matches Some(p) && p.is_paused,
        a.is_signer,
    ensures
        record_reward_spec(v, a, amount, farmer, task_id) == refuse(RewardPoolError::PoolPaused),
        withdraw_spec(v, a, amount, nonce) == refuse(RewardPoolError::PoolPaused),
        next_state(v, a, RewardPoolInstruction::RecordReward { amount, farmer_pubkey: farmer, task_id }) == v,
        next_state(v, a, RewardPoolInstruction::WithdrawReward { amount, nonce }) == v,
{
}

/// Initializing an existing pool is always refused and keeps its record;
/// for a signed request with a valid fee the failure is `PoolAlreadyInitialized`.
pub proof fn lemma_reinitialize_rejected(v: LedgerView, a: Accounts, fee_percentage: u8)
    requires
        v.pool is Some,
    ensures
        initialize_spec(v, a, fee_percentage) is Err,
        next_state(v, a, RewardPoolInstruction::InitializePool { platform_fee_percentage: fee_percentage }) == v,
        a.is_signer && fee_percentage <= 100 ==> initialize_spec(v, a, fee_percentage) == refuse(
            RewardPoolError::PoolAlreadyInitialized,
        ),
{
}

} // verus!
