use vstd::prelude::*;
use crate::fees::{fee_of, net_of, split_fee};
use crate::token::{token_account_amount, unpack_token_amount};
use crate::ledger::{find_nonce, nonce_used, LedgerView, PoolLedger};
use crate::types::{
    Accounts, RewardPoolInstruction, Action, Address, PendingReward, ProcessError, RewardPool, RewardPoolError,
    WithdrawalRecord, MINIMUM_WITHDRAWAL_AMOUNT,
};

verus! {

/// What a request is meant to do: the next ledger and the effects to perform,
/// or the failure that refuses it.
pub type Outcome = Result<(LedgerView, Seq<Action>), ProcessError>;

pub open spec fn refuse(e: RewardPoolError) -> Outcome {
    Err(ProcessError::Pool(e))
}

/// The call returned `r` and turned `before` into `after` as `expected` says;
/// a refused call changes nothing.
pub open spec fn settles_as(
    r: Result<Vec<Action>, ProcessError>,
    before: PoolLedger,
    after: PoolLedger,
    expected: Outcome,
) -> bool {
    match r {
        Ok(acts) => expected == Outcome::Ok((after@, acts@)),
        Err(e) => expected == Outcome::Err(e) && after == before,
    }
}

/// The pool a valid initialization writes.
pub open spec fn fresh_pool(a: Accounts, fee_percentage: u8) -> RewardPool {
    RewardPool {
        platform_authority: a.signer,
        reward_mint: a.reward_mint,
        platform_treasury: a.treasury,
        platform_fee_percentage: fee_percentage,
        total_rewards_distributed: 0,
        total_platform_fees_collected: 0,
        is_paused: false,
        bump_seed: 0,
    }
}

pub open spec fn initialize_spec(v: LedgerView, a: Accounts, fee_percentage: u8) -> Outcome {
    if !a.is_signer {
        refuse(RewardPoolError::InvalidAuthority)
    } else if fee_percentage > 100 {
        refuse(RewardPoolError::InvalidPlatformFee)
    } else if v.pool is Some {
        refuse(RewardPoolError::PoolAlreadyInitialized)
    } else {
        let acts = if a.pool_allocated {
            Seq::empty()
        } else {
            seq![Action::CreatePoolAccount { payer: a.signer, pool: a.pool }]
        };
        Ok((LedgerView { pool: Some(fresh_pool(a, fee_percentage)), ..v }, acts))
    }
}

/// The checks that every administrative request shares: a verified signer
/// that is the pool's stored authority.
pub open spec fn admin_check(v: LedgerView, a: Accounts) -> Option<RewardPoolError> {
    if !a.is_signer {
        Some(RewardPoolError::InvalidAuthority)
    } else {
        match v.pool {
            None => Some(RewardPoolError::PoolNotInitialized),
            Some(p) => if p.platform_authority != a.signer {
                Some(RewardPoolError::InvalidAuthority)
            } else {
                None
            },
        }
    }
}

pub open spec fn record_reward_spec(
    v: LedgerView,
    a: Accounts,
    amount: u64,
    farmer: Address,
    task_id: String,
) -> Outcome {
    if !a.is_signer {
        refuse(RewardPoolError::InvalidAuthority)
    } else {
        match v.pool {
            None => refuse(RewardPoolError::PoolNotInitialized),
            Some(p) => {
                let fee = fee_of(amount as nat, p.platform_fee_percentage as nat);
                let net = net_of(amount as nat, p.platform_fee_percentage as nat);
                if p.is_paused {
                    refuse(RewardPoolError::PoolPaused)
                } else if p.platform_authority != a.signer {
                    refuse(RewardPoolError::InvalidAuthority)
                } else if a.treasury != p.platform_treasury {
                    refuse(RewardPoolError::InvalidTreasuryAccount)
                } else if amount == 0 {
                    refuse(RewardPoolError::InsufficientAmount)
                } else if p.total_rewards_distributed + net > u64::MAX
                    || p.total_platform_fees_collected + fee > u64::MAX {
                    Err(ProcessError::ArithmeticOverflow)
                } else {
                    let np = RewardPool {
                        total_rewards_distributed: (p.total_rewards_distributed + net) as u64,
                        total_platform_fees_collected: (p.total_platform_fees_collected + fee) as u64,
                        ..p
                    };
                    let rec = PendingReward {
                        farmer_pubkey: farmer,
                        amount: net as u64,
                        task_id,
                        recorded_at: a.now,
                        is_withdrawn: false,
                    };
                    let pay = Action::Transfer {
                        source: p.platform_treasury,
                        destination: a.reward_account,
                        authority: a.signer,
                        amount: net as u64,
                    };
                    let acts = if a.reward_account_exists {
                        seq![pay]
                    } else {
                        seq![
                            Action::CreateRewardAccount {
                                payer: a.signer,
                                owner: farmer,
                                mint: p.reward_mint,
                            },
                            pay,
                        ]
                    };
                    Ok((
                        LedgerView {
                            pool: Some(np),
                            pending_rewards: v.pending_rewards.push(rec),
                            withdrawals: v.withdrawals,
                        },
                        acts,
                    ))
                }
            },
        }
    }
}

pub open spec fn withdraw_spec(v: LedgerView, a: Accounts, amount: u64, nonce: u64) -> Outcome {
    if !a.is_signer {
        Err(ProcessError::MissingRequiredSignature)
    } else {
        match v.pool {
            None => refuse(RewardPoolError::PoolNotInitialized),
            Some(p) => if p.is_paused {
                refuse(RewardPoolError::PoolPaused)
            } else if amount < MINIMUM_WITHDRAWAL_AMOUNT {
                refuse(RewardPoolError::InsufficientAmount)
            } else if token_account_amount(a.reward_account_data@) is None {
                Err(ProcessError::InvalidAccountData)
            } else if token_account_amount(a.reward_account_data@)->0 < amount {
                refuse(RewardPoolError::InsufficientAmount)
            } else if nonce_used(v.withdrawals, a.signer, nonce) {
                refuse(RewardPoolError::InvalidNonce)
            } else {
                let rec = WithdrawalRecord {
                    farmer_pubkey: a.signer,
                    amount,
                    nonce,
                    withdrawn_at: a.now,
                };
                let pay = Action::Transfer {
                    source: a.reward_account,
                    destination: a.destination,
                    authority: a.signer,
                    amount,
                };
                Ok((LedgerView { withdrawals: v.withdrawals.push(rec), ..v }, seq![pay]))
            },
        }
    }
}

pub open spec fn update_fee_spec(v: LedgerView, a: Accounts, new_fee_percentage: u8) -> Outcome {
    if !a.is_signer {
        refuse(RewardPoolError::InvalidAuthority)
    } else if new_fee_percentage > 100 {
        refuse(RewardPoolError::InvalidPlatformFee)
    } else {
        match admin_check(v, a) {
            Some(e) => refuse(e),
            None => {
                let p = v.pool->0;
                let np = RewardPool { platform_fee_percentage: new_fee_percentage, ..p };
                Ok((LedgerView { pool: Some(np), ..v }, Seq::empty()))
            },
        }
    }
}

pub open spec fn set_paused_spec(v: LedgerView, a: Accounts, paused: bool) -> Outcome {
    match admin_check(v, a) {
        Some(e) => refuse(e),
        None => {
            let p = v.pool->0;
            let np = RewardPool { is_paused: paused, ..p };
            Ok((LedgerView { pool: Some(np), ..v }, Seq::empty()))
        },
    }
}

/// Initializes the pool with the signer as its authority.
pub fn process_initialize_pool(
    ledger: &mut PoolLedger,
    accounts: &Accounts,
    platform_fee_percentage: u8,
) -> (r: Result<Vec<Action>, ProcessError>)
    requires
        old(ledger).wf(),
    ensures
        final(ledger).wf(),
        settles_as(r, *old(ledger), *final(ledger), initialize_spec(old(ledger)@, *accounts, platform_fee_percentage)),
{
    if !accounts.is_signer {
        return Err(ProcessError::Pool(RewardPoolError::InvalidAuthority));
    }
    if platform_fee_percentage > 100 {
        return Err(ProcessError::Pool(RewardPoolError::InvalidPlatformFee));
    }
    if ledger.pool.is_some() {
        return Err(ProcessError::Pool(RewardPoolError::PoolAlreadyInitialized));
    }
    let mut acts: Vec<Action> = Vec::new();
    if !accounts.pool_allocated {
        acts.push(Action::CreatePoolAccount { payer: accounts.signer, pool: accounts.pool });
    }
    ledger.pool = Some(RewardPool {
        platform_authority: accounts.signer,
        reward_mint: accounts.reward_mint,
        platform_treasury: accounts.treasury,
        platform_fee_percentage,
        total_rewards_distributed: 0,
        total_platform_fees_collected: 0,
        is_paused: false,
        bump_seed: 0,
    });
    assert(acts@ =~= initialize_spec(old(ledger)@, *accounts, platform_fee_percentage)->Ok_0.1);
    Ok(acts)
}

/// Credits a farmer with `amount` net of the platform fee, paid from the treasury.
pub fn process_record_reward(
    ledger: &mut PoolLedger,
    accounts: &Accounts,
    amount: u64,
    farmer_pubkey: Address,
    task_id: String,
) -> (r: Result<Vec<Action>, ProcessError>)
    requires
        old(ledger).wf(),
    ensures
        final(ledger).wf(),
        settles_as(r, *old(ledger), *final(ledger), record_reward_spec(old(ledger)@, *accounts, amount, farmer_pubkey, task_id)),
{
    if !accounts.is_signer {
        return Err(ProcessError::Pool(RewardPoolError::InvalidAuthority));
    }
    let p = match ledger.pool {
        None => {
            return Err(ProcessError::Pool(RewardPoolError::PoolNotInitialized));
        },
        Some(p) => p,
    };
    if p.is_paused {
        return Err(ProcessError::Pool(RewardPoolError::PoolPaused));
    }
    if p.platform_authority != accounts.signer {
        return Err(ProcessError::Pool(RewardPoolError::InvalidAuthority));
    }
    if accounts.treasury != p.platform_treasury {
        return Err(ProcessError::Pool(RewardPoolError::InvalidTreasuryAccount));
    }
    if amount == 0 {
        return Err(ProcessError::Pool(RewardPoolError::InsufficientAmount));
    }
    let (fee, net) = split_fee(amount, p.platform_fee_percentage);
    let distributed = match p.total_rewards_distributed.checked_add(net) {
        None => {
            return Err(ProcessError::ArithmeticOverflow);
        },
        Some(t) => t,
    };
    let collected = match p.total_platform_fees_collected.checked_add(fee) {
        None => {
            return Err(ProcessError::ArithmeticOverflow);
        },
        Some(t) => t,
    };
    ledger.pool = Some(RewardPool {
        total_rewards_distributed: distributed,
        total_platform_fees_collected: collected,
        ..p
    });
    ledger.pending_rewards.push(PendingReward {
        farmer_pubkey,
        amount: net,
        task_id,
        recorded_at: accounts.now,
        is_withdrawn: false,
    });
    let mut acts: Vec<Action> = Vec::new();
    if !accounts.reward_account_exists {
        acts.push(Action::CreateRewardAccount {
            payer: accounts.signer,
            owner: farmer_pubkey,
            mint: p.reward_mint,
        });
    }
    acts.push(Action::Transfer {
        source: p.platform_treasury,
        destination: accounts.reward_account,
        authority: accounts.signer,
        amount: net,
    });
    proof {
        let expected = record_reward_spec(old(ledger)@, *accounts, amount, farmer_pubkey, task_id);
        assert(acts@ =~= expected->Ok_0.1);
        assert(final(ledger)@ == expected->Ok_0.0);
    }
    Ok(acts)
}

/// Pays `amount` out of the signer's reward holding, at most once per nonce.
pub fn process_withdraw_reward(
    ledger: &mut PoolLedger,
    accounts: &Accounts,
    amount: u64,
    nonce: u64,
) -> (r: Result<Vec<Action>, ProcessError>)
    requires
        old(ledger).wf(),
    ensures
        final(ledger).wf(),
        settles_as(r, *old(ledger), *final(ledger), withdraw_spec(old(ledger)@, *accounts, amount, nonce)),
{
    if !accounts.is_signer {
        return Err(ProcessError::MissingRequiredSignature);
    }
    let p = match ledger.pool {
        None => {
            return Err(ProcessError::Pool(RewardPoolError::PoolNotInitialized));
        },
        Some(p) => p,
    };
    if p.is_paused {
        return Err(ProcessError::Pool(RewardPoolError::PoolPaused));
    }
    if amount < MINIMUM_WITHDRAWAL_AMOUNT {
        return Err(ProcessError::Pool(RewardPoolError::InsufficientAmount));
    }
    let balance = match unpack_token_amount(accounts.reward_account_data.as_slice()) {
        None => {
            return Err(ProcessError::InvalidAccountData);
        },
        Some(b) => b,
    };
    if balance < amount {
        return Err(ProcessError::Pool(RewardPoolError::InsufficientAmount));
    }
    if find_nonce(&ledger.withdrawals, accounts.signer, nonce) {
        return Err(ProcessError::Pool(RewardPoolError::InvalidNonce));
    }
    let rec = WithdrawalRecord {
        farmer_pubkey: accounts.signer,
        amount,
        nonce,
        withdrawn_at: accounts.now,
    };
    ledger.withdrawals.push(rec);
    proof {
        let ws = final(ledger).withdrawals@;
        let n = old(ledger).withdrawals@.len() as int;
        assert forall|i: int, j: int|
            0 <= i < ws.len() && 0 <= j < ws.len() && i != j
                implies !(#[trigger] ws[i].farmer_pubkey == #[trigger] ws[j].farmer_pubkey
                && ws[i].nonce == ws[j].nonce) by {
            if i == n {
                assert(old(ledger).withdrawals@[j].farmer_pubkey == ws[j].farmer_pubkey);
            } else if j == n {
                assert(old(ledger).withdrawals@[i].farmer_pubkey == ws[i].farmer_pubkey);
            } else {
                assert(old(ledger).withdrawals@[i].farmer_pubkey == ws[i].farmer_pubkey);
                assert(old(ledger).withdrawals@[j].farmer_pubkey == ws[j].farmer_pubkey);
            }
        }
    }
    let mut acts: Vec<Action> = Vec::new();
    acts.push(Action::Transfer {
        source: accounts.reward_account,
        destination: accounts.destination,
        authority: accounts.signer,
        amount,
    });
    proof {
        let expected = withdraw_spec(old(ledger)@, *accounts, amount, nonce);
        assert(acts@ =~= expected->Ok_0.1);
        assert(final(ledger)@ == expected->Ok_0.0);
    }
    Ok(acts)
}

/// Checks the signer against the stored authority and hands back the pool.
fn authorize_admin(ledger: &PoolLedger, accounts: &Accounts) -> (r: Result<RewardPool, RewardPoolError>)
    ensures
        match r {
            Ok(p) => admin_check(ledger@, *accounts) is None && ledger.pool == Some(p),
            Err(e) => admin_check(ledger@, *accounts) == Some(e),
        },
{
    if !accounts.is_signer {
        return Err(RewardPoolError::InvalidAuthority);
    }
    match ledger.pool {
        None => Err(RewardPoolError::PoolNotInitialized),
        Some(p) => if p.platform_authority != accounts.signer {
            Err(RewardPoolError::InvalidAuthority)
        } else {
            Ok(p)
        },
    }
}

/// Replaces the fee charged on later accruals; earlier ones keep theirs.
pub fn process_update_platform_fee(
    ledger: &mut PoolLedger,
    accounts: &Accounts,
    new_fee_percentage: u8,
) -> (r: Result<Vec<Action>, ProcessError>)
    requires
        old(ledger).wf(),
    ensures
        final(ledger).wf(),
        settles_as(r, *old(ledger), *final(ledger), update_fee_spec(old(ledger)@, *accounts, new_fee_percentage)),
{
    if !accounts.is_signer {
        return Err(ProcessError::Pool(RewardPoolError::InvalidAuthority));
    }
    if new_fee_percentage > 100 {
        return Err(ProcessError::Pool(RewardPoolError::InvalidPlatformFee));
    }
    let p = match authorize_admin(ledger, accounts) {
        Err(e) => {
            return Err(ProcessError::Pool(e));
        },
        Ok(p) => p,
    };
    ledger.pool = Some(RewardPool { platform_fee_percentage: new_fee_percentage, ..p });
    let acts: Vec<Action> = Vec::new();
    assert(acts@ =~= Seq::<Action>::empty());
    Ok(acts)
}

/// Sets the pause gate, which blocks accruals and withdrawals while it is shut.
fn set_paused(ledger: &mut PoolLedger, accounts: &Accounts, paused: bool) -> (r: Result<Vec<Action>, ProcessError>)
    requires
        old(ledger).wf(),
    ensures
        final(ledger).wf(),
        settles_as(r, *old(ledger), *final(ledger), set_paused_spec(old(ledger)@, *accounts, paused)),
{
    let p = match authorize_admin(ledger, accounts) {
        Err(e) => {
            return Err(ProcessError::Pool(e));
        },
        Ok(p) => p,
    };
    ledger.pool = Some(RewardPool { is_paused: paused, ..p });
    let acts: Vec<Action> = Vec::new();
    assert(acts@ =~= Seq::<Action>::empty());
    Ok(acts)
}

/// Pauses the pool.
pub fn process_pause_pool(ledger: &mut PoolLedger, accounts: &Accounts) -> (r: Result<Vec<Action>, ProcessError>)
    requires
        old(ledger).wf(),
    ensures
        final(ledger).wf(),
        settles_as(r, *old(ledger), *final(ledger), set_paused_spec(old(ledger)@, *accounts, true)),
{
    set_paused(ledger, accounts, true)
}

/// Resumes the pool.
pub fn process_resume_pool(ledger: &mut PoolLedger, accounts: &Accounts) -> (r: Result<Vec<Action>, ProcessError>)
    requires
        old(ledger).wf(),
    ensures
        final(ledger).wf(),
        settles_as(r, *old(ledger), *final(ledger), set_paused_spec(old(ledger)@, *accounts, false)),
{
    set_paused(ledger, accounts, false)
}

/// What any request is meant to do to a ledger.
pub open spec fn transition(v: LedgerView, a: Accounts, ins: RewardPoolInstruction) -> Outcome {
    match ins {
        RewardPoolInstruction::InitializePool { platform_fee_percentage } =>
            initialize_spec(v, a, platform_fee_percentage),
        RewardPoolInstruction::RecordReward { amount, farmer_pubkey, task_id } =>
            record_reward_spec(v, a, amount, farmer_pubkey, task_id),
        RewardPoolInstruction::WithdrawReward { amount, nonce } => withdraw_spec(v, a, amount, nonce),
        RewardPoolInstruction::UpdatePlatformFee { new_fee_percentage } =>
            update_fee_spec(v, a, new_fee_percentage),
        RewardPoolInstruction::PausePool => set_paused_spec(v, a, true),
        RewardPoolInstruction::ResumePool => set_paused_spec(v, a, false),
    }
}

/// The ledger after a request: the new one if accepted, the old one if refused.
pub open spec fn next_state(v: LedgerView, a: Accounts, ins: RewardPoolInstruction) -> LedgerView {
    match transition(v, a, ins) {
        Ok((w, _)) => w,
        Err(_) => v,
    }
}

/// Runs one request against the ledger.
pub fn process_instruction(
    ledger: &mut PoolLedger,
    accounts: &Accounts,
    instruction: RewardPoolInstruction,
) -> (r: Result<Vec<Action>, ProcessError>)
    requires
        old(ledger).wf(),
    ensures
        final(ledger).wf(),
        settles_as(r, *old(ledger), *final(ledger), transition(old(ledger)@, *accounts, instruction)),
        final(ledger)@ == next_state(old(ledger)@, *accounts, instruction),
{
    match instruction {
        RewardPoolInstruction::InitializePool { platform_fee_percentage } => {
            process_initialize_pool(ledger, accounts, platform_fee_percentage)
        },
        RewardPoolInstruction::RecordReward { amount, farmer_pubkey, task_id } => {
            process_record_reward(ledger, accounts, amount, farmer_pubkey, task_id)
        },
        RewardPoolInstruction::WithdrawReward { amount, nonce } => {
            process_withdraw_reward(ledger, accounts, amount, nonce)
        },
        RewardPoolInstruction::UpdatePlatformFee { new_fee_percentage } => {
            process_update_platform_fee(ledger, accounts, new_fee_percentage)
        },
        RewardPoolInstruction::PausePool => process_pause_pool(ledger, accounts),
        RewardPoolInstruction::ResumePool => process_resume_pool(ledger, accounts),
    }
}

} // verus!
