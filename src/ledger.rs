use vstd::prelude::*;
use crate::types::{Address, PendingReward, RewardPool, WithdrawalRecord};

verus! {

/// Everything a pool owns: its record, the accruals and the withdrawals.
#[derive(Clone, Debug)]
pub struct PoolLedger {
    pub pool: Option<RewardPool>,
    pub pending_rewards: Vec<PendingReward>,
    pub withdrawals: Vec<WithdrawalRecord>,
}

/// The mathematical content of a `PoolLedger`.
pub struct LedgerView {
    pub pool: Option<RewardPool>,
    pub pending_rewards: Seq<PendingReward>,
    pub withdrawals: Seq<WithdrawalRecord>,
}

impl View for PoolLedger {
    type V = LedgerView;

    open spec fn view(&self) -> LedgerView {
        LedgerView {
            pool: self.pool,
            pending_rewards: self.pending_rewards@,
            withdrawals: self.withdrawals@,
        }
    }
}

/// Whether `farmer` already withdrew under `nonce`.
pub open spec fn nonce_used(ws: Seq<WithdrawalRecord>, farmer: Address, nonce: u64) -> bool {
    exists|i: int| 0 <= i < ws.len() && #[trigger] ws[i].farmer_pubkey == farmer && ws[i].nonce == nonce
}

/// No (farmer, nonce) pair is recorded twice.
pub open spec fn nonces_unique(ws: Seq<WithdrawalRecord>) -> bool {
    forall|i: int, j: int|
        0 <= i < ws.len() && 0 <= j < ws.len() && i != j
            ==> !(#[trigger] ws[i].farmer_pubkey == #[trigger] ws[j].farmer_pubkey && ws[i].nonce == ws[j].nonce)
}

impl LedgerView {
    /// The fee stays within one hundred percent and no nonce is replayed.
    pub open spec fn wf(self) -> bool {
        &&& (self.pool matches Some(p) ==> p.platform_fee_percentage <= 100)
        &&& nonces_unique(self.withdrawals)
    }
}

impl PoolLedger {
    pub open spec fn wf(&self) -> bool {
        self@.wf()
    }

    /// A ledger with no pool yet.
    pub fn new() -> (r: PoolLedger)
        ensures
            r@.pool is None,
            r@.pending_rewards.len() == 0,
            r@.withdrawals.len() == 0,
            r.wf(),
    {
        PoolLedger { pool: None, pending_rewards: Vec::new(), withdrawals: Vec::new() }
    }

    /// Checks the ledger's invariant, for a ledger assembled from loaded records.
    pub fn is_well_formed(&self) -> (r: bool)
        ensures
            r == self.wf(),
    {
        match &self.pool {
            Some(p) => {
                if p.platform_fee_percentage > 100 {
                    return false;
                }
            },
            None => {},
        }
        let ws = &self.withdrawals;
        let mut i: usize = 0;
        while i < ws.len()
            invariant
                ws@ == self.withdrawals@,
                0 <= i <= ws.len(),
                forall|a: int, b: int|
                    0 <= a < i && 0 <= b < ws.len() && a != b
                        ==> !(#[trigger] ws@[a].farmer_pubkey == #[trigger] ws@[b].farmer_pubkey
                            && ws@[a].nonce == ws@[b].nonce),
            decreases ws.len() - i,
        {
            let mut j: usize = 0;
            while j < ws.len()
                invariant
                    ws@ == self.withdrawals@,
                    0 <= i < ws.len(),
                    0 <= j <= ws.len(),
                    forall|b: int|
                        0 <= b < j && b != i
                            ==> !(ws@[i as int].farmer_pubkey == #[trigger] ws@[b].farmer_pubkey
                                && ws@[i as int].nonce == ws@[b].nonce),
                decreases ws.len() - j,
            {
                if j != i && ws[i].farmer_pubkey == ws[j].farmer_pubkey && ws[i].nonce == ws[j].nonce {
                    assert(ws@[i as int].farmer_pubkey == ws@[j as int].farmer_pubkey);
                    assert(ws@[i as int].nonce == ws@[j as int].nonce);
                    return false;
                }
                j += 1;
            }
            i += 1;
        }
        true
    }
}

/// Looks up whether `farmer` already withdrew under `nonce`.
pub fn find_nonce(ws: &Vec<WithdrawalRecord>, farmer: Address, nonce: u64) -> (r: bool)
    ensures
        r == nonce_used(ws@, farmer, nonce),
{
    let mut i: usize = 0;
    while i < ws.len()
        invariant
            0 <= i <= ws.len(),
            forall|k: int| 0 <= k < i ==> !(#[trigger] ws@[k].farmer_pubkey == farmer && ws@[k].nonce == nonce),
        decreases ws.len() - i,
    {
        if ws[i].farmer_pubkey == farmer && ws[i].nonce == nonce {
            return true;
        }
        i += 1;
    }
    false
}

} // verus!
