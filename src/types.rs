use vstd::prelude::*;

verus! {

/// The customary platform fee percentage for a new pool.
pub const PLATFORM_FEE_PERCENTAGE: u8 = 10;

/// Smallest amount a farmer may withdraw in one request.
pub const MINIMUM_WITHDRAWAL_AMOUNT: u64 = 1000;

/// A 32-byte account identity, held as four little-endian 64-bit words.
#[derive(Clone, Copy, Debug, PartialEq, Eq, Structural, Hash)]
pub struct Address {
    pub w0: u64,
    pub w1: u64,
    pub w2: u64,
    pub w3: u64,
}

/// The pool's configuration and cumulative counters.
#[derive(Clone, Copy, Debug, PartialEq, Eq, Structural)]
pub struct RewardPool {
    pub platform_authority: Address,
    pub reward_mint: Address,
    pub platform_treasury: Address,
    pub platform_fee_percentage: u8,
    pub total_rewards_distributed: u64,
    pub total_platform_fees_collected: u64,
    pub is_paused: bool,
    pub bump_seed: u8,
}

/// One accrual credited to a farmer, net of the platform fee.
#[derive(Clone, Debug)]
pub struct PendingReward {
    pub farmer_pubkey: Address,
    pub amount: u64,
    pub task_id: String,
    pub recorded_at: i64,
    pub is_withdrawn: bool,
}

/// One completed withdrawal; a (farmer, nonce) pair appears at most once.
#[derive(Clone, Copy, Debug, PartialEq, Eq, Structural)]
pub struct WithdrawalRecord {
    pub farmer_pubkey: Address,
    pub amount: u64,
    pub nonce: u64,
    pub withdrawn_at: i64,
}

/// The pool's own failure kinds.
#[derive(Clone, Copy, Debug, PartialEq, Eq, Structural)]
pub enum RewardPoolError {
    PoolAlreadyInitialized,
    PoolNotInitialized,
    InvalidAuthority,
    InsufficientAmount,
    PoolPaused,
    InvalidNonce,
    InvalidPlatformFee,
    InvalidTreasuryAccount,
}

/// The numeric code of each failure kind: its position in the declaration.
pub open spec fn error_code(e: RewardPoolError) -> u32 {
    match e {
        RewardPoolError::PoolAlreadyInitialized => 0,
        RewardPoolError::PoolNotInitialized => 1,
        RewardPoolError::InvalidAuthority => 2,
        RewardPoolError::InsufficientAmount => 3,
        RewardPoolError::PoolPaused => 4,
        RewardPoolError::InvalidNonce => 5,
        RewardPoolError::InvalidPlatformFee => 6,
        RewardPoolError::InvalidTreasuryAccount => 7,
    }
}

impl RewardPoolError {
    /// The custom error code under which the host reports this failure.
    pub fn code(&self) -> (r: u32)
        ensures
            r == error_code(*self),
    {
        match self {
            RewardPoolError::PoolAlreadyInitialized => 0,
            RewardPoolError::PoolNotInitialized => 1,
            RewardPoolError::InvalidAuthority => 2,
            RewardPoolError::InsufficientAmount => 3,
            RewardPoolError::PoolPaused => 4,
            RewardPoolError::InvalidNonce => 5,
            RewardPoolError::InvalidPlatformFee => 6,
            RewardPoolError::InvalidTreasuryAccount => 7,
        }
    }
}

/// Why a request was refused: a pool failure, or one the host defines.
#[derive(Clone, Copy, Debug, PartialEq, Eq, Structural)]
pub enum ProcessError {
    Pool(RewardPoolError),
    MissingRequiredSignature,
    ArithmeticOverflow,
    InvalidAccountData,
}

/// The six requests a pool accepts.
#[derive(Clone, Debug)]
pub enum RewardPoolInstruction {
    InitializePool { platform_fee_percentage: u8 },
    RecordReward { amount: u64, farmer_pubkey: Address, task_id: String },
    WithdrawReward { amount: u64, nonce: u64 },
    UpdatePlatformFee { new_fee_percentage: u8 },
    PausePool,
    ResumePool,
}

/// What the host supplies with a request: the submitting principal, whether
/// its signature was verified, the accounts named by the request, the data
/// of the farmer's reward account, and the current time.
#[derive(Clone, Debug)]
pub struct Accounts {
    pub signer: Address,
    pub is_signer: bool,
    pub pool: Address,
    pub pool_allocated: bool,
    pub reward_mint: Address,
    pub treasury: Address,
    pub reward_account: Address,
    pub reward_account_exists: bool,
    pub reward_account_data: Vec<u8>,
    pub destination: Address,
    pub now: i64,
}

/// An outside effect the host performs once a request has been accepted.
#[derive(Clone, Copy, Debug, PartialEq, Eq, Structural)]
pub enum Action {
    /// Allocate the pool's storage, paid for by `payer`.
    CreatePoolAccount { payer: Address, pool: Address },
    /// Create `owner`'s reward holding for `mint`, paid for by `payer`.
    CreateRewardAccount { payer: Address, owner: Address, mint: Address },
    /// Move `amount` from `source` to `destination`, authorized by `authority`.
    Transfer { source: Address, destination: Address, authority: Address, amount: u64 },
}

} // verus!
