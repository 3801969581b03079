use vstd::prelude::*;
use crate::errors::ErrorCode;
use crate::pubkey::Pubkey;

verus! {

/// Number of reward streams a position accrues.
pub const NUM_REWARDS: usize = 3;

/// Highest accepted default protocol fee rate, in basis points.
pub const MAX_PROTOCOL_FEE_RATE: u16 = 2500;

/// A stored account: its address, the lamports that back it, and its data.
#[derive(Clone, Copy, Debug)]
pub struct Account<T> {
    pub key: Pubkey,
    pub lamports: u64,
    pub data: T,
}

/// An account used only for its lamport balance (a signer, a receiver).
#[derive(Clone, Copy, Debug)]
pub struct Wallet {
    pub key: Pubkey,
    pub lamports: u64,
}

/// A token mint.
#[derive(Clone, Copy, Debug)]
pub struct Mint {
    pub supply: u64,
    pub decimals: u8,
}

/// A token account: who owns it, of which mint, and how many units it holds.
#[derive(Clone, Copy, Debug)]
pub struct TokenAccount {
    pub mint: Pubkey,
    pub owner: Pubkey,
    pub amount: u64,
}

/// A trading pool, as far as position closing consults it.
#[derive(Clone, Copy, Debug)]
pub struct Whirlpool {
    pub whirlpools_config: Pubkey,
    pub enabled: bool,
}

/// A liquidity position, bound to one pool and one ownership-token mint.
#[derive(Clone, Copy, Debug)]
pub struct Position {
    pub whirlpool: Pubkey,
    pub position_mint: Pubkey,
    pub liquidity: u128,
    pub fee_owed_a: u64,
    pub fee_owed_b: u64,
    pub reward_owed: [u64; 3],
}

/// The protocol-wide configuration record.
#[derive(Clone, Copy, Debug)]
pub struct WhirlpoolsConfig {
    pub fee_authority: Pubkey,
    pub collect_protocol_fees_authority: Pubkey,
    pub reward_emissions_super_authority: Pubkey,
    pub pool_creator_authority: Pubkey,
    pub default_protocol_fee_rate: u16,
}

impl Position {
    /// No liquidity and nothing owed: the position may be closed.
    pub open spec fn is_empty(&self) -> bool {
        &&& self.liquidity == 0
        &&& self.fee_owed_a == 0
        &&& self.fee_owed_b == 0
        &&& forall|i: int| 0 <= i < NUM_REWARDS ==> self.reward_owed@[i] == 0
    }

    pub fn is_position_empty(position: &Position) -> (r: bool)
        ensures
            r == position.is_empty(),
    {
        let fees_not_owed = position.fee_owed_a == 0 && position.fee_owed_b == 0;
        let mut rewards_not_owed = true;
        let mut i: usize = 0;
        while i < NUM_REWARDS
            invariant
                i <= NUM_REWARDS,
                position.reward_owed@.len() == NUM_REWARDS,
                rewards_not_owed == (forall|j: int| 0 <= j < i ==> position.reward_owed@[j] == 0),
            decreases NUM_REWARDS - i,
        {
            rewards_not_owed = rewards_not_owed && position.reward_owed[i] == 0;
            i = i + 1;
        }
        position.liquidity == 0 && fees_not_owed && rewards_not_owed
    }
}

impl Whirlpool {
    pub fn require_enabled(&self) -> (r: Result<(), ErrorCode>)
        ensures
            r == (if self.enabled { Ok(()) } else { Err(ErrorCode::PoolDisabled) }),
    {
        if !self.enabled {
            return Err(ErrorCode::PoolDisabled);
        }
        Ok(())
    }
}

impl WhirlpoolsConfig {
    /// A record whose fields are all zero, as a freshly allocated account is.
    pub fn zeroed() -> (r: WhirlpoolsConfig)
        ensures
            r.default_protocol_fee_rate == 0,
            forall|i: int| 0 <= i < 32 ==> r.fee_authority@[i] == 0,
    {
        WhirlpoolsConfig {
            fee_authority: Pubkey { bytes: [0u8; 32] },
            collect_protocol_fees_authority: Pubkey { bytes: [0u8; 32] },
            reward_emissions_super_authority: Pubkey { bytes: [0u8; 32] },
            pool_creator_authority: Pubkey { bytes: [0u8; 32] },
            default_protocol_fee_rate: 0,
        }
    }

    /// Fills every field. The fee rate must not exceed
    /// `MAX_PROTOCOL_FEE_RATE`; otherwise nothing changes.
    pub fn initialize(
        &mut self,
        fee_authority: Pubkey,
        collect_protocol_fees_authority: Pubkey,
        reward_emissions_super_authority: Pubkey,
        pool_creator_authority: Pubkey,
        default_protocol_fee_rate: u16,
    ) -> (r: Result<(), ErrorCode>)
        ensures
            r == (if default_protocol_fee_rate <= MAX_PROTOCOL_FEE_RATE {
                Ok(())
            } else {
                Err(ErrorCode::FeeRateOutOfBounds)
            }),
            r is Ok ==> *final(self) == (WhirlpoolsConfig {
                fee_authority,
                collect_protocol_fees_authority,
                reward_emissions_super_authority,
                pool_creator_authority,
                default_protocol_fee_rate,
            }),
            r is Err ==> *final(self) == *old(self),
    {
        if default_protocol_fee_rate > MAX_PROTOCOL_FEE_RATE {
            return Err(ErrorCode::FeeRateOutOfBounds);
        }
        self.fee_authority = fee_authority;
        self.collect_protocol_fees_authority = collect_protocol_fees_authority;
        self.reward_emissions_super_authority = reward_emissions_super_authority;
        self.pool_creator_authority = pool_creator_authority;
        self.default_protocol_fee_rate = default_protocol_fee_rate;
        Ok(())
    }
}

} // verus!
