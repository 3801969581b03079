use vstd::prelude::*;
use crate::errors::ErrorCode;
use crate::pubkey::Pubkey;
use crate::state::{Account, Wallet, WhirlpoolsConfig, MAX_PROTOCOL_FEE_RATE};

verus! {

/// The accounts of one initialize-config instruction.
#[derive(Clone, Copy, Debug)]
pub struct InitializeConfig {
    /// Address of the configuration record to create.
    pub config_key: Pubkey,
    /// What is stored at `config_key`: `None` while the slot is free.
    pub config: Option<Account<WhirlpoolsConfig>>,
    /// Pays for the new record.
    pub funder: Wallet,
    /// Lamports that the new record must hold to stay allocated.
    pub rent_exempt_lamports: u64,
}

/// What an initialize-config instruction returns on the accounts `c` with
/// default fee rate `rate`: allocation comes first, then the fee-rate bound.
pub open spec fn initialize_config_result(c: InitializeConfig, rate: u16) -> Result<(), ErrorCode> {
    if c.config is Some {
        Err(ErrorCode::AlreadyInitialized)
    } else if c.funder.lamports < c.rent_exempt_lamports {
        Err(ErrorCode::InsufficientFunds)
    } else if rate > MAX_PROTOCOL_FEE_RATE {
        Err(ErrorCode::FeeRateOutOfBounds)
    } else {
        Ok(())
    }
}

/// The accounts after a successful initialization of `c`: the funder paid the
/// rent and the slot holds a record with exactly the given fields.
pub open spec fn initialized(
    c: InitializeConfig,
    fee_authority: Pubkey,
    collect_protocol_fees_authority: Pubkey,
    reward_emissions_super_authority: Pubkey,
    pool_creator_authority: Pubkey,
    default_protocol_fee_rate: u16,
) -> InitializeConfig {
    InitializeConfig {
        config_key: c.config_key,
        config: Some(
            Account {
                key: c.config_key,
                lamports: c.rent_exempt_lamports,
                data: WhirlpoolsConfig {
                    fee_authority,
                    collect_protocol_fees_authority,
                    reward_emissions_super_authority,
                    pool_creator_authority,
                    default_protocol_fee_rate,
                },
            },
        ),
        funder: Wallet {
            key: c.funder.key,
            lamports: (c.funder.lamports - c.rent_exempt_lamports) as u64,
        },
        rent_exempt_lamports: c.rent_exempt_lamports,
    }
}

/// The record is created exactly once per address: on a free slot that the
/// funder can pay for, a fee rate within the bound succeeds, and any second
/// call on the accounts that it left behind fails as already initialized.
pub proof fn lemma_initialize_config_once(
    c: InitializeConfig,
    fee_authority: Pubkey,
    collect_protocol_fees_authority: Pubkey,
    reward_emissions_super_authority: Pubkey,
    pool_creator_authority: Pubkey,
    default_protocol_fee_rate: u16,
    second_rate: u16,
)
    requires
        c.config is None,
        c.funder.lamports >= c.rent_exempt_lamports,
        default_protocol_fee_rate <= MAX_PROTOCOL_FEE_RATE,
    ensures
        initialize_config_result(c, default_protocol_fee_rate) is Ok,
        initialize_config_result(
            initialized(
                c,
                fee_authority,
                collect_protocol_fees_authority,
                reward_emissions_super_authority,
                pool_creator_authority,
                default_protocol_fee_rate,
            ),
            second_rate,
        ) == Err::<(), ErrorCode>(ErrorCode::AlreadyInitialized),
{
}

/// A fee rate above the bound never creates a record, and on a free slot that
/// the funder can pay for it is rejected as out of bounds.
pub proof fn lemma_fee_rate_out_of_bounds(c: InitializeConfig, rate: u16)
    requires
        rate > MAX_PROTOCOL_FEE_RATE,
    ensures
        initialize_config_result(c, rate) is Err,
        c.config is None && c.funder.lamports >= c.rent_exempt_lamports ==> initialize_config_result(
            c,
            rate,
        ) == Err::<(), ErrorCode>(ErrorCode::FeeRateOutOfBounds),
{
}

/// Creates the configuration record once. On success the slot holds the
/// record of `initialized`; on failure nothing changes.
pub fn handler(
    ctx: &mut InitializeConfig,
    fee_authority: Pubkey,
    collect_protocol_fees_authority: Pubkey,
    reward_emissions_super_authority: Pubkey,
    pool_creator_authority: Pubkey,
    default_protocol_fee_rate: u16,
) -> (r: Result<(), ErrorCode>)
    ensures
        r == initialize_config_result(*old(ctx), default_protocol_fee_rate),
        r is Ok ==> *final(ctx) == initialized(
            *old(ctx),
            fee_authority,
            collect_protocol_fees_authority,
            reward_emissions_super_authority,
            pool_creator_authority,
            default_protocol_fee_rate,
        ),
        r is Err ==> *final(ctx) == *old(ctx),
{
    if ctx.config.is_some() {
        return Err(ErrorCode::AlreadyInitialized);
    }
    if ctx.funder.lamports < ctx.rent_exempt_lamports {
        return Err(ErrorCode::InsufficientFunds);
    }
    let mut config = WhirlpoolsConfig::zeroed();
    if let Err(e) = config.initialize(
        fee_authority,
        collect_protocol_fees_authority,
        reward_emissions_super_authority,
        pool_creator_authority,
        default_protocol_fee_rate,
    ) {
        return Err(e);
    }
    ctx.funder.lamports = ctx.funder.lamports - ctx.rent_exempt_lamports;
    ctx.config = Some(Account { key: ctx.config_key, lamports: ctx.rent_exempt_lamports, data: config });
    Ok(())
}

} // verus!
