use vstd::prelude::*;
use crate::errors::ErrorCode;
use crate::state::{Account, Mint, Position, TokenAccount, Wallet, Whirlpool};
use crate::util::{holds_position_token, verify_position_authority};

verus! {

/// The accounts of one close-position instruction.
#[derive(Clone, Copy, Debug)]
pub struct ClosePosition {
    /// The signer; it gets back the lamports of the closed token account.
    pub position_authority: Wallet,
    /// Gets back the lamports of the closed position; not checked otherwise.
    pub receiver: Wallet,
    pub position: Option<Account<Position>>,
    pub position_mint: Option<Account<Mint>>,
    pub position_token_account: Option<Account<TokenAccount>>,
    pub whirlpool: Option<Account<Whirlpool>>,
}

/// What a close-position instruction returns on the accounts `c`: the
/// runtime's resolution of the accounts, then the authority, emptiness and
/// pool checks in that order, then the token burn and the lamport transfers.
pub open spec fn close_position_result(c: ClosePosition) -> Result<(), ErrorCode> {
    match (c.position, c.position_mint, c.position_token_account, c.whirlpool) {
        (Some(p), Some(m), Some(t), Some(w)) => {
            if m.key@ != p.data.position_mint@ {
                Err(ErrorCode::ConstraintAddress)
            } else if t.data.amount != 1 || t.data.mint@ != p.data.position_mint@ {
                Err(ErrorCode::ConstraintRaw)
            } else if w.key@ != p.data.whirlpool@ {
                Err(ErrorCode::ConstraintAddress)
            } else if !holds_position_token(t.data, c.position_authority.key) {
                Err(ErrorCode::InvalidAuthority)
            } else if !p.data.is_empty() {
                Err(ErrorCode::ClosePositionNotEmpty)
            } else if !w.data.enabled {
                Err(ErrorCode::PoolDisabled)
            } else if m.data.supply < 1
                || c.position_authority.lamports + t.lamports > u64::MAX
                || c.receiver.lamports + p.lamports > u64::MAX {
                Err(ErrorCode::ArithmeticOverflow)
            } else {
                Ok(())
            }
        },
        _ => Err(ErrorCode::AccountNotInitialized),
    }
}

/// The accounts after a successful close of `c`: one unit of the mint is
/// burnt, the token account and the position are gone, their lamports went to
/// the authority and to the receiver.
pub open spec fn closed(c: ClosePosition) -> ClosePosition
    recommends
        c.position is Some,
        c.position_mint is Some,
        c.position_token_account is Some,
{
    let p = c.position->Some_0;
    let m = c.position_mint->Some_0;
    let t = c.position_token_account->Some_0;
    ClosePosition {
        position_authority: Wallet {
            key: c.position_authority.key,
            lamports: (c.position_authority.lamports + t.lamports) as u64,
        },
        receiver: Wallet { key: c.receiver.key, lamports: (c.receiver.lamports + p.lamports) as u64 },
        position: None,
        position_mint: Some(
            Account {
                key: m.key,
                lamports: m.lamports,
                data: Mint { supply: (m.data.supply - 1) as u64, decimals: m.data.decimals },
            },
        ),
        position_token_account: None,
        whirlpool: c.whirlpool,
    }
}

/// All four accounts resolve and match the position: its mint, a token
/// account holding one unit of that mint, and its pool.
pub open spec fn accounts_resolve(c: ClosePosition) -> bool {
    match (c.position, c.position_mint, c.position_token_account, c.whirlpool) {
        (Some(p), Some(m), Some(t), Some(w)) => m.key@ == p.data.position_mint@ && t.data.amount == 1
            && t.data.mint@ == p.data.position_mint@ && w.key@ == p.data.whirlpool@,
        _ => false,
    }
}

/// The accounts resolve and the signer holds the ownership token.
pub open spec fn authorized(c: ClosePosition) -> bool {
    accounts_resolve(c) && holds_position_token(
        c.position_token_account->Some_0.data,
        c.position_authority.key,
    )
}

/// A close succeeds only on an empty position, and an authorized close of a
/// position that is not empty is rejected as not empty.
pub proof fn lemma_close_requires_empty(c: ClosePosition)
    ensures
        close_position_result(c) is Ok ==> c.position->Some_0.data.is_empty(),
        authorized(c) && !c.position->Some_0.data.is_empty() ==> close_position_result(c) == Err::<
            (),
            ErrorCode,
        >(ErrorCode::ClosePositionNotEmpty),
{
}

/// No position of a disabled pool can be closed: an authorized close is
/// rejected as not empty or as disabled, and as disabled when the position is
/// empty.
pub proof fn lemma_disabled_pool_rejects(c: ClosePosition)
    requires
        c.whirlpool is Some,
        !c.whirlpool->Some_0.data.enabled,
    ensures
        close_position_result(c) is Err,
        authorized(c) ==> close_position_result(c) == Err::<(), ErrorCode>(
            ErrorCode::ClosePositionNotEmpty,
        ) || close_position_result(c) == Err::<(), ErrorCode>(ErrorCode::PoolDisabled),
        authorized(c) && c.position->Some_0.data.is_empty() ==> close_position_result(c) == Err::<
            (),
            ErrorCode,
        >(ErrorCode::PoolDisabled),
{
}

/// A position is closed at most once: closing again the accounts that a
/// successful close left behind fails, for the position no longer exists.
pub proof fn lemma_close_at_most_once(c: ClosePosition)
    requires
        close_position_result(c) is Ok,
    ensures
        closed(c).position is None,
        close_position_result(closed(c)) == Err::<(), ErrorCode>(ErrorCode::AccountNotInitialized),
{
}

/// Closes an empty position whose ownership token the signer holds. On
/// success every effect of `closed` is applied; on failure nothing changes.
pub fn handler(ctx: &mut ClosePosition) -> (r: Result<(), ErrorCode>)
    ensures
        r == close_position_result(*old(ctx)),
        r is Ok ==> *final(ctx) == closed(*old(ctx)),
        r is Err ==> *final(ctx) == *old(ctx),
{
    let (p, m, t, w) = match (ctx.position, ctx.position_mint, ctx.position_token_account, ctx.whirlpool) {
        (Some(p), Some(m), Some(t), Some(w)) => (p, m, t, w),
        _ => {
            return Err(ErrorCode::AccountNotInitialized);
        },
    };
    if !m.key.equals(&p.data.position_mint) {
        return Err(ErrorCode::ConstraintAddress);
    }
    if t.data.amount != 1 || !t.data.mint.equals(&p.data.position_mint) {
        return Err(ErrorCode::ConstraintRaw);
    }
    if !w.key.equals(&p.data.whirlpool) {
        return Err(ErrorCode::ConstraintAddress);
    }

    if let Err(e) = verify_position_authority(&t.data, &ctx.position_authority.key) {
        return Err(e);
    }

    if !Position::is_position_empty(&p.data) {
        return Err(ErrorCode::ClosePositionNotEmpty);
    }

    if let Err(e) = w.data.require_enabled() {
        return Err(e);
    }

    burn_and_close_user_position_token(ctx, m, t, p)
}

/// Burns the ownership token, closes its token account to the authority and
/// the position to the receiver.
fn burn_and_close_user_position_token(
    ctx: &mut ClosePosition,
    m: Account<Mint>,
    t: Account<TokenAccount>,
    p: Account<Position>,
) -> (r: Result<(), ErrorCode>)
    requires
        old(ctx).position == Some(p),
        old(ctx).position_mint == Some(m),
        old(ctx).position_token_account == Some(t),
    ensures
        r == (if m.data.supply >= 1 && old(ctx).position_authority.lamports + t.lamports <= u64::MAX
            && old(ctx).receiver.lamports + p.lamports <= u64::MAX {
            Ok(())
        } else {
            Err(ErrorCode::ArithmeticOverflow)
        }),
        r is Ok ==> *final(ctx) == closed(*old(ctx)),
        r is Err ==> *final(ctx) == *old(ctx),
{
    let supply = match m.data.supply.checked_sub(1) {
        Some(s) => s,
        None => {
            return Err(ErrorCode::ArithmeticOverflow);
        },
    };
    let authority_lamports = match ctx.position_authority.lamports.checked_add(t.lamports) {
        Some(l) => l,
        None => {
            return Err(ErrorCode::ArithmeticOverflow);
        },
    };
    let receiver_lamports = match ctx.receiver.lamports.checked_add(p.lamports) {
        Some(l) => l,
        None => {
            return Err(ErrorCode::ArithmeticOverflow);
        },
    };
    ctx.position_mint = Some(
        Account { key: m.key, lamports: m.lamports, data: Mint { supply, decimals: m.data.decimals } },
    );
    ctx.position_token_account = None;
    ctx.position_authority.lamports = authority_lamports;
    ctx.position = None;
    ctx.receiver.lamports = receiver_lamports;
    Ok(())
}

} // verus!
