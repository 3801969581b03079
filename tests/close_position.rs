use whirlpool::close_position::{handler, ClosePosition};
use whirlpool::{
    verify_position_authority, Account, ErrorCode, Mint, Position, Pubkey, TokenAccount, Wallet,
    Whirlpool,
};

fn key(b: u8) -> Pubkey {
    Pubkey::new_from_array([b; 32])
}

fn empty_position() -> Position {
    Position {
        whirlpool: key(2),
        position_mint: key(3),
        liquidity: 0,
        fee_owed_a: 0,
        fee_owed_b: 0,
        reward_owed: [0, 0, 0],
    }
}

fn accounts(position: Position, enabled: bool) -> ClosePosition {
    ClosePosition {
        position_authority: Wallet { key: key(1), lamports: 1_000 },
        receiver: Wallet { key: key(9), lamports: 50 },
        position: Some(Account { key: key(4), lamports: 2_000, data: position }),
        position_mint: Some(Account { key: key(3), lamports: 1_500, data: Mint { supply: 1, decimals: 0 } }),
        position_token_account: Some(Account {
            key: key(5),
            lamports: 700,
            data: TokenAccount { mint: key(3), owner: key(1), amount: 1 },
        }),
        whirlpool: Some(Account {
            key: key(2),
            lamports: 10,
            data: Whirlpool { whirlpools_config: key(7), enabled },
        }),
    }
}

fn assert_unchanged(after: &ClosePosition, before: &ClosePosition) {
    assert_eq!(after.position_authority.lamports, before.position_authority.lamports);
    assert_eq!(after.receiver.lamports, before.receiver.lamports);
    assert_eq!(after.position.is_some(), before.position.is_some());
    assert_eq!(after.position_token_account.is_some(), before.position_token_account.is_some());
    assert_eq!(
        after.position_mint.map(|m| m.data.supply),
        before.position_mint.map(|m| m.data.supply)
    );
    assert_eq!(
        after.position_token_account.map(|t| t.data.amount),
        before.position_token_account.map(|t| t.data.amount)
    );
}

#[test]
fn close_empty_position_succeeds() {
    let mut ctx = accounts(empty_position(), true);
    assert_eq!(handler(&mut ctx), Ok(()));
    assert!(ctx.position.is_none());
    assert!(ctx.position_token_account.is_none());
    assert_eq!(ctx.position_mint.unwrap().data.supply, 0);
    assert_eq!(ctx.receiver.lamports, 2_050);
    assert_eq!(ctx.position_authority.lamports, 1_700);
    assert!(ctx.whirlpool.is_some());
}

#[test]
fn close_with_liquidity_is_rejected() {
    let mut p = empty_position();
    p.liquidity = 5;
    let before = accounts(p, true);
    let mut ctx = before;
    assert_eq!(handler(&mut ctx), Err(ErrorCode::ClosePositionNotEmpty));
    assert_unchanged(&ctx, &before);
}

#[test]
fn close_with_fee_owed_is_rejected() {
    let mut p = empty_position();
    p.fee_owed_b = 1;
    let mut ctx = accounts(p, true);
    assert_eq!(handler(&mut ctx), Err(ErrorCode::ClosePositionNotEmpty));
}

#[test]
fn close_with_reward_owed_is_rejected() {
    let mut p = empty_position();
    p.reward_owed = [0, 0, 3];
    let mut ctx = accounts(p, true);
    assert_eq!(handler(&mut ctx), Err(ErrorCode::ClosePositionNotEmpty));
}

#[test]
fn close_in_disabled_pool_is_rejected() {
    let before = accounts(empty_position(), false);
    let mut ctx = before;
    assert_eq!(handler(&mut ctx), Err(ErrorCode::PoolDisabled));
    assert_unchanged(&ctx, &before);
}

#[test]
fn close_non_empty_in_disabled_pool_is_rejected_as_not_empty() {
    let mut p = empty_position();
    p.fee_owed_a = 9;
    let mut ctx = accounts(p, false);
    assert_eq!(handler(&mut ctx), Err(ErrorCode::ClosePositionNotEmpty));
}

#[test]
fn close_twice_fails() {
    let mut ctx = accounts(empty_position(), true);
    assert_eq!(handler(&mut ctx), Ok(()));
    assert_eq!(handler(&mut ctx), Err(ErrorCode::AccountNotInitialized));
    assert_eq!(ctx.receiver.lamports, 2_050);
}

#[test]
fn close_by_other_signer_is_rejected() {
    let mut ctx = accounts(empty_position(), true);
    ctx.position_authority.key = key(8);
    assert_eq!(handler(&mut ctx), Err(ErrorCode::InvalidAuthority));
    assert!(ctx.position.is_some());
}

#[test]
fn close_with_wrong_mint_account_is_rejected() {
    let mut ctx = accounts(empty_position(), true);
    ctx.position_mint = Some(Account { key: key(6), lamports: 1, data: Mint { supply: 1, decimals: 0 } });
    assert_eq!(handler(&mut ctx), Err(ErrorCode::ConstraintAddress));
}

#[test]
fn close_with_wrong_pool_is_rejected() {
    let mut ctx = accounts(empty_position(), true);
    ctx.whirlpool = Some(Account {
        key: key(6),
        lamports: 1,
        data: Whirlpool { whirlpools_config: key(7), enabled: true },
    });
    assert_eq!(handler(&mut ctx), Err(ErrorCode::ConstraintAddress));
}

#[test]
fn close_with_empty_token_account_is_rejected() {
    let mut ctx = accounts(empty_position(), true);
    ctx.position_token_account = Some(Account {
        key: key(5),
        lamports: 700,
        data: TokenAccount { mint: key(3), owner: key(1), amount: 0 },
    });
    assert_eq!(handler(&mut ctx), Err(ErrorCode::ConstraintRaw));
}

#[test]
fn close_with_token_of_other_mint_is_rejected() {
    let mut ctx = accounts(empty_position(), true);
    ctx.position_token_account = Some(Account {
        key: key(5),
        lamports: 700,
        data: TokenAccount { mint: key(6), owner: key(1), amount: 1 },
    });
    assert_eq!(handler(&mut ctx), Err(ErrorCode::ConstraintRaw));
}

#[test]
fn close_with_missing_pool_is_rejected() {
    let mut ctx = accounts(empty_position(), true);
    ctx.whirlpool = None;
    assert_eq!(handler(&mut ctx), Err(ErrorCode::AccountNotInitialized));
}

#[test]
fn close_with_zero_supply_mint_is_rejected() {
    let mut ctx = accounts(empty_position(), true);
    ctx.position_mint = Some(Account { key: key(3), lamports: 1, data: Mint { supply: 0, decimals: 0 } });
    assert_eq!(handler(&mut ctx), Err(ErrorCode::ArithmeticOverflow));
    assert!(ctx.position.is_some());
}

#[test]
fn close_with_receiver_overflow_is_rejected() {
    let mut ctx = accounts(empty_position(), true);
    ctx.receiver.lamports = u64::MAX;
    assert_eq!(handler(&mut ctx), Err(ErrorCode::ArithmeticOverflow));
    assert_eq!(ctx.receiver.lamports, u64::MAX);
    assert!(ctx.position_token_account.is_some());
}

#[test]
fn authority_gate_accepts_owner_with_one_unit() {
    let t = TokenAccount { mint: key(3), owner: key(1), amount: 1 };
    assert_eq!(verify_position_authority(&t, &key(1)), Ok(()));
}

#[test]
fn authority_gate_rejects_other_owner() {
    let t = TokenAccount { mint: key(3), owner: key(1), amount: 1 };
    let mut other = [1u8; 32];
    other[31] = 0;
    assert_eq!(
        verify_position_authority(&t, &Pubkey::new_from_array(other)),
        Err(ErrorCode::InvalidAuthority)
    );
}

#[test]
fn authority_gate_rejects_wrong_balance() {
    let zero = TokenAccount { mint: key(3), owner: key(1), amount: 0 };
    let two = TokenAccount { mint: key(3), owner: key(1), amount: 2 };
    assert_eq!(verify_position_authority(&zero, &key(1)), Err(ErrorCode::InvalidAuthority));
    assert_eq!(verify_position_authority(&two, &key(1)), Err(ErrorCode::InvalidAuthority));
}

#[test]
fn position_emptiness() {
    assert!(Position::is_position_empty(&empty_position()));
    let mut p = empty_position();
    p.reward_owed = [1, 0, 0];
    assert!(!Position::is_position_empty(&p));
}

#[test]
fn pool_enablement() {
    let on = Whirlpool { whirlpools_config: key(7), enabled: true };
    let off = Whirlpool { whirlpools_config: key(7), enabled: false };
    assert_eq!(on.require_enabled(), Ok(()));
    assert_eq!(off.require_enabled(), Err(ErrorCode::PoolDisabled));
}

#[test]
fn pubkey_comparison_and_bytes() {
    let mut b = [4u8; 32];
    b[0] = 5;
    let k = Pubkey::new_from_array(b);
    assert_eq!(k.to_bytes(), b);
    assert!(k.equals(&Pubkey::new_from_array(b)));
    assert!(!k.equals(&key(4)));
}
