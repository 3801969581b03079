use vstd::prelude::*;
use crate::errors::ErrorCode;
use crate::pubkey::Pubkey;
use crate::state::TokenAccount;

verus! {

/// The token account proves authority for `position_authority`: it is owned
/// by that identity and holds exactly one unit.
pub open spec fn holds_position_token(token_account: TokenAccount, position_authority: Pubkey) -> bool {
    token_account.owner@ == position_authority@ && token_account.amount == 1
}

/// Checks that `position_authority` holds the ownership token in
/// `token_account`; no side effects.
pub fn verify_position_authority(
    token_account: &TokenAccount,
    position_authority: &Pubkey,
) -> (r: Result<(), ErrorCode>)
    ensures
        r == (if holds_position_token(*token_account, *position_authority) {
            Ok(())
        } else {
            Err(ErrorCode::InvalidAuthority)
        }),
{
    if !token_account.owner.equals(position_authority) || token_account.amount != 1 {
        return Err(ErrorCode::InvalidAuthority);
    }
    Ok(())
}

} // verus!
