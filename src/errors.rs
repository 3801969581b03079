use vstd::prelude::*;

verus! {

/// Every way an instruction can be rejected. A rejected instruction leaves
/// all accounts as they were.
#[derive(Clone, Copy, Debug, PartialEq, Eq, Structural)]
pub enum ErrorCode {
    /// A referenced account does not exist (never created, or closed).
    AccountNotInitialized,
    /// An account is not the one that another account refers to.
    ConstraintAddress,
    /// The position's token account does not hold exactly one unit of the
    /// position's mint.
    ConstraintRaw,
    /// The signer does not hold the position's ownership token.
    InvalidAuthority,
    /// The position still has liquidity, or fees or rewards owed.
    ClosePositionNotEmpty,
    /// The position's pool is frozen.
    PoolDisabled,
    /// The default protocol fee rate is above the accepted bound.
    FeeRateOutOfBounds,
    /// The configuration slot is already occupied.
    AlreadyInitialized,
    /// The payer cannot fund the new account.
    InsufficientFunds,
    /// A token supply or a lamport balance would leave its range.
    ArithmeticOverflow,
}

} // verus!
