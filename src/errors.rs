use vstd::prelude::*;

verus! {

/// Every way an operation of the library can be refused.
#[derive(Debug, Clone, Copy, PartialEq, Eq, Structural)]
pub enum CustomErrors {
    /// The fee rate is above `MAX_ALLOWED_FEE_IN_BPS`.
    ExcessiveFees,
    /// The caller is not the platform owner.
    NotOwner,
    /// A launch already exists for this token.
    DuplicateLaunch,
    /// The trade would push the SOL reserve above the target pool balance.
    BondingCurveBreached,
    /// The token has launched: trading is closed.
    AlreadyLaunched,
    /// The token has not launched yet: migration is not open.
    NotLaunched,
    /// A computed quantity does not fit its integer width.
    Overflow,
    /// A subtraction would go below zero.
    Underflow,
    /// A quote was asked against an empty reserve with nothing put in.
    DivisionByZero,
    /// The quoted token amount exceeds the token reserve.
    InsufficientTokenReserve,
    /// The quoted SOL amount exceeds the SOL reserve.
    InsufficientSolReserve,
}

} // verus!
