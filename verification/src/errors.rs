//! Typed failures shared by every instruction of the protocol.

use vstd::prelude::*;

verus! {

/// Every way an instruction can fail. Validation errors are raised before any
/// state change; arithmetic errors abort the whole operation; state errors
/// mean a terminal operation's precondition is not yet met.
#[derive(Clone, Copy, Debug, PartialEq, Eq, Structural)]
pub enum PumpfunError {
    /// A parameter is below the configured minimum.
    ValueTooSmall,
    /// A parameter is above the configured maximum.
    ValueTooLarge,
    /// A parameter is outside the configured set of allowed values.
    ValueInvalid,
    /// The signer does not match the required identity.
    IncorrectAuthority,
    /// A checked integer operation would leave the representable range.
    OverflowOrUnderflowOccurred,
    /// A swap amount of zero was supplied.
    InvalidAmount,
    /// The supplied treasury account is not the configured team wallet.
    IncorrectTeamWallet,
    /// Withdraw or migration was attempted before the curve completed.
    CurveNotCompleted,
    /// The mint authority must be revoked before migration.
    MintAuthorityEnabled,
    /// The freeze authority must be revoked before migration.
    FreezeAuthorityEnabled,
    /// The swap returned less than the caller's stated minimum.
    ReturnAmountTooSmall,
}

} // verus!
