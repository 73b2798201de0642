use vstd::prelude::*;

verus! {

/// The typed failures a vault operation can surface. A failed operation never
/// mutates the vault: callers can always retry once the offending condition
/// clears. Invalid requests (a zero amount, a lock below the minimum) are
/// reported as errors rather than aborting the call.
#[derive(Clone, Copy, Debug, PartialEq, Eq, Structural)]
pub enum VestingError {
    /// The caller's balance cannot cover the requested transfer.
    InsufficientBalance,
    /// The deposit's unlock time has not been reached and emergency mode is off.
    TokensStillLocked,
    /// The caller has no active deposit record.
    NoDepositFound,
    /// The caller is not the admin of the vault.
    UnauthorizedAccess,
    /// The asset is not one the vault custodies.
    AssetNotSupported,
    /// The cross-chain handoff could not be executed.
    XCMExecutionFailed,
    /// A deposit of zero value was requested.
    InvalidAmount,
    /// The requested lock duration is below the vault's minimum.
    LockTooShort,
}

} // verus!
