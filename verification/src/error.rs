use vstd::prelude::*;

verus! {

/// The failure taxonomy of the swap protocol.
///
/// Every lifecycle transition either commits in full or fails with one of
/// these and leaves every supplied account byte-for-byte unchanged; there is
/// no partially committed state.
#[derive(Clone, Copy, Debug, PartialEq, Eq, Structural)]
pub enum TokenSwapError {
    /// A required account is absent, or an occupied slot was supplied where a
    /// fresh one is needed.
    MissingAccount,
    /// A required signature is missing, or an identity does not match the
    /// account-of-record owner or the derived authority.
    Unauthorized,
    /// An account is denominated in a different asset than its slot requires.
    AssetMismatch,
    /// The escrow record's stored fields disagree with the supplied accounts.
    RecordMismatch,
    /// The source account holds less than the amount to be moved.
    InsufficientFunds,
    /// A zero deposit or zero wanted amount.
    InvalidAmount,
    /// A balance addition would exceed the largest representable balance.
    ArithmeticOverflow,
}

} // verus!
