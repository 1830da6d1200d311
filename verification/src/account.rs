use vstd::prelude::*;

verus! {

/// One fungible-asset account: who owns it, which asset it is denominated
/// in, and how much of that asset it currently holds.
///
/// Identities (`owner`, `mint`) are opaque addresses handed in by the host;
/// the library never fabricates them, it only compares them.
#[derive(Clone, Copy, Debug, PartialEq, Eq, Structural)]
pub struct TokenAccount {
    /// Identity of the party (or derived authority) that owns this account.
    pub owner: u64,
    /// Identity of the asset this account is denominated in.
    pub mint: u64,
    /// Current balance, in base units of the asset.
    pub balance: u64,
}

/// The same account with its balance replaced: the only way any transition
/// of this library changes an account.
pub open spec fn with_balance(account: TokenAccount, balance: int) -> TokenAccount {
    TokenAccount { owner: account.owner, mint: account.mint, balance: balance as u64 }
}

} // verus!
