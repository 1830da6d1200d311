use vstd::prelude::*;

use crate::account::TokenAccount;

verus! {

/// The durable description of one open offer.
///
/// `authority` is the record's derived authority: an opaque credential the
/// host derives deterministically from the maker and the record id. It owns
/// the paired vault, so vault funds can move only on behalf of this record,
/// never on a user's signature.
#[derive(Clone, Copy, Debug, PartialEq, Eq, Structural)]
pub struct EscrowRecord {
    /// Maker-chosen identifier of the offer.
    pub id: u64,
    /// Identity of the party that opened the offer and deposited asset A.
    pub maker: u64,
    /// Identity of the deposited asset.
    pub token_mint_a: u64,
    /// Identity of the asset the maker wants in exchange.
    pub token_mint_b: u64,
    /// Amount of asset B the maker requires from a taker.
    pub token_b_wanted_amount: u64,
    /// Derived authority credential: the sole owner-of-record of the vault.
    pub authority: u64,
}

/// One open offer's escrow state: the record and its paired custody vault,
/// which are created together by `open` and destroyed together by `take` or
/// `cancel` — neither exists without the other.
///
/// The reserves are the protocol-held minimum balances backing the two
/// accounts; closing the escrow returns both to the maker.
#[derive(Clone, Copy, Debug, PartialEq, Eq, Structural)]
pub struct Escrow {
    /// The offer's durable record.
    pub record: EscrowRecord,
    /// The custody vault holding the maker's deposit of asset A.
    pub vault: TokenAccount,
    /// Reserved minimum balance backing the vault account.
    pub vault_reserve: u64,
    /// Reserved minimum balance backing the record's storage.
    pub record_reserve: u64,
}

impl Escrow {
    /// Well-formedness of an escrow as `open` creates it: the vault is owned
    /// by the record's derived authority and denominated in the deposited
    /// asset, the two assets differ, and the wanted amount is positive.
    pub open spec fn wf(self) -> bool {
        &&& self.vault.owner == self.record.authority
        &&& self.vault.mint == self.record.token_mint_a
        &&& self.record.token_mint_a != self.record.token_mint_b
        &&& self.record.token_b_wanted_amount > 0
    }
}

} // verus!
