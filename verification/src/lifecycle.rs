use vstd::prelude::*;

use crate::account::TokenAccount;
use crate::account::with_balance;
use crate::error::TokenSwapError;
use crate::escrow::Escrow;
use crate::escrow::EscrowRecord;
use crate::transfer::transfer;
use crate::transfer::transfer_delegated;

verus! {

/// The result of `open`, as a function of the pre-state: `Ok(())` exactly
/// when every precondition holds, otherwise the error of the first failing
/// check, in this order: maker signature, positive deposit, positive wanted
/// amount, distinct assets, a fresh escrow slot, maker's ownership of the
/// funding account, its asset type, and sufficient funds for the deposit.
pub open spec fn open_outcome(
    maker: u64,
    maker_signed: bool,
    token_mint_a: u64,
    token_mint_b: u64,
    deposit_amount: u64,
    token_b_wanted_amount: u64,
    maker_account_a: TokenAccount,
    escrow: Option<Escrow>,
) -> Result<(), TokenSwapError> {
    if !maker_signed {
        Err(TokenSwapError::Unauthorized)
    } else if deposit_amount == 0 {
        Err(TokenSwapError::InvalidAmount)
    } else if token_b_wanted_amount == 0 {
        Err(TokenSwapError::InvalidAmount)
    } else if token_mint_a == token_mint_b {
        Err(TokenSwapError::AssetMismatch)
    } else if escrow matches Some(_) {
        Err(TokenSwapError::MissingAccount)
    } else if maker_account_a.owner != maker {
        Err(TokenSwapError::Unauthorized)
    } else if maker_account_a.mint != token_mint_a {
        Err(TokenSwapError::AssetMismatch)
    } else if maker_account_a.balance < deposit_amount {
        Err(TokenSwapError::InsufficientFunds)
    } else {
        Ok(())
    }
}

/// Opens an offer: creates the escrow record and its custody vault as one
/// unit and funds the vault with `deposit_amount` of asset A out of the
/// maker's account.
///
/// `authority` is the record's derived authority credential and becomes the
/// vault's owner; `vault_reserve` and `record_reserve` are the protocol-held
/// minimum balances the host set aside for the two accounts, returned to the
/// maker when the escrow is torn down. The slot behind `escrow` must be
/// unoccupied: the record and the vault are created together or not at all,
/// and if funding fails nothing persists.
pub fn open(
    maker: u64,
    maker_signed: bool,
    id: u64,
    token_mint_a: u64,
    token_mint_b: u64,
    deposit_amount: u64,
    token_b_wanted_amount: u64,
    authority: u64,
    vault_reserve: u64,
    record_reserve: u64,
    maker_account_a: &mut TokenAccount,
    escrow: &mut Option<Escrow>,
) -> (r: Result<(), TokenSwapError>)
    ensures
        r == open_outcome(
            maker,
            maker_signed,
            token_mint_a,
            token_mint_b,
            deposit_amount,
            token_b_wanted_amount,
            *old(maker_account_a),
            *old(escrow),
        ),
        r is Ok ==> {
            &&& *final(maker_account_a) == with_balance(
                *old(maker_account_a),
                old(maker_account_a).balance - deposit_amount,
            )
            &&& *final(escrow) == Some(
                Escrow {
                    record: EscrowRecord {
                        id,
                        maker,
                        token_mint_a,
                        token_mint_b,
                        token_b_wanted_amount,
                        authority,
                    },
                    vault: TokenAccount {
                        owner: authority,
                        mint: token_mint_a,
                        balance: deposit_amount,
                    },
                    vault_reserve,
                    record_reserve,
                },
            )
            &&& ((*final(escrow)) matches Some(created) && created.wf())
        },
        r is Err ==> {
            &&& *final(maker_account_a) == *old(maker_account_a)
            &&& *final(escrow) == *old(escrow)
        },
{
    if !maker_signed {
        return Err(TokenSwapError::Unauthorized);
    }
    if deposit_amount == 0 {
        return Err(TokenSwapError::InvalidAmount);
    }
    if token_b_wanted_amount == 0 {
        return Err(TokenSwapError::InvalidAmount);
    }
    if token_mint_a == token_mint_b {
        return Err(TokenSwapError::AssetMismatch);
    }
    match *escrow {
        Some(_) => {
            return Err(TokenSwapError::MissingAccount);
        },
        None => {},
    }
    if maker_account_a.owner != maker {
        return Err(TokenSwapError::Unauthorized);
    }
    if maker_account_a.mint != token_mint_a {
        return Err(TokenSwapError::AssetMismatch);
    }
    if maker_account_a.balance < deposit_amount {
        return Err(TokenSwapError::InsufficientFunds);
    }
    let record = EscrowRecord {
        id,
        maker,
        token_mint_a,
        token_mint_b,
        token_b_wanted_amount,
        authority,
    };
    let mut vault = TokenAccount { owner: authority, mint: token_mint_a, balance: 0 };
    match transfer(maker, maker_signed, maker_account_a, &mut vault, deposit_amount) {
        Ok(()) => {},
        Err(err) => {
            return Err(err);
        },
    }
    *escrow = Some(Escrow { record, vault, vault_reserve, record_reserve });
    Ok(())
}

/// The result of `take`, as a function of the pre-state: `Ok(())` exactly
/// when every precondition holds, otherwise the error of the first failing
/// check. The validation order is: taker signature; taker's asset-A account
/// (owner, then asset); taker's asset-B account; maker's asset-B account;
/// existence of the record; agreement of the record's stored fields with the
/// supplied identities; the vault's owner and asset; the taker's asset-B
/// funds; and room for each of the three balance additions the swap and the
/// teardown perform.
pub open spec fn take_outcome(
    taker: u64,
    taker_signed: bool,
    maker: u64,
    token_mint_a: u64,
    token_mint_b: u64,
    taker_account_a: TokenAccount,
    taker_account_b: TokenAccount,
    maker_account_b: TokenAccount,
    escrow: Option<Escrow>,
    maker_native_balance: u64,
) -> Result<(), TokenSwapError> {
    if !taker_signed {
        Err(TokenSwapError::Unauthorized)
    } else if taker_account_a.owner != taker {
        Err(TokenSwapError::Unauthorized)
    } else if taker_account_a.mint != token_mint_a {
        Err(TokenSwapError::AssetMismatch)
    } else if taker_account_b.owner != taker {
        Err(TokenSwapError::Unauthorized)
    } else if taker_account_b.mint != token_mint_b {
        Err(TokenSwapError::AssetMismatch)
    } else if maker_account_b.owner != maker {
        Err(TokenSwapError::Unauthorized)
    } else if maker_account_b.mint != token_mint_b {
        Err(TokenSwapError::AssetMismatch)
    } else {
        match escrow {
            None => Err(TokenSwapError::MissingAccount),
            Some(e) => {
                if e.record.maker != maker || e.record.token_mint_a != token_mint_a
                    || e.record.token_mint_b != token_mint_b {
                    Err(TokenSwapError::RecordMismatch)
                } else if e.vault.owner != e.record.authority {
                    Err(TokenSwapError::Unauthorized)
                } else if e.vault.mint != token_mint_a {
                    Err(TokenSwapError::AssetMismatch)
                } else if taker_account_b.balance < e.record.token_b_wanted_amount {
                    Err(TokenSwapError::InsufficientFunds)
                } else if maker_account_b.balance + e.record.token_b_wanted_amount > u64::MAX {
                    Err(TokenSwapError::ArithmeticOverflow)
                } else if taker_account_a.balance + e.vault.balance > u64::MAX {
                    Err(TokenSwapError::ArithmeticOverflow)
                } else if maker_native_balance + e.vault_reserve + e.record_reserve > u64::MAX {
                    Err(TokenSwapError::ArithmeticOverflow)
                } else {
                    Ok(())
                }
            },
        }
    }
}

/// Takes an offer: atomically pays the maker the wanted amount of asset B
/// out of the taker's account, sweeps the entire current vault balance of
/// asset A to the taker, and tears the vault and the record down, returning
/// their reserved balances to the maker's native balance.
///
/// Both swap legs, the teardown, and every validation stand in one unit of
/// work: on any error nothing changes — in particular, if one leg of the
/// swap cannot complete, the other leg's effects do not persist.
pub fn take(
    taker: u64,
    taker_signed: bool,
    maker: u64,
    token_mint_a: u64,
    token_mint_b: u64,
    taker_account_a: &mut TokenAccount,
    taker_account_b: &mut TokenAccount,
    maker_account_b: &mut TokenAccount,
    escrow: &mut Option<Escrow>,
    maker_native_balance: &mut u64,
) -> (r: Result<(), TokenSwapError>)
    ensures
        r == take_outcome(
            taker,
            taker_signed,
            maker,
            token_mint_a,
            token_mint_b,
            *old(taker_account_a),
            *old(taker_account_b),
            *old(maker_account_b),
            *old(escrow),
            *old(maker_native_balance),
        ),
        r is Ok ==> ((*old(escrow)) matches Some(e) && {
            &&& *final(escrow) == None::<Escrow>
            &&& *final(taker_account_a) == with_balance(
                *old(taker_account_a),
                old(taker_account_a).balance + e.vault.balance,
            )
            &&& *final(taker_account_b) == with_balance(
                *old(taker_account_b),
                old(taker_account_b).balance - e.record.token_b_wanted_amount,
            )
            &&& *final(maker_account_b) == with_balance(
                *old(maker_account_b),
                old(maker_account_b).balance + e.record.token_b_wanted_amount,
            )
            &&& *final(maker_native_balance) == *old(maker_native_balance) + e.vault_reserve
                + e.record_reserve
        }),
        r is Err ==> {
            &&& *final(taker_account_a) == *old(taker_account_a)
            &&& *final(taker_account_b) == *old(taker_account_b)
            &&& *final(maker_account_b) == *old(maker_account_b)
            &&& *final(escrow) == *old(escrow)
            &&& *final(maker_native_balance) == *old(maker_native_balance)
        },
{
    if !taker_signed {
        return Err(TokenSwapError::Unauthorized);
    }
    if taker_account_a.owner != taker {
        return Err(TokenSwapError::Unauthorized);
    }
    if taker_account_a.mint != token_mint_a {
        return Err(TokenSwapError::AssetMismatch);
    }
    if taker_account_b.owner != taker {
        return Err(TokenSwapError::Unauthorized);
    }
    if taker_account_b.mint != token_mint_b {
        return Err(TokenSwapError::AssetMismatch);
    }
    if maker_account_b.owner != maker {
        return Err(TokenSwapError::Unauthorized);
    }
    if maker_account_b.mint != token_mint_b {
        return Err(TokenSwapError::AssetMismatch);
    }
    let e = match *escrow {
        None => {
            return Err(TokenSwapError::MissingAccount);
        },
        Some(e) => e,
    };
    if e.record.maker != maker || e.record.token_mint_a != token_mint_a
        || e.record.token_mint_b != token_mint_b {
        return Err(TokenSwapError::RecordMismatch);
    }
    if e.vault.owner != e.record.authority {
        return Err(TokenSwapError::Unauthorized);
    }
    if e.vault.mint != token_mint_a {
        return Err(TokenSwapError::AssetMismatch);
    }
    let wanted: u64 = e.record.token_b_wanted_amount;
    if taker_account_b.balance < wanted {
        return Err(TokenSwapError::InsufficientFunds);
    }
    if maker_account_b.balance > u64::MAX - wanted {
        return Err(TokenSwapError::ArithmeticOverflow);
    }
    if taker_account_a.balance > u64::MAX - e.vault.balance {
        return Err(TokenSwapError::ArithmeticOverflow);
    }
    if *maker_native_balance > u64::MAX - e.vault_reserve {
        return Err(TokenSwapError::ArithmeticOverflow);
    }
    let native_with_vault_reserve: u64 = *maker_native_balance + e.vault_reserve;
    if native_with_vault_reserve > u64::MAX - e.record_reserve {
        return Err(TokenSwapError::ArithmeticOverflow);
    }
    // Counter-payment leg: the wanted amount of asset B, taker to maker.
    match transfer(taker, taker_signed, taker_account_b, maker_account_b, wanted) {
        Ok(()) => {},
        Err(err) => {
            return Err(err);
        },
    }
    // Vault leg: the entire current vault balance of asset A to the taker,
    // moved under the record's derived authority.
    let mut vault = e.vault;
    let vault_balance: u64 = vault.balance;
    match transfer_delegated(e.record.authority, &mut vault, taker_account_a, vault_balance) {
        Ok(()) => {},
        Err(err) => {
            return Err(err);
        },
    }
    // Teardown: the vault is drained and closed, the record's storage is
    // destroyed, and both reserved balances go back to the maker.
    *maker_native_balance = native_with_vault_reserve + e.record_reserve;
    *escrow = None;
    Ok(())
}

/// The result of `cancel`, as a function of the pre-state: `Ok(())` exactly
/// when every precondition holds, otherwise the error of the first failing
/// check, in this order: caller signature; existence of the record; the
/// caller being the record's maker; the refund account's owner and asset;
/// the vault's owner and asset; and room for the two balance additions the
/// refund and the teardown perform.
pub open spec fn cancel_outcome(
    maker: u64,
    maker_signed: bool,
    maker_account_a: TokenAccount,
    escrow: Option<Escrow>,
    maker_native_balance: u64,
) -> Result<(), TokenSwapError> {
    if !maker_signed {
        Err(TokenSwapError::Unauthorized)
    } else {
        match escrow {
            None => Err(TokenSwapError::MissingAccount),
            Some(e) => {
                if e.record.maker != maker {
                    Err(TokenSwapError::Unauthorized)
                } else if maker_account_a.owner != maker {
                    Err(TokenSwapError::Unauthorized)
                } else if maker_account_a.mint != e.record.token_mint_a {
                    Err(TokenSwapError::AssetMismatch)
                } else if e.vault.owner != e.record.authority {
                    Err(TokenSwapError::Unauthorized)
                } else if e.vault.mint != e.record.token_mint_a {
                    Err(TokenSwapError::AssetMismatch)
                } else if maker_account_a.balance + e.vault.balance > u64::MAX {
                    Err(TokenSwapError::ArithmeticOverflow)
                } else if maker_native_balance + e.vault_reserve + e.record_reserve > u64::MAX {
                    Err(TokenSwapError::ArithmeticOverflow)
                } else {
                    Ok(())
                }
            },
        }
    }
}

/// Cancels an offer: only its maker may do so. Returns the entire current
/// vault balance of asset A to the maker's own account, then tears the vault
/// and the record down exactly as `take` does, returning their reserved
/// balances to the maker's native balance.
///
/// All-or-nothing: on any error nothing changes.
pub fn cancel(
    maker: u64,
    maker_signed: bool,
    maker_account_a: &mut TokenAccount,
    escrow: &mut Option<Escrow>,
    maker_native_balance: &mut u64,
) -> (r: Result<(), TokenSwapError>)
    ensures
        r == cancel_outcome(
            maker,
            maker_signed,
            *old(maker_account_a),
            *old(escrow),
            *old(maker_native_balance),
        ),
        r is Ok ==> ((*old(escrow)) matches Some(e) && {
            &&& *final(escrow) == None::<Escrow>
            &&& *final(maker_account_a) == with_balance(
                *old(maker_account_a),
                old(maker_account_a).balance + e.vault.balance,
            )
            &&& *final(maker_native_balance) == *old(maker_native_balance) + e.vault_reserve
                + e.record_reserve
        }),
        r is Err ==> {
            &&& *final(maker_account_a) == *old(maker_account_a)
            &&& *final(escrow) == *old(escrow)
            &&& *final(maker_native_balance) == *old(maker_native_balance)
        },
{
    if !maker_signed {
        return Err(TokenSwapError::Unauthorized);
    }
    let e = match *escrow {
        None => {
            return Err(TokenSwapError::MissingAccount);
        },
        Some(e) => e,
    };
    if e.record.maker != maker {
        return Err(TokenSwapError::Unauthorized);
    }
    if maker_account_a.owner != maker {
        return Err(TokenSwapError::Unauthorized);
    }
    if maker_account_a.mint != e.record.token_mint_a {
        return Err(TokenSwapError::AssetMismatch);
    }
    if e.vault.owner != e.record.authority {
        return Err(TokenSwapError::Unauthorized);
    }
    if e.vault.mint != e.record.token_mint_a {
        return Err(TokenSwapError::AssetMismatch);
    }
    if maker_account_a.balance > u64::MAX - e.vault.balance {
        return Err(TokenSwapError::ArithmeticOverflow);
    }
    if *maker_native_balance > u64::MAX - e.vault_reserve {
        return Err(TokenSwapError::ArithmeticOverflow);
    }
    let native_with_vault_reserve: u64 = *maker_native_balance + e.vault_reserve;
    if native_with_vault_reserve > u64::MAX - e.record_reserve {
        return Err(TokenSwapError::ArithmeticOverflow);
    }
    // Refund leg: the entire current vault balance of asset A back to the
    // maker, moved under the record's derived authority.
    let mut vault = e.vault;
    let vault_balance: u64 = vault.balance;
    match transfer_delegated(e.record.authority, &mut vault, maker_account_a, vault_balance) {
        Ok(()) => {},
        Err(err) => {
            return Err(err);
        },
    }
    // Teardown, as in `take`.
    *maker_native_balance = native_with_vault_reserve + e.record_reserve;
    *escrow = None;
    Ok(())
}

/// A take replayed after its escrow was torn down fails with
/// `MissingAccount`: once the record and vault are gone, the same otherwise
/// well-formed request (signed taker, correctly owned and denominated
/// accounts) reaches the record lookup and stops there. Together with
/// `take`'s contract — every error leaves every account unchanged — a second
/// take never re-executes any part of the swap.
pub proof fn lemma_take_after_close(
    taker: u64,
    maker: u64,
    token_mint_a: u64,
    token_mint_b: u64,
    taker_account_a: TokenAccount,
    taker_account_b: TokenAccount,
    maker_account_b: TokenAccount,
    maker_native_balance: u64,
)
    requires
        taker_account_a.owner == taker,
        taker_account_a.mint == token_mint_a,
        taker_account_b.owner == taker,
        taker_account_b.mint == token_mint_b,
        maker_account_b.owner == maker,
        maker_account_b.mint == token_mint_b,
    ensures
        take_outcome(
            taker,
            true,
            maker,
            token_mint_a,
            token_mint_b,
            taker_account_a,
            taker_account_b,
            maker_account_b,
            None::<Escrow>,
            maker_native_balance,
        ) == Err::<(), TokenSwapError>(TokenSwapError::MissingAccount),
{
}

/// A take whose supplied asset-A identity does not match the taker's asset-A
/// account fails with `AssetMismatch`: swapping `token_mint_a` for an
/// unrelated asset is caught during account validation, before the record is
/// even consulted. Together with `take`'s contract, no balance moves.
pub proof fn lemma_take_mint_mismatch(
    taker: u64,
    maker: u64,
    token_mint_a: u64,
    token_mint_b: u64,
    taker_account_a: TokenAccount,
    taker_account_b: TokenAccount,
    maker_account_b: TokenAccount,
    escrow: Option<Escrow>,
    maker_native_balance: u64,
)
    requires
        taker_account_a.owner == taker,
        taker_account_a.mint != token_mint_a,
    ensures
        take_outcome(
            taker,
            true,
            maker,
            token_mint_a,
            token_mint_b,
            taker_account_a,
            taker_account_b,
            maker_account_b,
            escrow,
            maker_native_balance,
        ) == Err::<(), TokenSwapError>(TokenSwapError::AssetMismatch),
{
}

/// A cancel attempted by anyone but the record's maker fails with
/// `Unauthorized`, even when the caller signed the request. Together with
/// `cancel`'s contract, the vault and the record stay exactly as they were.
pub proof fn lemma_cancel_unauthorized(
    caller: u64,
    caller_account_a: TokenAccount,
    escrow: Escrow,
    maker_native_balance: u64,
)
    requires
        caller != escrow.record.maker,
    ensures
        cancel_outcome(
            caller,
            true,
            caller_account_a,
            Some(escrow),
            maker_native_balance,
        ) == Err::<(), TokenSwapError>(TokenSwapError::Unauthorized),
{
}

} // verus!
