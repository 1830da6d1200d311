use vstd::prelude::*;

use crate::account::TokenAccount;
use crate::account::with_balance;
use crate::error::TokenSwapError;

verus! {

/// What a transfer of `amount` from `source` to `destination` does, as a
/// function of the pre-state: either the updated pair of accounts, or the
/// error of the first failing check.
///
/// `authorized` is the host's verdict on the moving party: a verified live
/// signature in direct mode, or the presented derivation proof in delegated
/// mode. The checks run in this order: authorization, source ownership,
/// matching asset types, sufficient funds, and room in the destination.
pub open spec fn transfer_outcome(
    authorizer: u64,
    authorized: bool,
    source: TokenAccount,
    destination: TokenAccount,
    amount: u64,
) -> Result<(TokenAccount, TokenAccount), TokenSwapError> {
    if !authorized {
        Err(TokenSwapError::Unauthorized)
    } else if source.owner != authorizer {
        Err(TokenSwapError::Unauthorized)
    } else if source.mint != destination.mint {
        Err(TokenSwapError::AssetMismatch)
    } else if source.balance < amount {
        Err(TokenSwapError::InsufficientFunds)
    } else if destination.balance + amount > u64::MAX {
        Err(TokenSwapError::ArithmeticOverflow)
    } else {
        Ok((
            with_balance(source, source.balance - amount),
            with_balance(destination, destination.balance + amount),
        ))
    }
}

/// Direct transfer: moves exactly `amount` from `source` to `destination`,
/// authorized by `authorizer`, who must have signed the request (`signed`)
/// and must be the owner-of-record of `source`.
///
/// All-or-nothing: on any error both accounts are left unchanged.
pub fn transfer(
    authorizer: u64,
    signed: bool,
    source: &mut TokenAccount,
    destination: &mut TokenAccount,
    amount: u64,
) -> (r: Result<(), TokenSwapError>)
    ensures
        match transfer_outcome(authorizer, signed, *old(source), *old(destination), amount) {
            Ok(updated) => r is Ok && *final(source) == updated.0 && *final(destination)
                == updated.1,
            Err(e) => r == Err::<(), TokenSwapError>(e) && *final(source) == *old(source)
                && *final(destination) == *old(destination),
        },
{
    if !signed {
        return Err(TokenSwapError::Unauthorized);
    }
    if source.owner != authorizer {
        return Err(TokenSwapError::Unauthorized);
    }
    if source.mint != destination.mint {
        return Err(TokenSwapError::AssetMismatch);
    }
    if source.balance < amount {
        return Err(TokenSwapError::InsufficientFunds);
    }
    if destination.balance > u64::MAX - amount {
        return Err(TokenSwapError::ArithmeticOverflow);
    }
    source.balance = source.balance - amount;
    destination.balance = destination.balance + amount;
    Ok(())
}

/// Delegated transfer: moves exactly `amount` out of an account owned not by
/// a live signer but by a derived authority. The mover presents the escrow
/// record's `authority` credential in place of a signature; the transfer is
/// authorized exactly when that credential is the owner-of-record of
/// `source`.
///
/// All-or-nothing: on any error both accounts are left unchanged.
pub fn transfer_delegated(
    authority: u64,
    source: &mut TokenAccount,
    destination: &mut TokenAccount,
    amount: u64,
) -> (r: Result<(), TokenSwapError>)
    ensures
        match transfer_outcome(authority, true, *old(source), *old(destination), amount) {
            Ok(updated) => r is Ok && *final(source) == updated.0 && *final(destination)
                == updated.1,
            Err(e) => r == Err::<(), TokenSwapError>(e) && *final(source) == *old(source)
                && *final(destination) == *old(destination),
        },
{
    transfer(authority, true, source, destination, amount)
}

} // verus!
