//! The asset ledger: the asset-transfer service the protocol delegates
//! balance moves, authority reassignment and account closure to, over the
//! plain fields of a token account that the protocol's validations read.
//!
//! Every delegated call the state machine issues is one of the three
//! operations here.  Each checks the same conditions the ledger checks, in
//! the ledger's order, and either applies its whole effect or leaves every
//! account untouched.

use vstd::prelude::*;
use crate::error::LedgerError;
use crate::state::Identity;

verus! {

/// A plain account that can sign calls and hold a storage balance.
#[derive(Clone, Copy, Debug, PartialEq, Eq, Structural)]
pub struct UserAccount {
    /// The account's public identity.
    pub key: Identity,
    /// Whether this account signed the current operation.
    pub is_signer: bool,
    /// The account's storage balance.
    pub lamports: u64,
}

/// One token account of the asset ledger.
#[derive(Clone, Copy, Debug, PartialEq, Eq, Structural)]
pub struct TokenAccount {
    /// The account's public identity.
    pub key: Identity,
    /// The asset type the account holds.
    pub mint: Identity,
    /// The sole authority allowed to move the account's balance.
    pub authority: Identity,
    /// The token balance.
    pub amount: u64,
    /// The storage balance, reclaimed when the account is closed.
    pub lamports: u64,
    /// Whether the account is live; a closed account refuses every call.
    pub is_open: bool,
}

/// Whether a transfer is accepted, and the failure when it is not:
/// both accounts must be live, the source must hold the amount, the asset
/// types must agree, and the named authority must be the source's
/// authority and have signed; crediting the destination must not overflow.
pub open spec fn transfer_check(
    from: TokenAccount,
    to: TokenAccount,
    authority: Identity,
    signed: bool,
    amount: u64,
) -> Result<(), LedgerError> {
    if !from.is_open || !to.is_open {
        Err(LedgerError::AccountClosed)
    } else if from.amount < amount {
        Err(LedgerError::InsufficientFunds)
    } else if from.mint != to.mint {
        Err(LedgerError::MintMismatch)
    } else if authority != from.authority {
        Err(LedgerError::OwnerMismatch)
    } else if !signed {
        Err(LedgerError::MissingSignature)
    } else if to.amount + amount > u64::MAX {
        Err(LedgerError::Overflow)
    } else {
        Ok(())
    }
}

/// Moves `amount` of the source's asset to the destination, on the
/// authority named; either the whole effect applies or nothing changes.
pub fn transfer(
    from: &mut TokenAccount,
    to: &mut TokenAccount,
    authority: Identity,
    signed: bool,
    amount: u64,
) -> (r: Result<(), LedgerError>)
    ensures
        r == transfer_check(*old(from), *old(to), authority, signed, amount),
        r is Ok ==> *final(from) == (TokenAccount {
            amount: (old(from).amount - amount) as u64,
            ..*old(from)
        }) && *final(to) == (TokenAccount { amount: (old(to).amount + amount) as u64, ..*old(to) }),
        r is Err ==> *final(from) == *old(from) && *final(to) == *old(to),
{
    if !from.is_open || !to.is_open {
        return Err(LedgerError::AccountClosed);
    }
    if from.amount < amount {
        return Err(LedgerError::InsufficientFunds);
    }
    if from.mint != to.mint {
        return Err(LedgerError::MintMismatch);
    }
    if authority != from.authority {
        return Err(LedgerError::OwnerMismatch);
    }
    if !signed {
        return Err(LedgerError::MissingSignature);
    }
    if amount > u64::MAX - to.amount {
        return Err(LedgerError::Overflow);
    }
    from.amount = from.amount - amount;
    to.amount = to.amount + amount;
    Ok(())
}

/// Decides a transfer without performing it: exactly the verdict
/// `transfer` itself would return on these accounts.
pub fn transfer_allowed(
    from: &TokenAccount,
    to: &TokenAccount,
    authority: Identity,
    signed: bool,
    amount: u64,
) -> (r: Result<(), LedgerError>)
    ensures
        r == transfer_check(*from, *to, authority, signed, amount),
{
    if !from.is_open || !to.is_open {
        return Err(LedgerError::AccountClosed);
    }
    if from.amount < amount {
        return Err(LedgerError::InsufficientFunds);
    }
    if from.mint != to.mint {
        return Err(LedgerError::MintMismatch);
    }
    if authority != from.authority {
        return Err(LedgerError::OwnerMismatch);
    }
    if !signed {
        return Err(LedgerError::MissingSignature);
    }
    if amount > u64::MAX - to.amount {
        return Err(LedgerError::Overflow);
    }
    Ok(())
}

/// Whether reassigning an account's authority is accepted: the account
/// must be live and the current authority must be named and have signed.
pub open spec fn set_authority_check(
    acc: TokenAccount,
    current_authority: Identity,
    signed: bool,
) -> Result<(), LedgerError> {
    if !acc.is_open {
        Err(LedgerError::AccountClosed)
    } else if current_authority != acc.authority {
        Err(LedgerError::OwnerMismatch)
    } else if !signed {
        Err(LedgerError::MissingSignature)
    } else {
        Ok(())
    }
}

/// Reassigns the sole authority over a token account.
pub fn set_authority(
    acc: &mut TokenAccount,
    new_authority: Identity,
    current_authority: Identity,
    signed: bool,
) -> (r: Result<(), LedgerError>)
    ensures
        r == set_authority_check(*old(acc), current_authority, signed),
        r is Ok ==> *final(acc) == (TokenAccount { authority: new_authority, ..*old(acc) }),
        r is Err ==> *final(acc) == *old(acc),
{
    if !acc.is_open {
        return Err(LedgerError::AccountClosed);
    }
    if current_authority != acc.authority {
        return Err(LedgerError::OwnerMismatch);
    }
    if !signed {
        return Err(LedgerError::MissingSignature);
    }
    acc.authority = new_authority;
    Ok(())
}

/// Whether closing an account is accepted: it must be live and drained of
/// tokens, its authority must be named and have signed, and reclaiming its
/// storage balance must not overflow the destination.
pub open spec fn close_check(
    acc: TokenAccount,
    dest: UserAccount,
    authority: Identity,
    signed: bool,
) -> Result<(), LedgerError> {
    if !acc.is_open {
        Err(LedgerError::AccountClosed)
    } else if acc.amount != 0 {
        Err(LedgerError::NonZeroBalance)
    } else if authority != acc.authority {
        Err(LedgerError::OwnerMismatch)
    } else if !signed {
        Err(LedgerError::MissingSignature)
    } else if dest.lamports + acc.lamports > u64::MAX {
        Err(LedgerError::Overflow)
    } else {
        Ok(())
    }
}

/// Closes a drained token account, reclaiming its storage balance to the
/// destination; either the whole effect applies or nothing changes.
pub fn close_account(
    acc: &mut TokenAccount,
    dest: &mut UserAccount,
    authority: Identity,
    signed: bool,
) -> (r: Result<(), LedgerError>)
    ensures
        r == close_check(*old(acc), *old(dest), authority, signed),
        r is Ok ==> *final(acc) == (TokenAccount { lamports: 0, is_open: false, ..*old(acc) })
            && *final(dest) == (UserAccount {
            lamports: (old(dest).lamports + old(acc).lamports) as u64,
            ..*old(dest)
        }),
        r is Err ==> *final(acc) == *old(acc) && *final(dest) == *old(dest),
{
    if !acc.is_open {
        return Err(LedgerError::AccountClosed);
    }
    if acc.amount != 0 {
        return Err(LedgerError::NonZeroBalance);
    }
    if authority != acc.authority {
        return Err(LedgerError::OwnerMismatch);
    }
    if !signed {
        return Err(LedgerError::MissingSignature);
    }
    if acc.lamports > u64::MAX - dest.lamports {
        return Err(LedgerError::Overflow);
    }
    dest.lamports = dest.lamports + acc.lamports;
    acc.lamports = 0;
    acc.is_open = false;
    Ok(())
}

} // verus!
