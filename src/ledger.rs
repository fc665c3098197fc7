//! An in-memory token ledger: token-holding accounts and the authorized
//! transfer of units between them.

use vstd::prelude::*;

use crate::pubkey::Pubkey;

verus! {

/// A token-holding account: its address and its balance.
#[derive(Clone, Copy, Debug)]
pub struct TokenAccount {
    pub key: Pubkey,
    pub amount: u64,
}

/// A request to move `amount` units from the account at `from` to the account
/// at `to`, approved by `authority`.
#[derive(Clone, Copy, Debug)]
pub struct Transfer {
    pub from: Pubkey,
    pub to: Pubkey,
    pub authority: Pubkey,
    pub amount: u64,
}

/// Why the ledger refused a transfer.
#[derive(Clone, Copy, Debug, PartialEq, Eq, Structural)]
pub enum TokenError {
    /// The source account holds fewer units than requested.
    InsufficientFunds,
    /// The destination balance would exceed the largest `u64`.
    Overflow,
}

/// The balances after moving `amount` from `from` to `to`, or why the ledger
/// refuses to.
pub open spec fn transfer_outcome(from: TokenAccount, to: TokenAccount, amount: u64) -> Result<
    (TokenAccount, TokenAccount),
    TokenError,
> {
    if from.amount < amount {
        Err(TokenError::InsufficientFunds)
    } else if to.amount + amount > u64::MAX {
        Err(TokenError::Overflow)
    } else {
        Ok(
            (
                TokenAccount { key: from.key, amount: (from.amount - amount) as u64 },
                TokenAccount { key: to.key, amount: (to.amount + amount) as u64 },
            ),
        )
    }
}

/// Moves `amount` units from `from` to `to`; on failure neither account changes.
pub fn transfer(from: &mut TokenAccount, to: &mut TokenAccount, amount: u64) -> (r: Result<
    (),
    TokenError,
>)
    ensures
        match transfer_outcome(*old(from), *old(to), amount) {
            Ok((f, t)) => r is Ok && *final(from) == f && *final(to) == t,
            Err(e) => r == Err::<(), TokenError>(e) && *final(from) == *old(from) && *final(to)
                == *old(to),
        },
{
    if from.amount < amount {
        return Err(TokenError::InsufficientFunds);
    }
    if to.amount > u64::MAX - amount {
        return Err(TokenError::Overflow);
    }
    from.amount = from.amount - amount;
    to.amount = to.amount + amount;
    Ok(())
}

} // verus!
