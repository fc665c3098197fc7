//! The program's operations: create a record, replace its configuration, and
//! turn a swap request into a bounded token transfer.

use vstd::prelude::*;

use crate::ledger::{transfer, transfer_outcome, TokenAccount, TokenError, Transfer};
use crate::pubkey::Pubkey;
use crate::state::{AutoSwap, AutoSwapError, SwapConfig};

verus! {

/// Accounts of a record's creation: the freshly allocated record and the
/// principal that signs, pays for and will own it.
#[derive(Clone, Copy, Debug)]
pub struct Initialize {
    pub auto_swap: AutoSwap,
    pub owner: Pubkey,
}

/// Accounts of a configuration update: the record and the signer.
#[derive(Clone, Copy, Debug)]
pub struct UpdateConfig {
    pub auto_swap: AutoSwap,
    pub owner: Pubkey,
}

/// Accounts of a swap: the record, the two token accounts and the signer.
#[derive(Clone, Copy, Debug)]
pub struct ExecuteSwap {
    pub auto_swap: AutoSwap,
    pub source_token_account: TokenAccount,
    pub destination_token_account: TokenAccount,
    pub owner: Pubkey,
}

/// Why a swap settled on the in-memory ledger failed.
#[derive(Clone, Copy, Debug, PartialEq, Eq, Structural)]
pub enum SwapError {
    /// The program refused the swap.
    Program(AutoSwapError),
    /// The ledger refused the transfer.
    Token(TokenError),
}

/// The record that creation leaves: owned by the signer, holding `config` as given.
pub open spec fn created(ctx: Initialize, config: SwapConfig) -> Initialize {
    Initialize { auto_swap: AutoSwap { owner: ctx.owner, config }, owner: ctx.owner }
}

/// The accounts after a configuration update, and its result.
pub open spec fn config_updated(ctx: UpdateConfig, new_config: SwapConfig) -> (
    UpdateConfig,
    Result<(), AutoSwapError>,
) {
    if ctx.auto_swap.is_owned_by(ctx.owner) {
        (
            UpdateConfig {
                auto_swap: AutoSwap { owner: ctx.auto_swap.owner, config: new_config },
                owner: ctx.owner,
            },
            Ok(()),
        )
    } else {
        (ctx, Err(AutoSwapError::Unauthorized))
    }
}

/// The transfer that a swap of `amount` asks for, or the first check it fails:
/// the signer must own the record, then `amount` must reach the minimum, then
/// stay within the maximum.
pub open spec fn swap_request(ctx: ExecuteSwap, amount: u64) -> Result<Transfer, AutoSwapError> {
    if !ctx.auto_swap.is_owned_by(ctx.owner) {
        Err(AutoSwapError::Unauthorized)
    } else if amount < ctx.auto_swap.config.min_amount {
        Err(AutoSwapError::AmountTooSmall)
    } else if amount > ctx.auto_swap.config.max_amount {
        Err(AutoSwapError::AmountTooLarge)
    } else {
        Ok(
            Transfer {
                from: ctx.source_token_account.key,
                to: ctx.destination_token_account.key,
                authority: ctx.owner,
                amount,
            },
        )
    }
}

/// The accounts after a swap of `amount` settled on the in-memory ledger, and
/// its result; on any failure nothing changes.
pub open spec fn swap_settled(ctx: ExecuteSwap, amount: u64) -> (
    ExecuteSwap,
    Result<(), SwapError>,
) {
    match swap_request(ctx, amount) {
        Err(e) => (ctx, Err(SwapError::Program(e))),
        Ok(t) => match transfer_outcome(
            ctx.source_token_account,
            ctx.destination_token_account,
            t.amount,
        ) {
            Err(e) => (ctx, Err(SwapError::Token(e))),
            Ok((src, dst)) => (
                ExecuteSwap {
                    source_token_account: src,
                    destination_token_account: dst,
                    ..ctx
                },
                Ok(()),
            ),
        },
    }
}

/// Creates a record: its owner is the signer and its configuration is
/// `config`, unchecked.
pub fn initialize(ctx: &mut Initialize, config: SwapConfig) -> (r: Result<(), AutoSwapError>)
    ensures
        r is Ok,
        *final(ctx) == created(*old(ctx), config),
{
    ctx.auto_swap.owner = ctx.owner;
    ctx.auto_swap.config = config;
    Ok(())
}

/// Replaces the whole configuration, when the signer owns the record;
/// otherwise fails with `Unauthorized` and changes nothing.
pub fn update_config(ctx: &mut UpdateConfig, new_config: SwapConfig) -> (r: Result<
    (),
    AutoSwapError,
>)
    ensures
        (*final(ctx), r) == config_updated(*old(ctx), new_config),
{
    if !ctx.auto_swap.owner.same_as(&ctx.owner) {
        return Err(AutoSwapError::Unauthorized);
    }
    ctx.auto_swap.config = new_config;
    Ok(())
}

/// Checks a swap of `amount` and gives the transfer that carries it out:
/// `amount` units from the source to the destination account, approved by
/// the signer. The record is left as it is.
pub fn execute_swap(ctx: &ExecuteSwap, amount: u64) -> (r: Result<Transfer, AutoSwapError>)
    ensures
        r == swap_request(*ctx, amount),
{
    if !ctx.auto_swap.owner.same_as(&ctx.owner) {
        return Err(AutoSwapError::Unauthorized);
    }
    if amount < ctx.auto_swap.config.min_amount {
        return Err(AutoSwapError::AmountTooSmall);
    }
    if amount > ctx.auto_swap.config.max_amount {
        return Err(AutoSwapError::AmountTooLarge);
    }
    Ok(
        Transfer {
            from: ctx.source_token_account.key,
            to: ctx.destination_token_account.key,
            authority: ctx.owner,
            amount,
        },
    )
}

/// Runs a swap of `amount` against the in-memory ledger: the program's checks,
/// then the transfer between the two token accounts. Either both succeed or
/// nothing changes.
pub fn settle_swap(ctx: &mut ExecuteSwap, amount: u64) -> (r: Result<(), SwapError>)
    ensures
        (*final(ctx), r) == swap_settled(*old(ctx), amount),
{
    match execute_swap(ctx, amount) {
        Err(e) => Err(SwapError::Program(e)),
        Ok(t) => match transfer(
            &mut ctx.source_token_account,
            &mut ctx.destination_token_account,
            t.amount,
        ) {
            Err(e) => Err(SwapError::Token(e)),
            Ok(()) => Ok(()),
        },
    }
}

} // verus!
