//! What holds of the operations over all inputs, proved from the spec
//! functions that pin down their results.

use vstd::prelude::*;

use crate::ledger::TokenAccount;
use crate::program::{
    created, config_updated, swap_request, swap_settled, ExecuteSwap, Initialize, SwapError,
    UpdateConfig,
};
use crate::state::{AutoSwapError, SwapConfig};

verus! {

/// Creating a record with a configuration whose bounds are ordered leaves a
/// record owned by the signer and holding that configuration verbatim.
pub proof fn initialize_keeps_signer_and_config(ctx: Initialize, config: SwapConfig)
    requires
        config.min_amount <= config.max_amount,
    ensures
        created(ctx, config).auto_swap.owner == ctx.owner,
        created(ctx, config).auto_swap.config == config,
{
}

/// A signer other than the record's owner cannot update the configuration:
/// the update fails with `Unauthorized` and the configuration stays.
pub proof fn foreign_signer_cannot_update(ctx: UpdateConfig, new_config: SwapConfig)
    requires
        ctx.auto_swap.owner@ != ctx.owner@,
    ensures
        config_updated(ctx, new_config).1 == Err::<(), AutoSwapError>(AutoSwapError::Unauthorized),
        config_updated(ctx, new_config).0.auto_swap.config == ctx.auto_swap.config,
{
}

/// When the owner asks for less than the minimum, the swap fails with
/// `AmountTooSmall` and no token moves.
pub proof fn amount_below_minimum_is_refused(ctx: ExecuteSwap, amount: u64)
    requires
        ctx.auto_swap.is_owned_by(ctx.owner),
        amount < ctx.auto_swap.config.min_amount,
    ensures
        swap_request(ctx, amount) == Err::<crate::ledger::Transfer, AutoSwapError>(
            AutoSwapError::AmountTooSmall,
        ),
        swap_settled(ctx, amount) == (
            ctx,
            Err::<(), SwapError>(SwapError::Program(AutoSwapError::AmountTooSmall)),
        ),
{
}

/// When the owner asks for more than the maximum, and not less than the
/// minimum, the swap fails with `AmountTooLarge` and no token moves.
pub proof fn amount_above_maximum_is_refused(ctx: ExecuteSwap, amount: u64)
    requires
        ctx.auto_swap.is_owned_by(ctx.owner),
        ctx.auto_swap.config.min_amount <= amount,
        amount > ctx.auto_swap.config.max_amount,
    ensures
        swap_request(ctx, amount) == Err::<crate::ledger::Transfer, AutoSwapError>(
            AutoSwapError::AmountTooLarge,
        ),
        swap_settled(ctx, amount) == (
            ctx,
            Err::<(), SwapError>(SwapError::Program(AutoSwapError::AmountTooLarge)),
        ),
{
}

/// A swap by the owner of an amount within the bounds, from a source that
/// holds at least that much into a destination with room for it, succeeds: it
/// moves exactly `amount` from source to destination and leaves the record
/// as it was.
pub proof fn swap_within_bounds_moves_amount(ctx: ExecuteSwap, amount: u64)
    requires
        ctx.auto_swap.is_owned_by(ctx.owner),
        ctx.auto_swap.config.min_amount <= amount <= ctx.auto_swap.config.max_amount,
        ctx.source_token_account.amount >= amount,
        ctx.destination_token_account.amount + amount <= u64::MAX,
    ensures
        swap_settled(ctx, amount).1 is Ok,
        swap_settled(ctx, amount).0.source_token_account == (TokenAccount {
            key: ctx.source_token_account.key,
            amount: (ctx.source_token_account.amount - amount) as u64,
        }),
        swap_settled(ctx, amount).0.destination_token_account == (TokenAccount {
            key: ctx.destination_token_account.key,
            amount: (ctx.destination_token_account.amount + amount) as u64,
        }),
        swap_settled(ctx, amount).0.auto_swap == ctx.auto_swap,
        swap_settled(ctx, amount).0.owner == ctx.owner,
{
}

/// Updating the configuration twice with the same value leaves the same
/// accounts, and the same result, as updating it once.
pub proof fn update_config_is_idempotent(ctx: UpdateConfig, new_config: SwapConfig)
    ensures
        config_updated(config_updated(ctx, new_config).0, new_config) == config_updated(
            ctx,
            new_config,
        ),
{
}

} // verus!
