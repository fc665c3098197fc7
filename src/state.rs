//! The persistent swap record, its configuration and the program's errors.

use vstd::prelude::*;

use crate::pubkey::Pubkey;

verus! {

/// Bounds and settings of a swap account.
///
/// `slippage_bps` and `enabled` are stored and handed back, and no operation
/// consults them.
#[derive(Clone, Copy, Debug, PartialEq, Eq, Structural)]
pub struct SwapConfig {
    pub min_amount: u64,
    pub max_amount: u64,
    pub slippage_bps: u16,
    pub enabled: bool,
}

impl SwapConfig {
    /// Bytes taken by a configuration in account storage:
    /// two `u64` bounds, a `u16` slippage and a one-byte flag.
    pub const LEN: usize = 8 + 8 + 2 + 1;
}

/// The persistent record: who controls it and how swaps are bounded.
#[derive(Clone, Copy, Debug)]
pub struct AutoSwap {
    pub owner: Pubkey,
    pub config: SwapConfig,
}

impl AutoSwap {
    /// Bytes taken by a record in account storage: the owner key and the
    /// configuration.
    pub const LEN: usize = 32 + SwapConfig::LEN;

    /// Whether `signer` is the principal that controls this record.
    pub open spec fn is_owned_by(self, signer: Pubkey) -> bool {
        self.owner@ == signer@
    }
}

/// Why the program refused an operation.
#[derive(Clone, Copy, Debug, PartialEq, Eq, Structural)]
pub enum AutoSwapError {
    /// The signer is not the record's owner.
    Unauthorized,
    /// The amount is below the configured minimum.
    AmountTooSmall,
    /// The amount is above the configured maximum.
    AmountTooLarge,
}

impl AutoSwapError {
    /// A short message that describes the error.
    pub fn message(&self) -> (r: &'static str)
        ensures
            *self == AutoSwapError::Unauthorized ==> r@ == "Not authorized to perform this action"@,
            *self == AutoSwapError::AmountTooSmall ==> r@ == "Amount too small"@,
            *self == AutoSwapError::AmountTooLarge ==> r@ == "Amount too large"@,
    {
        match self {
            AutoSwapError::Unauthorized => "Not authorized to perform this action",
            AutoSwapError::AmountTooSmall => "Amount too small",
            AutoSwapError::AmountTooLarge => "Amount too large",
        }
    }
}

} // verus!
