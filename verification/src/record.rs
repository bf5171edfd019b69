//! The persisted record and the error surface of the interaction processor.

use vstd::prelude::*;

verus! {

/// Happiness score given to a freshly created record.
pub const INITIAL_HAPPINESS: u8 = 100;

/// Persistent state kept for one owner: a happiness score in `[0, 255]`
/// and the tick recorded when the record was created.
#[derive(Clone, Copy, Debug, PartialEq, Eq, Structural)]
pub struct PetDataAccount {
    pub happiness: u8,
    pub played_at_slot: u64,
}

/// The checked integer operation that failed.
#[derive(Clone, Copy, Debug, PartialEq, Eq, Structural)]
pub enum ArithmeticOp {
    Sub,
    Mul,
}

/// The step of the interaction pipeline at which a checked operation failed.
#[derive(Clone, Copy, Debug, PartialEq, Eq, Structural)]
pub enum ArithmeticStage {
    /// Subtracting the requested amount from the happiness score.
    HappinessDebit,
    /// Computing the elapsed ticks since the record was created.
    TickDiff,
    /// Subtracting the elapsed-time decay from the happiness score.
    Decay,
    /// Scaling the amount by the token's decimal precision.
    BurnScaling,
}

/// Errors of the interaction processor.  Every error aborts the whole
/// unit of work: no state is persisted and no tokens are burned.
#[derive(Clone, Copy, Debug, PartialEq, Eq, Structural)]
pub enum ErrorCode {
    /// A zero-magnitude interaction was requested.
    NoTokensToPlay,
    /// A checked integer operation would underflow or overflow.
    ArithmeticFault { operation: ArithmeticOp, stage: ArithmeticStage },
}

} // verus!
