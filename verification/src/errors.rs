//! Typed failure reasons.  Every failure aborts the whole operation: the
//! caller receives one of these and no state mutation has taken place.

use vstd::prelude::*;

verus! {

/// Why an operation was rejected.
#[derive(Clone, Copy, Debug, PartialEq, Eq, Structural)]
pub enum ErrorCode {
    /// The caller's square-root price limit lies outside the global bounds.
    SqrtPriceOutOfBounds,
    /// The price limit is on the wrong side of the current price for the
    /// requested trade direction.
    InvalidSqrtPriceLimitDirection,
    /// The requested trade amount is zero.
    ZeroTradableAmount,
    /// A tick spacing of zero was supplied.
    InvalidTickSpacing,
    /// The start tick index is not a valid partition start.
    InvalidStartTick,
    /// The tick index is not addressable in the partition.
    TickNotFound,
    /// The queried tick index is not in the partition's search range.
    InvalidTickArraySequence,
    /// A partition index beyond the supplied partitions was used.
    TickArraySequenceInvalidIndex,
    /// A slot offset outside the partition was used.
    TickArrayIndexOutofBounds,
    /// The remaining trade amount underflowed during an update.
    AmountRemainingOverflow,
    /// The accumulated trade amount overflowed during an update.
    AmountCalcOverflow,
    /// Applying a net-liquidity delta left the 128-bit unsigned range.
    LiquidityOverflow,
    /// The two pools of a two-hop trade do not share the connecting asset.
    InvalidIntermediaryMint,
    /// The two pools of a two-hop trade are the same pool.
    DuplicateTwoHopPool,
}

} // verus!
