//! Interface boundary to the fixed-point math collaborators.
//!
//! The per-step amount computation and the tick-index/price conversions are
//! supplied by the caller as functions.  This module holds the global price
//! bounds, the step-result value, and the spec-level description of what the
//! engine assumes of those collaborators: a step result never overshoots the
//! segment from the current price to the target, a step that stops short of
//! the target consumes the whole remaining amount, and a step that does not
//! move the price consumes something — the monotonic-progress guarantees
//! that bound the swap loop's work.

use crate::errors::ErrorCode;
use vstd::prelude::*;

verus! {

/// Smallest supported square-root price (Q64.64): the price at the smallest
/// supported tick index.
pub const MIN_SQRT_PRICE_X64: u128 = 4295048016;
/// Largest supported square-root price (Q64.64): the price at the largest
/// supported tick index.
pub const MAX_SQRT_PRICE_X64: u128 = 79226673515401279992447579055;

/// What the step-computation primitive returns for one step of a trade.
#[derive(Clone, Copy, Debug, PartialEq, Eq, Structural)]
pub struct SwapStepComputation {
    /// Gross input-side amount moved in this step.
    pub amount_in: u64,
    /// Gross output-side amount moved in this step.
    pub amount_out: u64,
    /// Square-root price after this step.
    pub next_price: u128,
    /// Fee charged on this step, on the input side.
    pub fee_amount: u64,
}

/// Whether a square-root price lies within the supported global bounds.
pub open spec fn sqrt_price_in_bounds(sqrt_price: int) -> bool {
    MIN_SQRT_PRICE_X64 as int <= sqrt_price <= MAX_SQRT_PRICE_X64 as int
}

/// What one step removes from the remaining amount: input plus fee when the
/// trade amount denotes the input side, output otherwise.
pub open spec fn step_consumed(s: SwapStepComputation, amount_specified_is_input: bool) -> int {
    if amount_specified_is_input {
        s.amount_in as int + s.fee_amount as int
    } else {
        s.amount_out as int
    }
}

/// Whether `next` lies on the closed segment from `curr` to `target`.
pub open spec fn price_on_segment(next: int, curr: int, target: int) -> bool {
    if curr <= target {
        curr <= next <= target
    } else {
        target <= next <= curr
    }
}

/// What the engine assumes of every result of the step-computation
/// primitive, for the arguments that matter to the loop: the step's price
/// never overshoots the target, a step that stops short of the target
/// consumes exactly the remaining amount, and a step that leaves the price
/// unchanged without having reached the target consumes something.
pub open spec fn valid_step_result(
    amount_remaining: u64,
    curr_sqrt_price: u128,
    sqrt_price_target: u128,
    amount_specified_is_input: bool,
    r: Result<SwapStepComputation, ErrorCode>,
) -> bool {
    r matches Ok(s) ==> {
        &&& price_on_segment(s.next_price as int, curr_sqrt_price as int, sqrt_price_target as int)
        &&& (s.next_price != sqrt_price_target ==> step_consumed(s, amount_specified_is_input)
            == amount_remaining as int)
        &&& (s.next_price == curr_sqrt_price && curr_sqrt_price != sqrt_price_target
            ==> step_consumed(s, amount_specified_is_input) > 0)
    }
}

/// Consistency of the tick-index-to-price conversion with a pool snapshot:
/// the pool's price lies within its current tick's bracket, so ticks at or
/// below the current tick price at or below the pool's price and ticks above
/// it price at or above.  With the conversion monotone — price at tick `t`
/// is the per-tick rate raised to `t` — this holds of every honest pool.
pub open spec fn tick_price_consistent_with_pool(
    tick_index: int,
    sqrt_price: int,
    pool_tick_index: int,
    pool_sqrt_price: int,
) -> bool {
    &&& (tick_index <= pool_tick_index ==> sqrt_price <= pool_sqrt_price)
    &&& (tick_index > pool_tick_index ==> sqrt_price >= pool_sqrt_price)
}

/// What the engine assumes of the tick-index-to-price conversion: every
/// result is within the global price bounds, and the bounds themselves are
/// the prices of the extreme tick indices.
pub open spec fn valid_tick_price(tick_index: int, sqrt_price: int) -> bool {
    &&& sqrt_price_in_bounds(sqrt_price)
    &&& (tick_index <= crate::tick::MIN_TICK_INDEX as int ==> sqrt_price
        == MIN_SQRT_PRICE_X64 as int)
    &&& (tick_index >= crate::tick::MAX_TICK_INDEX as int ==> sqrt_price
        == MAX_SQRT_PRICE_X64 as int)
}

} // verus!
