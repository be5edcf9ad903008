//! The swap engine: one directional trade against a pool snapshot and a
//! tick sequence.
//!
//! The engine validates the caller's price limit and amount, then walks the
//! price curve step by step: each iteration asks the tick sequence for the
//! next initialized tick in the trade direction, asks the step-computation
//! primitive to move the price toward the more restrictive of that tick's
//! price and the caller's limit, updates the running amounts with checked
//! arithmetic, and crosses the tick boundary — applying its signed
//! net-liquidity delta — whenever the step lands exactly on it.  The walk
//! ends when the trade amount is exhausted or the price reaches the limit.

use crate::errors::ErrorCode;
use crate::math::{
    sqrt_price_in_bounds, step_consumed, tick_price_consistent_with_pool, valid_step_result,
    valid_tick_price, SwapStepComputation, MAX_SQRT_PRICE_X64, MIN_SQRT_PRICE_X64,
};
use crate::tick::{AccountKey, Tick, MAX_TICK_INDEX, MIN_TICK_INDEX, TICK_ARRAY_SIZE};
use crate::tick_sequence::{tick_in_query_range, SwapTickSequence};
use vstd::prelude::*;

verus! {

/// Read-only snapshot of the pool state the engine trades against.  The
/// engine never mutates it; the caller applies the returned update.
#[derive(Clone, Copy, Debug, PartialEq, Eq, Structural)]
pub struct Whirlpool {
    /// Current square-root price, Q64.64.
    pub sqrt_price: u128,
    /// Current tick index.
    pub tick_current_index: i32,
    /// Current in-range liquidity.
    pub liquidity: u128,
    /// Minimum distance between usable ticks; must be nonzero.
    pub tick_spacing: u16,
    /// Fee rate handed through to the step computation.
    pub fee_rate: u16,
}

/// What one swap call produced: the caller applies it to persisted state and
/// settles the two asset legs.
#[derive(Clone, Copy, Debug, PartialEq, Eq, Structural)]
pub struct PostSwapUpdate {
    /// Gross amount of asset A exchanged.
    pub amount_a: u64,
    /// Gross amount of asset B exchanged.
    pub amount_b: u64,
    /// Pool liquidity after the trade.
    pub next_liquidity: u128,
    /// Pool tick index after the trade.
    pub next_tick_index: i32,
    /// Pool square-root price after the trade.
    pub next_sqrt_price: u128,
}

/// Whether the caller's price limit lies outside the global price bounds.
pub open spec fn limit_out_of_bounds(sqrt_price_limit: u128) -> bool {
    !sqrt_price_in_bounds(sqrt_price_limit as int)
}

/// Whether the price limit sits on the wrong side of the current price for
/// the requested direction: above it for a price-decreasing trade, below it
/// for a price-increasing one.
pub open spec fn limit_wrong_side(sqrt_price_limit: u128, sqrt_price: u128, a_to_b: bool) -> bool {
    (a_to_b && sqrt_price_limit > sqrt_price) || (!a_to_b && sqrt_price_limit < sqrt_price)
}

/// The liquidity after crossing a tick with the given net-liquidity change:
/// the change is negated when the price moves down through the tick.
pub open spec fn crossed_liquidity(liquidity: int, liquidity_net: int, a_to_b: bool) -> int {
    if a_to_b {
        liquidity - liquidity_net
    } else {
        liquidity + liquidity_net
    }
}

/// The step's target price: the more restrictive of the next tick's price
/// and the caller's limit, so a step overshoots neither.
pub open spec fn sqrt_price_target(
    next_tick_price: u128,
    sqrt_price_limit: u128,
    a_to_b: bool,
) -> u128 {
    if a_to_b {
        if sqrt_price_limit >= next_tick_price {
            sqrt_price_limit
        } else {
            next_tick_price
        }
    } else {
        if sqrt_price_limit <= next_tick_price {
            sqrt_price_limit
        } else {
            next_tick_price
        }
    }
}

/// Phase of the swap loop: 0 once the trade amount is exhausted or the
/// price has reached the limit, 1 while work remains.
pub open spec fn swap_loop_phase(
    amount_remaining: u64,
    curr_sqrt_price: u128,
    sqrt_price_limit: u128,
) -> int {
    if amount_remaining == 0 || curr_sqrt_price == sqrt_price_limit {
        0
    } else {
        1
    }
}

/// How far the current tick index can still travel in the trade direction
/// before it leaves the range any sequence query can answer about.
pub open spec fn tick_travel(curr_tick_index: int, a_to_b: bool) -> int {
    let raw = if a_to_b {
        curr_tick_index + 6_300_001
    } else {
        6_300_001 - curr_tick_index
    };
    if raw < 0 {
        0
    } else {
        raw
    }
}

/// Apply a signed net-liquidity change, possibly negated, to a liquidity
/// value, with checked 128-bit arithmetic.
fn apply_liquidity_net(liquidity: u128, liquidity_net: i128, negate: bool) -> (r: Result<
    u128,
    ErrorCode,
>)
    ensures
        r is Ok <==> 0 <= crossed_liquidity(liquidity as int, liquidity_net as int, negate)
            <= u128::MAX as int,
        r matches Ok(l) ==> l == crossed_liquidity(liquidity as int, liquidity_net as int, negate),
        r is Err ==> r == Err::<u128, ErrorCode>(ErrorCode::LiquidityOverflow),
{
    let grow = (liquidity_net >= 0) != negate;
    let magnitude: u128 = if liquidity_net >= 0 {
        liquidity_net as u128
    } else {
        ((-(liquidity_net + 1)) as u128) + 1
    };
    if grow {
        if liquidity <= u128::MAX - magnitude {
            Ok(liquidity + magnitude)
        } else {
            Err(ErrorCode::LiquidityOverflow)
        }
    } else {
        if liquidity >= magnitude {
            Ok(liquidity - magnitude)
        } else {
            Err(ErrorCode::LiquidityOverflow)
        }
    }
}

/// The pool liquidity after crossing `tick`: the tick's net-liquidity
/// change, negated for a price-decreasing trade, is applied with checked
/// 128-bit arithmetic; leaving the 128-bit range fails the trade.
pub fn calculate_update(tick: &Tick, a_to_b: bool, liquidity: u128) -> (r: Result<u128, ErrorCode>)
    ensures
        r is Ok <==> 0 <= crossed_liquidity(liquidity as int, tick.liquidity_net as int, a_to_b)
            <= u128::MAX as int,
        r matches Ok(l) ==> l == crossed_liquidity(
            liquidity as int,
            tick.liquidity_net as int,
            a_to_b,
        ),
        r is Err ==> r == Err::<u128, ErrorCode>(ErrorCode::LiquidityOverflow),
{
    // The net change applies as-is when the price moves up through the
    // tick, negated when it moves down.
    apply_liquidity_net(liquidity, tick.liquidity_net, a_to_b)
}

/// The next tick's price together with the step's target price: the more
/// restrictive of that price and the caller's limit.
pub fn get_next_sqrt_prices(next_tick_price: u128, sqrt_price_limit: u128, a_to_b: bool) -> (r: (
    u128,
    u128,
))
    ensures
        r.0 == next_tick_price,
        r.1 == sqrt_price_target(next_tick_price, sqrt_price_limit, a_to_b),
{
    let next_sqrt_price_limit = if a_to_b {
        if sqrt_price_limit >= next_tick_price {
            sqrt_price_limit
        } else {
            next_tick_price
        }
    } else {
        if sqrt_price_limit <= next_tick_price {
            sqrt_price_limit
        } else {
            next_tick_price
        }
    };
    (next_tick_price, next_sqrt_price_limit)
}

/// Execute one directional trade.
///
/// `amount` denotes the input side of the trade when
/// `amount_specified_is_input` is true, the output side otherwise.
/// `timestamp` is accepted but unused, reserved for future semantics.
///
/// The fixed-point collaborators are supplied by the caller:
/// `compute_swap` is the step-computation primitive, and
/// `sqrt_price_from_tick_index` / `tick_index_from_sqrt_price` convert
/// between tick indices and square-root prices.  The engine assumes of them
/// only what `valid_step_result`, `valid_tick_price` and
/// `tick_price_consistent_with_pool` state; under those assumptions every
/// returned price lies between the pool's starting price and the caller's
/// limit, a limit equal to the current price trades nothing, and the loop
/// terminates.
#[verifier::loop_isolation(false)]
pub fn swap<FStep, FTickPrice, FPriceTick>(
    whirlpool: &Whirlpool,
    swap_tick_sequence: &SwapTickSequence,
    amount: u64,
    sqrt_price_limit: u128,
    amount_specified_is_input: bool,
    a_to_b: bool,
    timestamp: u64,
    compute_swap: FStep,
    sqrt_price_from_tick_index: FTickPrice,
    tick_index_from_sqrt_price: FPriceTick,
) -> (r: Result<PostSwapUpdate, ErrorCode>) where
    FStep: Fn(u64, u16, u128, u128, u128, bool, bool) -> Result<SwapStepComputation, ErrorCode>,
    FTickPrice: Fn(i32) -> u128,
    FPriceTick: Fn(u128) -> i32,

    requires
        swap_tick_sequence.well_formed(),
        forall|args: (u64, u16, u128, u128, u128, bool, bool)|
            #[trigger] compute_swap.requires(args),
        forall|args: (u64, u16, u128, u128, u128, bool, bool), sr: Result<
            SwapStepComputation,
            ErrorCode,
        >|
            #[trigger] compute_swap.ensures(args, sr) ==> valid_step_result(
                args.0,
                args.3,
                args.4,
                args.5,
                sr,
            ),
        forall|t: (i32,)| #[trigger] sqrt_price_from_tick_index.requires(t),
        forall|t: (i32,), p: u128|
            #[trigger] sqrt_price_from_tick_index.ensures(t, p) ==> valid_tick_price(
                t.0 as int,
                p as int,
            ) && tick_price_consistent_with_pool(
                t.0 as int,
                p as int,
                whirlpool.tick_current_index as int,
                whirlpool.sqrt_price as int,
            ),
        forall|p: (u128,)| #[trigger] tick_index_from_sqrt_price.requires(p),
    ensures
        limit_out_of_bounds(sqrt_price_limit) ==> r == Err::<PostSwapUpdate, ErrorCode>(
            ErrorCode::SqrtPriceOutOfBounds,
        ),
        !limit_out_of_bounds(sqrt_price_limit) && limit_wrong_side(
            sqrt_price_limit,
            whirlpool.sqrt_price,
            a_to_b,
        ) ==> r == Err::<PostSwapUpdate, ErrorCode>(ErrorCode::InvalidSqrtPriceLimitDirection),
        !limit_out_of_bounds(sqrt_price_limit) && !limit_wrong_side(
            sqrt_price_limit,
            whirlpool.sqrt_price,
            a_to_b,
        ) && amount == 0 ==> r == Err::<PostSwapUpdate, ErrorCode>(ErrorCode::ZeroTradableAmount),
        !limit_out_of_bounds(sqrt_price_limit) && !limit_wrong_side(
            sqrt_price_limit,
            whirlpool.sqrt_price,
            a_to_b,
        ) && amount != 0 && sqrt_price_limit == whirlpool.sqrt_price ==> r == Ok::<
            PostSwapUpdate,
            ErrorCode,
        >(
            PostSwapUpdate {
                amount_a: 0,
                amount_b: 0,
                next_liquidity: whirlpool.liquidity,
                next_tick_index: whirlpool.tick_current_index,
                next_sqrt_price: whirlpool.sqrt_price,
            },
        ),
        r matches Ok(u) ==> {
            &&& (a_to_b ==> sqrt_price_limit <= u.next_sqrt_price <= whirlpool.sqrt_price)
            &&& (!a_to_b ==> whirlpool.sqrt_price <= u.next_sqrt_price <= sqrt_price_limit)
            &&& (a_to_b == amount_specified_is_input ==> u.amount_a <= amount)
            &&& (a_to_b != amount_specified_is_input ==> u.amount_b <= amount)
            &&& (u.next_sqrt_price == sqrt_price_limit || (a_to_b == amount_specified_is_input
                && u.amount_a == amount) || (a_to_b != amount_specified_is_input && u.amount_b
                == amount))
        },
{
    if sqrt_price_limit < MIN_SQRT_PRICE_X64 || sqrt_price_limit > MAX_SQRT_PRICE_X64 {
        return Err(ErrorCode::SqrtPriceOutOfBounds);
    }

    if a_to_b && sqrt_price_limit > whirlpool.sqrt_price || !a_to_b && sqrt_price_limit
        < whirlpool.sqrt_price {
        return Err(ErrorCode::InvalidSqrtPriceLimitDirection);
    }

    if amount == 0 {
        return Err(ErrorCode::ZeroTradableAmount);
    }

    let tick_spacing = whirlpool.tick_spacing;
    let fee_rate = whirlpool.fee_rate;

    let mut amount_remaining: u64 = amount;
    let mut amount_calculated: u64 = 0;
    let mut curr_sqrt_price: u128 = whirlpool.sqrt_price;
    let mut curr_tick_index: i32 = whirlpool.tick_current_index;
    let mut curr_liquidity: u128 = whirlpool.liquidity;
    let mut curr_array_index: usize = 0;

    while amount_remaining > 0 && sqrt_price_limit != curr_sqrt_price
        invariant
            amount_remaining <= amount,
            a_to_b ==> sqrt_price_limit <= curr_sqrt_price <= whirlpool.sqrt_price,
            !a_to_b ==> whirlpool.sqrt_price <= curr_sqrt_price <= sqrt_price_limit,
            amount_remaining > 0 && curr_sqrt_price != sqrt_price_limit ==> (a_to_b
                ==> curr_tick_index <= whirlpool.tick_current_index) && (!a_to_b
                ==> curr_tick_index >= whirlpool.tick_current_index),
            sqrt_price_limit == whirlpool.sqrt_price ==> amount_remaining == amount
                && amount_calculated == 0 && curr_sqrt_price == whirlpool.sqrt_price
                && curr_tick_index == whirlpool.tick_current_index && curr_liquidity
                == whirlpool.liquidity,
        decreases
                swap_loop_phase(amount_remaining, curr_sqrt_price, sqrt_price_limit),
                tick_travel(curr_tick_index as int, a_to_b),
                amount_remaining,
    {
        let ghost prev_remaining = amount_remaining;
        let ghost prev_sqrt_price = curr_sqrt_price;
        let ghost prev_tick_index = curr_tick_index;

        let (next_array_index, next_tick_index) =
            match swap_tick_sequence.get_next_initialized_tick_index(
            curr_tick_index,
            tick_spacing,
            a_to_b,
            curr_array_index,
        ) {
            Ok(value) => value,
            Err(e) => {
                return Err(e);
            },
        };

        let next_tick_price: u128 = sqrt_price_from_tick_index(next_tick_index);
        let (next_tick_sqrt_price, sqrt_price_target_value) = get_next_sqrt_prices(
            next_tick_price,
            sqrt_price_limit,
            a_to_b,
        );

        let swap_computation = match compute_swap(
            amount_remaining,
            fee_rate,
            curr_liquidity,
            curr_sqrt_price,
            sqrt_price_target_value,
            amount_specified_is_input,
            a_to_b,
        ) {
            Ok(value) => value,
            Err(e) => {
                return Err(e);
            },
        };

        if amount_specified_is_input {
            amount_remaining = match amount_remaining.checked_sub(swap_computation.amount_in) {
                Some(value) => value,
                None => {
                    return Err(ErrorCode::AmountRemainingOverflow);
                },
            };
            amount_remaining = match amount_remaining.checked_sub(swap_computation.fee_amount) {
                Some(value) => value,
                None => {
                    return Err(ErrorCode::AmountRemainingOverflow);
                },
            };

            amount_calculated = match amount_calculated.checked_add(swap_computation.amount_out) {
                Some(value) => value,
                None => {
                    return Err(ErrorCode::AmountCalcOverflow);
                },
            };
        } else {
            amount_remaining = match amount_remaining.checked_sub(swap_computation.amount_out) {
                Some(value) => value,
                None => {
                    return Err(ErrorCode::AmountRemainingOverflow);
                },
            };

            amount_calculated = match amount_calculated.checked_add(swap_computation.amount_in) {
                Some(value) => value,
                None => {
                    return Err(ErrorCode::AmountCalcOverflow);
                },
            };
            amount_calculated = match amount_calculated.checked_add(swap_computation.fee_amount) {
                Some(value) => value,
                None => {
                    return Err(ErrorCode::AmountCalcOverflow);
                },
            };
        }

        if swap_computation.next_price == next_tick_sqrt_price {
            // The step landed exactly on the boundary: cross it.  A failed
            // lookup means the boundary holds no record here, so it has no
            // liquidity effect.
            match swap_tick_sequence.get_tick(next_array_index, next_tick_index, tick_spacing) {
                Ok(next_tick) => {
                    if next_tick.initialized {
                        curr_liquidity = match calculate_update(
                            &next_tick,
                            a_to_b,
                            curr_liquidity,
                        ) {
                            Ok(value) => value,
                            Err(e) => {
                                return Err(e);
                            },
                        };
                    }
                },
                Err(_) => {},
            };

            let tick_offset = match swap_tick_sequence.get_tick_offset(
                next_array_index,
                next_tick_index,
                tick_spacing,
            ) {
                Ok(value) => value,
                Err(e) => {
                    return Err(e);
                },
            };

            // Advance to the adjacent partition when the crossed tick sits
            // at this partition's leading edge for the direction of travel.
            curr_array_index = if (a_to_b && tick_offset == 0) || (!a_to_b && tick_offset
                == TICK_ARRAY_SIZE as i64 - 1) {
                next_array_index + 1
            } else {
                next_array_index
            };

            // Leftward searches are inclusive of the current index, so the
            // index steps one below the crossed tick to keep progressing.
            curr_tick_index = if a_to_b {
                next_tick_index - 1
            } else {
                next_tick_index
            };
        } else if swap_computation.next_price != curr_sqrt_price {
            // A partial fill inside the current liquidity regime: recompute
            // the tick index from the price.
            curr_tick_index = tick_index_from_sqrt_price(swap_computation.next_price);
        }

        curr_sqrt_price = swap_computation.next_price;

        proof {
            lemma_swap_iteration_progress(
                prev_remaining,
                prev_sqrt_price,
                prev_tick_index,
                amount_remaining,
                curr_sqrt_price,
                curr_tick_index,
                sqrt_price_limit,
                a_to_b,
                next_tick_index,
                next_tick_price,
                swap_computation,
                amount_specified_is_input,
                whirlpool.sqrt_price,
                whirlpool.tick_current_index,
            );
        }
    }

    let (amount_a, amount_b) = if a_to_b == amount_specified_is_input {
        (amount - amount_remaining, amount_calculated)
    } else {
        (amount_calculated, amount - amount_remaining)
    };

    Ok(
        PostSwapUpdate {
            amount_a,
            amount_b,
            next_liquidity: curr_liquidity,
            next_tick_index: curr_tick_index,
            next_sqrt_price: curr_sqrt_price,
        },
    )
}

/// Step prices progress monotonically toward the limit and never pass it:
/// when the next boundary's price lies on the trade side of the current
/// price, a valid step result lands between the target and the current
/// price, and the target itself never overshoots the caller's limit.
pub proof fn lemma_step_price_progress(
    amount_remaining: u64,
    curr_sqrt_price: u128,
    next_tick_price: u128,
    sqrt_price_limit: u128,
    a_to_b: bool,
    amount_specified_is_input: bool,
    s: SwapStepComputation,
)
    requires
        valid_step_result(
            amount_remaining,
            curr_sqrt_price,
            sqrt_price_target(next_tick_price, sqrt_price_limit, a_to_b),
            amount_specified_is_input,
            Ok(s),
        ),
        a_to_b ==> sqrt_price_limit <= curr_sqrt_price && next_tick_price <= curr_sqrt_price,
        !a_to_b ==> curr_sqrt_price <= sqrt_price_limit && curr_sqrt_price <= next_tick_price,
    ensures
        a_to_b ==> sqrt_price_limit <= s.next_price <= curr_sqrt_price,
        !a_to_b ==> curr_sqrt_price <= s.next_price <= sqrt_price_limit,
{
}

/// Crossing a tick while the price rises adds its net-liquidity change
/// exactly; crossing the same tick back while the price falls removes it
/// again, restoring the starting liquidity.
pub proof fn lemma_cross_round_trip(liquidity: int, liquidity_net: int)
    ensures
        crossed_liquidity(liquidity, liquidity_net, false) == liquidity + liquidity_net,
        crossed_liquidity(
            crossed_liquidity(liquidity, liquidity_net, false),
            liquidity_net,
            true,
        ) == liquidity,
{
}

/// Each loop iteration makes progress and stays inside the pool-to-limit
/// bracket: it ends the trade, or moves the current tick strictly in the
/// trade direction, or leaves the tick where it is and strictly shrinks the
/// remaining amount; and the price after the step never passes the pool's
/// starting price on one side or the caller's limit on the other.
pub proof fn lemma_swap_iteration_progress(
    prev_remaining: u64,
    prev_sqrt_price: u128,
    prev_tick_index: i32,
    amount_remaining: u64,
    curr_sqrt_price: u128,
    curr_tick_index: i32,
    sqrt_price_limit: u128,
    a_to_b: bool,
    next_tick_index: i32,
    next_tick_price: u128,
    s: SwapStepComputation,
    amount_specified_is_input: bool,
    pool_sqrt_price: u128,
    pool_tick_index: i32,
)
    requires
        prev_remaining > 0,
        prev_sqrt_price != sqrt_price_limit,
        a_to_b ==> sqrt_price_limit <= prev_sqrt_price <= pool_sqrt_price && prev_tick_index
            <= pool_tick_index,
        !a_to_b ==> pool_sqrt_price <= prev_sqrt_price <= sqrt_price_limit && prev_tick_index
            >= pool_tick_index,
        tick_price_consistent_with_pool(
            next_tick_index as int,
            next_tick_price as int,
            pool_tick_index as int,
            pool_sqrt_price as int,
        ),
        tick_in_query_range(prev_tick_index as int),
        a_to_b ==> next_tick_index <= prev_tick_index || next_tick_index == MIN_TICK_INDEX,
        !a_to_b ==> next_tick_index > prev_tick_index || next_tick_index == MAX_TICK_INDEX,
        valid_tick_price(next_tick_index as int, next_tick_price as int),
        sqrt_price_in_bounds(sqrt_price_limit as int),
        valid_step_result(
            prev_remaining,
            prev_sqrt_price,
            sqrt_price_target(next_tick_price, sqrt_price_limit, a_to_b),
            amount_specified_is_input,
            Ok(s),
        ),
        curr_sqrt_price == s.next_price,
        amount_remaining as int <= prev_remaining as int - step_consumed(
            s,
            amount_specified_is_input,
        ),
        s.next_price == next_tick_price ==> curr_tick_index == if a_to_b {
            next_tick_index - 1
        } else {
            next_tick_index as int
        },
        s.next_price != next_tick_price && s.next_price == prev_sqrt_price ==> curr_tick_index
            == prev_tick_index,
    ensures
        swap_loop_phase(amount_remaining, curr_sqrt_price, sqrt_price_limit) == 0 || tick_travel(
            curr_tick_index as int,
            a_to_b,
        ) < tick_travel(prev_tick_index as int, a_to_b) || (tick_travel(
            curr_tick_index as int,
            a_to_b,
        ) == tick_travel(prev_tick_index as int, a_to_b) && amount_remaining < prev_remaining),
        a_to_b ==> curr_sqrt_price <= pool_sqrt_price,
        !a_to_b ==> pool_sqrt_price <= curr_sqrt_price,
        amount_remaining > 0 && curr_sqrt_price != sqrt_price_limit ==> (a_to_b
            ==> curr_tick_index <= pool_tick_index) && (!a_to_b ==> curr_tick_index
            >= pool_tick_index),
{
    let target = sqrt_price_target(next_tick_price, sqrt_price_limit, a_to_b);
    // The next tick's price cannot lie beyond the pool's starting price in
    // the trade direction: it is consistent with the snapshot, or it is the
    // global bound at the range's edge.
    if a_to_b {
        if next_tick_index > pool_tick_index {
            assert(next_tick_index == MIN_TICK_INDEX);
            assert(next_tick_price == MIN_SQRT_PRICE_X64);
        }
        assert(next_tick_price <= pool_sqrt_price);
        assert(target <= pool_sqrt_price);
    } else {
        if next_tick_index <= pool_tick_index {
            assert(next_tick_index == MAX_TICK_INDEX);
            assert(next_tick_price == MAX_SQRT_PRICE_X64);
        }
        assert(pool_sqrt_price <= next_tick_price);
        assert(pool_sqrt_price <= target);
    }
    if s.next_price == next_tick_price {
        // The step landed on the boundary tick.
        if a_to_b {
            if next_tick_index <= prev_tick_index {
                assert(tick_travel(curr_tick_index as int, a_to_b) < tick_travel(
                    prev_tick_index as int,
                    a_to_b,
                ));
            } else {
                // The sequence answered with the global minimum from beyond
                // the current tick; its price is the global bound, which the
                // limit cannot undercut, so the trade is over.
                assert(next_tick_price == MIN_SQRT_PRICE_X64);
                if sqrt_price_limit == MIN_SQRT_PRICE_X64 {
                    assert(curr_sqrt_price == sqrt_price_limit);
                } else {
                    assert(s.next_price != target);
                    assert(amount_remaining == 0);
                }
            }
        } else {
            if next_tick_index > prev_tick_index {
                assert(tick_travel(curr_tick_index as int, a_to_b) < tick_travel(
                    prev_tick_index as int,
                    a_to_b,
                ));
            } else {
                assert(next_tick_price == MAX_SQRT_PRICE_X64);
                if sqrt_price_limit == MAX_SQRT_PRICE_X64 {
                    assert(curr_sqrt_price == sqrt_price_limit);
                } else {
                    assert(s.next_price != target);
                    assert(amount_remaining == 0);
                }
            }
        }
    } else if s.next_price == prev_sqrt_price {
        // The price did not move and did not reach the boundary: the step
        // consumed part of the amount, or the target was already here.
        if prev_sqrt_price == target {
            // The target is the more restrictive of boundary and limit; it
            // can only equal the current price through the boundary price,
            // which this branch excludes, or through the limit, which the
            // loop condition excludes.
            assert(false);
        } else {
            assert(step_consumed(s, amount_specified_is_input) > 0);
            assert(amount_remaining < prev_remaining);
        }
    } else {
        // A partial fill that moved the price: it stopped short of the
        // boundary, so it consumed the whole remaining amount, or it reached
        // the limit exactly.
        if s.next_price == sqrt_price_limit {
            assert(swap_loop_phase(amount_remaining, curr_sqrt_price, sqrt_price_limit) == 0);
        } else {
            assert(s.next_price != target);
            assert(step_consumed(s, amount_specified_is_input) == prev_remaining as int);
            assert(amount_remaining == 0);
        }
    }
}

/// Validate the composition preconditions of a two-pool trade: the pools
/// are distinct, and the first trade's output asset is the second trade's
/// input asset.
pub fn check_two_hop_pools(
    whirlpool_one_key: AccountKey,
    whirlpool_two_key: AccountKey,
    pool_one_mint_a: AccountKey,
    pool_one_mint_b: AccountKey,
    pool_two_mint_a: AccountKey,
    pool_two_mint_b: AccountKey,
    a_to_b_one: bool,
    a_to_b_two: bool,
) -> (r: Result<(), ErrorCode>)
    ensures
        whirlpool_one_key == whirlpool_two_key ==> r == Err::<(), ErrorCode>(
            ErrorCode::DuplicateTwoHopPool,
        ),
        whirlpool_one_key != whirlpool_two_key ==> {
            let swap_one_output_mint = if a_to_b_one {
                pool_one_mint_b
            } else {
                pool_one_mint_a
            };
            let swap_two_input_mint = if a_to_b_two {
                pool_two_mint_a
            } else {
                pool_two_mint_b
            };
            if swap_one_output_mint == swap_two_input_mint {
                r == Ok::<(), ErrorCode>(())
            } else {
                r == Err::<(), ErrorCode>(ErrorCode::InvalidIntermediaryMint)
            }
        },
{
    if whirlpool_one_key == whirlpool_two_key {
        return Err(ErrorCode::DuplicateTwoHopPool);
    }
    let swap_one_output_mint = if a_to_b_one {
        pool_one_mint_b
    } else {
        pool_one_mint_a
    };
    let swap_two_input_mint = if a_to_b_two {
        pool_two_mint_a
    } else {
        pool_two_mint_b
    };
    if swap_one_output_mint == swap_two_input_mint {
        Ok(())
    } else {
        Err(ErrorCode::InvalidIntermediaryMint)
    }
}

} // verus!
