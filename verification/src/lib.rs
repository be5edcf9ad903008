//! Swap-execution core of a concentrated-liquidity automated market maker.
//!
//! Given a pool snapshot and a sequence of tick partitions, the engine walks
//! the price curve step by step, crossing initialized tick boundaries and
//! accounting liquidity, until the requested trade amount is filled or the
//! caller's price limit is reached.  The per-step fixed-point arithmetic and
//! the tick-index/price conversions are collaborators supplied by the caller;
//! everything else — the partition layout, the boundary search, the guard
//! checks, the crossing bookkeeping and the loop itself — is verified here.

pub mod errors;
pub mod math;
pub mod swap_manager;
pub mod tick;
pub mod tick_sequence;
