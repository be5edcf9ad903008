//! Tick records and tick partitions.
//!
//! A tick is a discrete price grid point.  A partition owns 88 contiguous
//! tick records for one pool, addressed by a start tick index and the pool's
//! tick spacing, and answers boundary-search queries against them.

use crate::errors::ErrorCode;
use vstd::arithmetic::div_mod::{lemma_fundamental_div_mod, lemma_fundamental_div_mod_converse};
use vstd::arithmetic::mul::lemma_mul_inequality;
use vstd::prelude::*;

verus! {

/// Largest supported tick index, derived from the supported price range
/// `2^-64 ..= 2^64` at a fixed per-tick rate of 1.0001.
pub const MAX_TICK_INDEX: i32 = 443636;
/// Smallest supported tick index.
pub const MIN_TICK_INDEX: i32 = -443636;

/// Number of tick records owned by one partition.
pub const TICK_ARRAY_SIZE: i32 = 88;
/// The partition size as a `usize`, for lengths and indexing.
pub const TICK_ARRAY_SIZE_USIZE: usize = 88;

/// Number of per-reward fee-growth accumulators carried by each tick.
pub const NUM_REWARDS: usize = 3;

/// Rust's truncating remainder for a positive divisor: the result follows the
/// sign of the dividend, unlike the mathematical (Euclidean) `%`.
pub open spec fn trunc_rem(a: int, b: int) -> int {
    if a >= 0 {
        a % b
    } else {
        -((-a) % b)
    }
}

/// Whether a tick index lies outside the supported global range.
pub open spec fn tick_out_of_bounds(tick_index: int) -> bool {
    tick_index > MAX_TICK_INDEX as int || tick_index < MIN_TICK_INDEX as int
}

/// The one start index below the global minimum that the leftmost partition
/// may use: the largest multiple of `88 * tick_spacing` strictly below the
/// minimum tick index.
pub open spec fn min_partition_start(tick_spacing: int) -> int {
    let ticks_in_array = TICK_ARRAY_SIZE as int * tick_spacing;
    MIN_TICK_INDEX as int - (trunc_rem(MIN_TICK_INDEX as int, ticks_in_array) + ticks_in_array)
}

/// Whether `tick_index` is a valid partition start for `tick_spacing`: a
/// multiple of `88 * tick_spacing` within the global bounds, or the one
/// left-edge start below the global minimum.
pub open spec fn is_valid_start_tick(tick_index: int, tick_spacing: int) -> bool {
    let ticks_in_array = TICK_ARRAY_SIZE as int * tick_spacing;
    if tick_out_of_bounds(tick_index) {
        if tick_index > MIN_TICK_INDEX as int {
            false
        } else {
            tick_index == min_partition_start(tick_spacing)
        }
    } else {
        trunc_rem(tick_index, ticks_in_array) == 0
    }
}

/// Whether `tick_index` is usable for `tick_spacing`: within the global
/// bounds and a multiple of the spacing.
pub open spec fn is_usable_tick(tick_index: int, tick_spacing: int) -> bool {
    !tick_out_of_bounds(tick_index) && trunc_rem(tick_index, tick_spacing) == 0
}

/// The all-zero tick record: the representation of "uninitialized".
pub open spec fn is_zero_tick(t: Tick) -> bool {
    &&& !t.initialized
    &&& t.liquidity_net == 0
    &&& t.liquidity_gross == 0
    &&& t.fee_growth_outside_a == 0
    &&& t.fee_growth_outside_b == 0
    &&& t.reward_growths_outside@ =~= seq![0u128, 0u128, 0u128]
}

/// Rust's truncating remainder for a positive divisor, in executable form.
fn rem_trunc(a: i32, b: i32) -> (r: i32)
    requires
        1 <= b,
    ensures
        r == trunc_rem(a as int, b as int),
{
    if a >= 0 {
        ((a as u32) % (b as u32)) as i32
    } else {
        let neg: u64 = (-(a as i64)) as u64;
        let m: u64 = neg % (b as u64);
        (-(m as i64)) as i32
    }
}

/// One discrete price point's liquidity change and accumulated fee and
/// reward growth.  The default (all-zero) value stands for "uninitialized".
#[derive(Clone, Copy, Debug, PartialEq)]
pub struct Tick {
    /// Whether this tick currently carries liquidity bookkeeping.
    pub initialized: bool,
    /// Signed liquidity change applied when the price crosses this tick.
    pub liquidity_net: i128,
    /// Total liquidity referencing this tick, regardless of sign.
    pub liquidity_gross: u128,
    /// Fee growth outside this tick for asset A, Q64.64.
    pub fee_growth_outside_a: u128,
    /// Fee growth outside this tick for asset B, Q64.64.
    pub fee_growth_outside_b: u128,
    /// Per-reward fee growth outside this tick, Q64.64 each.
    pub reward_growths_outside: [u128; NUM_REWARDS],
}

impl Default for Tick {
    /// The all-zero record, standing for an uninitialized tick.
    fn default() -> (t: Tick)
        ensures
            is_zero_tick(t),
    {
        Tick {
            initialized: false,
            liquidity_net: 0,
            liquidity_gross: 0,
            fee_growth_outside_a: 0,
            fee_growth_outside_b: 0,
            reward_growths_outside: [0, 0, 0],
        }
    }
}

impl Tick {
    /// Replace all five mutable fields atomically from a staged update.
    pub fn update(&mut self, update: &TickUpdate)
        ensures
            final(self).initialized == update.initialized,
            final(self).liquidity_net == update.liquidity_net,
            final(self).liquidity_gross == update.liquidity_gross,
            final(self).fee_growth_outside_a == update.fee_growth_outside_a,
            final(self).fee_growth_outside_b == update.fee_growth_outside_b,
            final(self).reward_growths_outside == update.reward_growths_outside,
    {
        self.initialized = update.initialized;
        self.liquidity_net = update.liquidity_net;
        self.liquidity_gross = update.liquidity_gross;
        self.fee_growth_outside_a = update.fee_growth_outside_a;
        self.fee_growth_outside_b = update.fee_growth_outside_b;
        self.reward_growths_outside = update.reward_growths_outside;
    }

    /// Whether the tick index lies outside the supported global range.
    pub fn check_is_out_of_bounds(tick_index: i32) -> (r: bool)
        ensures
            r == tick_out_of_bounds(tick_index as int),
    {
        tick_index > MAX_TICK_INDEX || tick_index < MIN_TICK_INDEX
    }

    /// Whether the tick index is a valid partition start for this spacing.
    /// The pool's tick spacing is nonzero by its own invariant.
    pub fn check_is_valid_start_tick(tick_index: i32, tick_spacing: u16) -> (r: bool)
        requires
            1 <= tick_spacing,
        ensures
            r == is_valid_start_tick(tick_index as int, tick_spacing as int),
    {
        let ticks_in_array: i32 = TICK_ARRAY_SIZE * tick_spacing as i32;

        if Tick::check_is_out_of_bounds(tick_index) {
            if tick_index > MIN_TICK_INDEX {
                return false;
            }
            let min_array_start_index: i32 =
                MIN_TICK_INDEX - (rem_trunc(MIN_TICK_INDEX, ticks_in_array) + ticks_in_array);
            return tick_index == min_array_start_index;
        }
        rem_trunc(tick_index, ticks_in_array) == 0
    }

    /// Whether the tick index is within the global bounds and usable for the
    /// given tick spacing.  The pool's tick spacing is nonzero by its own
    /// invariant.
    pub fn check_is_usable_tick(tick_index: i32, tick_spacing: u16) -> (r: bool)
        requires
            1 <= tick_spacing,
        ensures
            r == is_usable_tick(tick_index as int, tick_spacing as int),
    {
        if Tick::check_is_out_of_bounds(tick_index) {
            return false;
        }
        rem_trunc(tick_index, tick_spacing as i32) == 0
    }

    /// Clamp a tick index to the supported global range.
    pub fn bound_tick_index(tick_index: i32) -> (r: i32)
        ensures
            r == if tick_index < MIN_TICK_INDEX {
                MIN_TICK_INDEX as int
            } else if tick_index > MAX_TICK_INDEX {
                MAX_TICK_INDEX as int
            } else {
                tick_index as int
            },
    {
        if tick_index < MIN_TICK_INDEX {
            MIN_TICK_INDEX
        } else if tick_index > MAX_TICK_INDEX {
            MAX_TICK_INDEX
        } else {
            tick_index
        }
    }
}

/// A staged tick update: the same shape as the mutable fields of a tick,
/// applied atomically, never field by field.
#[derive(Clone, Copy, Debug, PartialEq, Default)]
pub struct TickUpdate {
    /// Staged initialized flag.
    pub initialized: bool,
    /// Staged signed net-liquidity change.
    pub liquidity_net: i128,
    /// Staged gross liquidity.
    pub liquidity_gross: u128,
    /// Staged fee growth outside, asset A.
    pub fee_growth_outside_a: u128,
    /// Staged fee growth outside, asset B.
    pub fee_growth_outside_b: u128,
    /// Staged per-reward growth accumulators.
    pub reward_growths_outside: [u128; NUM_REWARDS],
}

impl TickUpdate {
    /// Stage an update that copies every field of an existing tick.
    pub fn from(tick: &Tick) -> (u: TickUpdate)
        ensures
            u.initialized == tick.initialized,
            u.liquidity_net == tick.liquidity_net,
            u.liquidity_gross == tick.liquidity_gross,
            u.fee_growth_outside_a == tick.fee_growth_outside_a,
            u.fee_growth_outside_b == tick.fee_growth_outside_b,
            u.reward_growths_outside == tick.reward_growths_outside,
    {
        TickUpdate {
            initialized: tick.initialized,
            liquidity_net: tick.liquidity_net,
            liquidity_gross: tick.liquidity_gross,
            fee_growth_outside_a: tick.fee_growth_outside_a,
            fee_growth_outside_b: tick.fee_growth_outside_b,
            reward_growths_outside: tick.reward_growths_outside,
        }
    }
}

/// A 32-byte account identifier, held as four 64-bit words.
#[derive(Clone, Copy, Debug, PartialEq, Eq, Structural)]
pub struct AccountKey {
    /// Bytes 0..8 of the identifier.
    pub w0: u64,
    /// Bytes 8..16 of the identifier.
    pub w1: u64,
    /// Bytes 16..24 of the identifier.
    pub w2: u64,
    /// Bytes 24..32 of the identifier.
    pub w3: u64,
}

impl AccountKey {
    /// The all-zero identifier.
    pub fn zeroed() -> (k: AccountKey)
        ensures
            k == (AccountKey { w0: 0, w1: 0, w2: 0, w3: 0 }),
    {
        AccountKey { w0: 0, w1: 0, w2: 0, w3: 0 }
    }
}

/// A fixed-capacity contiguous block of 88 tick records covering a bounded
/// price range, owned by one pool.
pub struct TickArray {
    /// Absolute tick index of the record at slot offset 0.
    pub start_tick_index: i32,
    /// The 88 tick records, one per slot offset.
    pub ticks: Vec<Tick>,
    /// Identifier of the owning pool.
    pub whirlpool: AccountKey,
}

impl Default for TickArray {
    /// A partition at start index 0 with 88 uninitialized ticks and the
    /// all-zero owner.
    fn default() -> (t: TickArray)
        ensures
            t.well_formed(),
            t.start_tick_index == 0,
            t.whirlpool == (AccountKey { w0: 0, w1: 0, w2: 0, w3: 0 }),
            forall|o: int| 0 <= o < 88 ==> is_zero_tick(#[trigger] t.ticks@[o]),
    {
        let mut ticks: Vec<Tick> = Vec::new();
        let mut i: usize = 0;
        while i < TICK_ARRAY_SIZE_USIZE
            invariant
                i <= 88,
                ticks@.len() == i,
                forall|o: int| 0 <= o < i ==> is_zero_tick(#[trigger] ticks@[o]),
            decreases 88 - i,
        {
            ticks.push(Tick::default());
            i = i + 1;
        }
        TickArray { start_tick_index: 0, ticks, whirlpool: AccountKey::zeroed() }
    }
}

impl TickArray {
    /// The start tick index is far enough inside the 32-bit range that every
    /// partition-range computation fits, for any tick spacing.
    pub open spec fn start_in_range(self) -> bool {
        MIN_TICK_INDEX as int - TICK_ARRAY_SIZE as int * u16::MAX as int
            <= self.start_tick_index as int <= MAX_TICK_INDEX as int
    }

    /// A partition is well formed when its start index is in range and it
    /// owns exactly 88 tick records.
    pub open spec fn well_formed(self) -> bool {
        self.start_in_range() && self.ticks@.len() == TICK_ARRAY_SIZE as int
    }

    /// The search range for a query: `[start, start + 88 * spacing)`,
    /// shifted left by one spacing for rightward (price-increasing) searches.
    pub open spec fn search_range_contains(
        self,
        tick_index: int,
        tick_spacing: int,
        shifted: bool,
    ) -> bool {
        let shift = if shifted {
            tick_spacing
        } else {
            0
        };
        let lower = self.start_tick_index as int - shift;
        let upper = self.start_tick_index as int + TICK_ARRAY_SIZE as int * tick_spacing - shift;
        lower <= tick_index < upper
    }

    /// The slot offset addressed by an absolute tick index: the floor of
    /// `(tick_index - start) / spacing`.
    pub open spec fn offset_of(self, tick_index: int, tick_spacing: int) -> int {
        (tick_index - self.start_tick_index as int) / tick_spacing
    }

    /// Whether `get_tick` can address this tick index: inside the partition
    /// and usable for the spacing.  A spacing of zero addresses nothing.
    pub open spec fn holds_usable_tick(self, tick_index: int, tick_spacing: int) -> bool {
        &&& self.search_range_contains(tick_index, tick_spacing, false)
        &&& is_usable_tick(tick_index, tick_spacing)
    }

    /// Search this partition for the next initialized tick from `tick_index`.
    ///
    /// For `a_to_b` (leftward) searches the starting slot is inclusive and
    /// slots are scanned in decreasing order; for rightward searches the scan
    /// starts one slot past the starting slot and moves in increasing order.
    /// Returns the absolute tick index of the first initialized record, or
    /// `None` when the scan leaves the partition without finding one.
    pub fn get_next_init_tick_index(
        &self,
        tick_index: i32,
        tick_spacing: u16,
        a_to_b: bool,
    ) -> (r: Result<Option<i32>, ErrorCode>)
        requires
            self.well_formed(),
        ensures
            r is Err <==> !self.search_range_contains(
                tick_index as int,
                tick_spacing as int,
                !a_to_b,
            ),
            r is Err ==> r == Err::<Option<i32>, ErrorCode>(ErrorCode::InvalidTickArraySequence),
            r matches Ok(Some(t)) ==> {
                let o = self.offset_of(t as int, tick_spacing as int);
                let b0 = self.offset_of(tick_index as int, tick_spacing as int);
                &&& t == self.start_tick_index as int + o * tick_spacing as int
                &&& 0 <= o < 88
                &&& self.start_tick_index as int <= t as int
                &&& (t as int) < self.start_tick_index as int + TICK_ARRAY_SIZE as int
                    * tick_spacing as int
                &&& self.ticks@[o].initialized
                &&& if a_to_b {
                    &&& o <= b0
                    &&& t <= tick_index
                    &&& forall|o2: int| o < o2 <= b0 ==> !(#[trigger] self.ticks@[o2]).initialized
                } else {
                    &&& b0 < o
                    &&& t > tick_index
                    &&& forall|o2: int|
                        b0 < o2 < o && o2 >= 0 ==> !(#[trigger] self.ticks@[o2]).initialized
                }
            },
            r == Ok::<Option<i32>, ErrorCode>(None) ==> {
                let b0 = self.offset_of(tick_index as int, tick_spacing as int);
                if a_to_b {
                    forall|o2: int| 0 <= o2 <= b0 ==> !(#[trigger] self.ticks@[o2]).initialized
                } else {
                    forall|o2: int|
                        b0 < o2 < 88 && o2 >= 0 ==> !(#[trigger] self.ticks@[o2]).initialized
                }
            },
    {
        if !self.in_search_range(tick_index, tick_spacing, !a_to_b) {
            return Err(ErrorCode::InvalidTickArraySequence);
        }
        // The search range is nonempty, so the spacing cannot be zero.
        assert(tick_spacing >= 1);

        let offset_wide: i64 = match self.tick_offset(tick_index, tick_spacing) {
            Ok(value) => value,
            Err(e) => {
                return Err(e);
            },
        };
        proof {
            lemma_offset_in_window(
                tick_index as int,
                self.start_tick_index as int,
                tick_spacing as int,
                if a_to_b {
                    0
                } else {
                    -1
                },
            );
        }
        let mut curr_offset: i32 = offset_wide as i32;

        // For leftward searches the next initialized tick may sit in the
        // starting slot itself; for rightward searches it cannot.
        if !a_to_b {
            curr_offset = curr_offset + 1;
        }

        let ghost b0 = self.offset_of(tick_index as int, tick_spacing as int);
        while curr_offset >= 0 && curr_offset < TICK_ARRAY_SIZE
            invariant
                self.well_formed(),
                1 <= tick_spacing,
                b0 == self.offset_of(tick_index as int, tick_spacing as int),
                self.search_range_contains(tick_index as int, tick_spacing as int, !a_to_b),
                a_to_b ==> -1 <= curr_offset <= b0 && b0 < 88,
                a_to_b ==> forall|o2: int|
                    curr_offset < o2 <= b0 ==> !(#[trigger] self.ticks@[o2]).initialized,
                !a_to_b ==> b0 < curr_offset <= 88 && b0 >= -1,
                !a_to_b ==> forall|o2: int|
                    b0 < o2 < curr_offset && o2 >= 0 ==> !(
                    #[trigger] self.ticks@[o2]).initialized,
                b0 * (tick_spacing as int) <= tick_index as int - self.start_tick_index as int,
                (tick_index as int - self.start_tick_index as int) < (b0 + 1) * (tick_spacing
                    as int),
            decreases
                    if a_to_b {
                        curr_offset + 1
                    } else {
                        TICK_ARRAY_SIZE - curr_offset
                    },
        {
            let curr_tick = self.ticks[curr_offset as usize];
            if curr_tick.initialized {
                proof {
                    lemma_mul_inequality(0, curr_offset as int, tick_spacing as int);
                    lemma_mul_inequality(curr_offset as int, 87, tick_spacing as int);
                }
                let t: i32 = (curr_offset * tick_spacing as i32) + self.start_tick_index;
                proof {
                    lemma_fundamental_div_mod_converse(
                        t as int - self.start_tick_index as int,
                        tick_spacing as int,
                        curr_offset as int,
                        0,
                    );
                    if a_to_b {
                        lemma_mul_inequality(curr_offset as int, b0, tick_spacing as int);
                    } else {
                        lemma_mul_inequality(b0 + 1, curr_offset as int, tick_spacing as int);
                    }
                }
                return Ok(Some(t));
            }

            curr_offset = if a_to_b {
                curr_offset - 1
            } else {
                curr_offset + 1
            };
        }

        Ok(None)
    }

    /// Set the owner and the start index, after validating that the start
    /// index is a valid partition start for the pool's tick spacing, which
    /// is nonzero by the pool's own invariant.
    pub fn initialize(
        &mut self,
        whirlpool: AccountKey,
        tick_spacing: u16,
        start_tick_index: i32,
    ) -> (r: Result<(), ErrorCode>)
        requires
            1 <= tick_spacing,
        ensures
            r is Ok <==> is_valid_start_tick(start_tick_index as int, tick_spacing as int),
            r is Ok ==> *final(self) == (TickArray {
                start_tick_index,
                ticks: old(self).ticks,
                whirlpool,
            }),
            r is Err ==> r == Err::<(), ErrorCode>(ErrorCode::InvalidStartTick) && *final(self)
                == *old(self),
    {
        if !Tick::check_is_valid_start_tick(start_tick_index, tick_spacing) {
            return Err(ErrorCode::InvalidStartTick);
        }

        self.whirlpool = whirlpool;
        self.start_tick_index = start_tick_index;
        Ok(())
    }

    /// The record addressed by `tick_index`, when it lies inside this
    /// partition and is usable for the spacing; `TickNotFound` otherwise.
    pub fn get_tick(&self, tick_index: i32, tick_spacing: u16) -> (r: Result<Tick, ErrorCode>)
        requires
            self.well_formed(),
        ensures
            r is Ok <==> self.holds_usable_tick(tick_index as int, tick_spacing as int),
            r matches Ok(t) ==> t == self.ticks@[self.offset_of(
                tick_index as int,
                tick_spacing as int,
            )],
            r is Err ==> r == Err::<Tick, ErrorCode>(ErrorCode::TickNotFound),
    {
        if !self.check_in_array_bounds(tick_index, tick_spacing) || !Tick::check_is_usable_tick(
            tick_index,
            tick_spacing,
        ) {
            return Err(ErrorCode::TickNotFound);
        }
        let offset: i64 = match self.tick_offset(tick_index, tick_spacing) {
            Ok(value) => value,
            Err(e) => {
                return Err(e);
            },
        };
        proof {
            lemma_offset_in_window(
                tick_index as int,
                self.start_tick_index as int,
                tick_spacing as int,
                0,
            );
        }
        if offset < 0 {
            return Err(ErrorCode::TickNotFound);
        }
        Ok(self.ticks[offset as usize])
    }

    /// Range test for search queries: `[start, start + 88 * spacing)`,
    /// shifted left by one spacing when `shifted` is true.
    pub fn in_search_range(&self, tick_index: i32, tick_spacing: u16, shifted: bool) -> (r: bool)
        requires
            self.start_in_range(),
        ensures
            r == self.search_range_contains(tick_index as int, tick_spacing as int, shifted),
    {
        let mut lower: i32 = self.start_tick_index;
        let mut upper: i32 = self.start_tick_index + TICK_ARRAY_SIZE * tick_spacing as i32;
        if shifted {
            lower = lower - tick_spacing as i32;
            upper = upper - tick_spacing as i32;
        }
        tick_index >= lower && tick_index < upper
    }

    /// Whether the tick index lies in this partition's unshifted range.
    pub fn check_in_array_bounds(&self, tick_index: i32, tick_spacing: u16) -> (r: bool)
        requires
            self.start_in_range(),
        ensures
            r == self.search_range_contains(tick_index as int, tick_spacing as int, false),
    {
        self.in_search_range(tick_index, tick_spacing, false)
    }

    /// Whether this is the leftmost partition of the supported range.
    pub fn is_min_tick_array(&self) -> (r: bool)
        ensures
            r == (self.start_tick_index <= MIN_TICK_INDEX as int),
    {
        self.start_tick_index <= MIN_TICK_INDEX
    }

    /// Whether this partition reaches past the greatest supported tick.
    pub fn is_max_tick_array(&self, tick_spacing: u16) -> (r: bool)
        requires
            self.start_in_range(),
        ensures
            r == (self.start_tick_index as int + TICK_ARRAY_SIZE as int * tick_spacing as int
                > MAX_TICK_INDEX as int),
    {
        self.start_tick_index + TICK_ARRAY_SIZE * (tick_spacing as i32) > MAX_TICK_INDEX
    }

    /// The slot offset addressed by a tick index: mathematical floor division
    /// of `tick_index - start` by the spacing, so negative numerators floor
    /// toward negative infinity.  A spacing of zero is rejected.
    pub fn tick_offset(&self, tick_index: i32, tick_spacing: u16) -> (r: Result<i64, ErrorCode>)
        ensures
            r is Err <==> tick_spacing == 0,
            r is Err ==> r == Err::<i64, ErrorCode>(ErrorCode::InvalidTickSpacing),
            r matches Ok(o) ==> o == self.offset_of(tick_index as int, tick_spacing as int),
    {
        if tick_spacing == 0 {
            return Err(ErrorCode::InvalidTickSpacing);
        }

        Ok(get_offset(tick_index, self.start_tick_index, tick_spacing))
    }
}

/// Floor division of `tick_index - start_tick_index` by the spacing.
fn get_offset(tick_index: i32, start_tick_index: i32, tick_spacing: u16) -> (o: i64)
    requires
        1 <= tick_spacing,
    ensures
        o == (tick_index as int - start_tick_index as int) / (tick_spacing as int),
{
    let lhs: i64 = tick_index as i64 - start_tick_index as i64;
    let rhs: u64 = tick_spacing as u64;
    if lhs >= 0 {
        ((lhs as u64) / rhs) as i64
    } else {
        // Floor division of a negative numerator: negate the ceiling of the
        // magnitude's quotient.
        let neg: u64 = (-lhs) as u64;
        let qm: u64 = (neg + rhs - 1) / rhs;
        proof {
            let l = lhs as int;
            let r = rhs as int;
            let n = neg as int;
            let q = qm as int;
            lemma_fundamental_div_mod(n + r - 1, r);
            let m = (n + r - 1) % r;
            assert(r * q == q * r) by (nonlinear_arith);
            assert(l + q * r == r - 1 - m);
            assert(l == (-q) * r + (l + q * r)) by (nonlinear_arith);
            lemma_fundamental_div_mod_converse(l, r, -q, l + q * r);
        }
        -(qm as i64)
    }
}

/// When a tick index sits in the partition's range shifted left by
/// `-lo_slots` spacings, its floor-division offset lies in `[lo_slots, 88)`.
proof fn lemma_offset_in_window(tick_index: int, start: int, spacing: int, lo_slots: int)
    requires
        1 <= spacing,
        start + lo_slots * spacing <= tick_index < start + (88 + lo_slots) * spacing,
    ensures
        lo_slots <= (tick_index - start) / spacing < 88 + lo_slots,
        ((tick_index - start) / spacing) * spacing <= tick_index - start,
        tick_index - start < ((tick_index - start) / spacing + 1) * spacing,
{
    let d = tick_index - start;
    let q = d / spacing;
    lemma_fundamental_div_mod(d, spacing);
    assert(q * spacing <= d < (q + 1) * spacing) by (nonlinear_arith)
        requires
            d == spacing * q + d % spacing,
            0 <= d % spacing < spacing,
    ;
    assert(lo_slots <= q < 88 + lo_slots) by (nonlinear_arith)
        requires
            q * spacing <= d < (q + 1) * spacing,
            lo_slots * spacing <= d < (88 + lo_slots) * spacing,
            1 <= spacing,
    ;
}

} // verus!
