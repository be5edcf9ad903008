//! An ordered view across up to three adjacent tick partitions.
//!
//! The swap engine queries this sequence for "next initialized tick" and
//! "tick at index" without knowing which physical partition holds a given
//! index.  Queries walk the partitions in trade direction; a query that runs
//! past the supplied partitions fails, aborting the trade.

use crate::errors::ErrorCode;
use crate::tick::{Tick, TickArray, MAX_TICK_INDEX, MIN_TICK_INDEX, TICK_ARRAY_SIZE};
use vstd::prelude::*;

verus! {

/// Loose bound on every tick index a sequence query can return: partition
/// starts are in range, so results stay well inside the 32-bit range.
pub open spec fn returned_tick_in_range(ti: int) -> bool {
    MIN_TICK_INDEX as int - TICK_ARRAY_SIZE as int * u16::MAX as int <= ti <= MAX_TICK_INDEX as int
        + TICK_ARRAY_SIZE as int * u16::MAX as int
}

/// Loose bound on every tick index a successful query can have been asked
/// about: it lay in some well-formed partition's (shifted) search range.
pub open spec fn tick_in_query_range(ti: int) -> bool {
    -6_300_000 <= ti <= 6_300_000
}

/// The tick index at which an exhausted partition hands the walk to the
/// adjacent one: one tick before the partition's range going left, the last
/// tick of its span going right.
pub open spec fn continuation_index(arr: TickArray, tick_spacing: int, a_to_b: bool) -> int {
    if a_to_b {
        arr.start_tick_index as int - 1
    } else {
        arr.start_tick_index as int + TICK_ARRAY_SIZE as int * tick_spacing - 1
    }
}

/// Up to three adjacent tick partitions, walked in trade direction.
pub struct SwapTickSequence {
    arrays: Vec<TickArray>,
}

impl SwapTickSequence {
    /// The partitions in walk order.
    pub closed spec fn partitions(self) -> Seq<TickArray> {
        self.arrays@
    }

    /// At most three partitions, each of them well formed.
    pub open spec fn well_formed(self) -> bool {
        &&& self.partitions().len() <= 3
        &&& forall|i: int|
            0 <= i < self.partitions().len() ==> (#[trigger] self.partitions()[i]).well_formed()
    }

    /// Wrap the partitions a single trade may touch, in walk order for the
    /// trade direction.
    pub fn new(arrays: Vec<TickArray>) -> (s: SwapTickSequence)
        requires
            arrays@.len() <= 3,
            forall|i: int| 0 <= i < arrays@.len() ==> (#[trigger] arrays@[i]).well_formed(),
        ensures
            s.partitions() == arrays@,
            s.well_formed(),
    {
        SwapTickSequence { arrays }
    }

    /// The record at `tick_index` in partition `array_index`.
    pub fn get_tick(&self, array_index: usize, tick_index: i32, tick_spacing: u16) -> (r: Result<
        Tick,
        ErrorCode,
    >)
        requires
            self.well_formed(),
        ensures
            array_index as int >= self.partitions().len() ==> r == Err::<Tick, ErrorCode>(
                ErrorCode::TickArraySequenceInvalidIndex,
            ),
            (array_index as int) < self.partitions().len() ==> {
                let arr = self.partitions()[array_index as int];
                &&& (r is Ok <==> arr.holds_usable_tick(tick_index as int, tick_spacing as int))
                &&& (r matches Ok(t) ==> t == arr.ticks@[arr.offset_of(
                    tick_index as int,
                    tick_spacing as int,
                )])
                &&& (r is Err ==> r == Err::<Tick, ErrorCode>(ErrorCode::TickNotFound))
            },
    {
        if array_index >= self.arrays.len() {
            return Err(ErrorCode::TickArraySequenceInvalidIndex);
        }
        self.arrays[array_index].get_tick(tick_index, tick_spacing)
    }

    /// The slot offset of `tick_index` within partition `array_index`.
    pub fn get_tick_offset(&self, array_index: usize, tick_index: i32, tick_spacing: u16) -> (r:
        Result<i64, ErrorCode>)
        requires
            self.well_formed(),
        ensures
            array_index as int >= self.partitions().len() ==> r == Err::<i64, ErrorCode>(
                ErrorCode::TickArraySequenceInvalidIndex,
            ),
            (array_index as int) < self.partitions().len() ==> {
                let arr = self.partitions()[array_index as int];
                &&& (r is Err <==> tick_spacing == 0)
                &&& (r is Err ==> r == Err::<i64, ErrorCode>(ErrorCode::InvalidTickSpacing))
                &&& (r matches Ok(o) ==> o == arr.offset_of(tick_index as int, tick_spacing as int))
            },
    {
        if array_index >= self.arrays.len() {
            return Err(ErrorCode::TickArraySequenceInvalidIndex);
        }
        self.arrays[array_index].tick_offset(tick_index, tick_spacing)
    }

    /// The partitions from `from` onward are laid out for a walk in this
    /// direction: each next partition's search range contains the previous
    /// partition's continuation index.
    pub open spec fn walkable_from(self, tick_spacing: int, a_to_b: bool, from: int) -> bool {
        forall|i: int|
            from <= i < self.partitions().len() - 1 ==> {
                let arr = #[trigger] self.partitions()[i];
                self.partitions()[i + 1].search_range_contains(
                    continuation_index(arr, tick_spacing, a_to_b),
                    tick_spacing,
                    !a_to_b,
                )
            }
    }

    /// What a successful "next initialized tick" query returned: either an
    /// initialized record of partition `ai`, or the global bound when the
    /// walk reached the leftmost or rightmost partition, or the edge of the
    /// last supplied partition as a signal that the walk may not continue.
    pub open spec fn query_result_describes(
        self,
        tick_spacing: int,
        a_to_b: bool,
        ai: int,
        ti: int,
    ) -> bool {
        let arr = self.partitions()[ai];
        let ticks_in_array = TICK_ARRAY_SIZE as int * tick_spacing;
        ||| {
            let o = arr.offset_of(ti, tick_spacing);
            &&& 0 <= o < 88
            &&& arr.ticks@[o].initialized
            &&& ti == arr.start_tick_index as int + o * tick_spacing
        }
        ||| (a_to_b && arr.start_tick_index <= MIN_TICK_INDEX as int && ti == MIN_TICK_INDEX as int)
        ||| (!a_to_b && arr.start_tick_index as int + ticks_in_array > MAX_TICK_INDEX as int && ti
            == MAX_TICK_INDEX as int)
        ||| (ai == self.partitions().len() - 1 && if a_to_b {
            ti == arr.start_tick_index as int
        } else {
            ti == arr.start_tick_index as int + ticks_in_array - 1
        })
    }

    /// Find the next initialized tick index from `tick_index` in the trade
    /// direction, walking partitions from `start_array_index` onward.  The
    /// walk may advance which partition is current; the partition that
    /// answered is returned with the tick index.
    pub fn get_next_initialized_tick_index(
        &self,
        tick_index: i32,
        tick_spacing: u16,
        a_to_b: bool,
        start_array_index: usize,
    ) -> (r: Result<(usize, i32), ErrorCode>)
        requires
            self.well_formed(),
        ensures
            r is Ok ==> tick_in_query_range(tick_index as int),
            r matches Ok((ai, ti)) ==> {
                &&& (ai as int) < self.partitions().len()
                &&& returned_tick_in_range(ti as int)
                &&& (a_to_b ==> ti <= tick_index || ti == MIN_TICK_INDEX)
                &&& (!a_to_b ==> ti > tick_index || ti == MAX_TICK_INDEX)
                &&& self.query_result_describes(tick_spacing as int, a_to_b, ai as int, ti as int)
            },
            r == Err::<(usize, i32), ErrorCode>(ErrorCode::TickArraySequenceInvalidIndex) <==> (
            start_array_index as int) >= self.partitions().len(),
            (start_array_index as int) < self.partitions().len() && self.partitions()[
                start_array_index as int].search_range_contains(
                tick_index as int,
                tick_spacing as int,
                !a_to_b,
            ) && self.walkable_from(tick_spacing as int, a_to_b, start_array_index as int)
                ==> r is Ok,
            r is Err ==> r == Err::<(usize, i32), ErrorCode>(ErrorCode::InvalidTickArraySequence)
                || r == Err::<(usize, i32), ErrorCode>(ErrorCode::TickArraySequenceInvalidIndex),
    {
        let mut search_index: i32 = tick_index;
        let mut array_index: usize = start_array_index;

        loop
            invariant
                self.well_formed(),
                start_array_index <= array_index,
                a_to_b ==> search_index <= tick_index,
                !a_to_b ==> search_index >= tick_index,
                tick_in_query_range(tick_index as int) || (array_index == start_array_index
                    && search_index == tick_index),
                (array_index as int) >= self.partitions().len() ==> array_index
                    == start_array_index,
                (start_array_index as int) < self.partitions().len() && self.partitions()[
                    start_array_index as int].search_range_contains(
                    tick_index as int,
                    tick_spacing as int,
                    !a_to_b,
                ) && self.walkable_from(tick_spacing as int, a_to_b, start_array_index as int)
                    ==> (array_index as int) < self.partitions().len() && self.partitions()[
                    array_index as int].search_range_contains(
                    search_index as int,
                    tick_spacing as int,
                    !a_to_b,
                ),
            decreases self.partitions().len() + 1 - array_index,
        {
            if array_index >= self.arrays.len() {
                return Err(ErrorCode::TickArraySequenceInvalidIndex);
            }
            let array = &self.arrays[array_index];

            let next_index = match array.get_next_init_tick_index(
                search_index,
                tick_spacing,
                a_to_b,
            ) {
                Ok(value) => value,
                Err(e) => {
                    return Err(e);
                },
            };

            match next_index {
                Some(next_index) => {
                    return Ok((array_index, next_index));
                },
                None => {
                    // The scan exhausted this partition.  At the edge of the
                    // supported range the global bound is the answer; at the
                    // edge of the supplied partitions the partition edge is
                    // returned so the caller can step to it before failing.
                    if a_to_b && array.is_min_tick_array() {
                        return Ok((array_index, MIN_TICK_INDEX));
                    } else if !a_to_b && array.is_max_tick_array(tick_spacing) {
                        return Ok((array_index, MAX_TICK_INDEX));
                    }
                    let ticks_in_array: i32 = TICK_ARRAY_SIZE * tick_spacing as i32;
                    if array_index + 1 >= self.arrays.len() {
                        let edge: i32 = if a_to_b {
                            array.start_tick_index
                        } else {
                            array.start_tick_index + ticks_in_array - 1
                        };
                        return Ok((array_index, edge));
                    }
                    // Continue the walk just past this partition's range in
                    // the adjacent partition.
                    search_index = if a_to_b {
                        array.start_tick_index - 1
                    } else {
                        array.start_tick_index + ticks_in_array - 1
                    };
                    array_index = array_index + 1;
                },
            }
        }
    }
}

} // verus!
