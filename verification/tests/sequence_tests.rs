use whirlpool::errors::ErrorCode;
use whirlpool::tick::{TickArray, MAX_TICK_INDEX, MIN_TICK_INDEX};
use whirlpool::tick_sequence::SwapTickSequence;

fn array_with_start(start: i32) -> TickArray {
    let mut array = TickArray::default();
    array.start_tick_index = start;
    array
}

#[test]
fn sequence_walks_into_the_adjacent_partition_rightward() {
    let first = array_with_start(0);
    let mut second = array_with_start(704);
    second.ticks[5].initialized = true;

    let sequence = SwapTickSequence::new(vec![first, second]);
    // Nothing initialized ahead in the first partition: the walk continues
    // just past its range and finds offset 5 of the second.
    assert_eq!(sequence.get_next_initialized_tick_index(690, 8, false, 0), Ok((1, 744)));
}

#[test]
fn sequence_walks_into_the_adjacent_partition_leftward() {
    let first = array_with_start(0);
    let mut second = array_with_start(-704);
    second.ticks[87].initialized = true;

    let sequence = SwapTickSequence::new(vec![first, second]);
    assert_eq!(sequence.get_next_initialized_tick_index(40, 8, true, 0), Ok((1, -8)));
}

#[test]
fn sequence_rejects_non_adjacent_partitions() {
    let first = array_with_start(0);
    let second = array_with_start(1408);

    let sequence = SwapTickSequence::new(vec![first, second]);
    assert_eq!(
        sequence.get_next_initialized_tick_index(690, 8, false, 0),
        Err(ErrorCode::InvalidTickArraySequence)
    );
}

#[test]
fn sequence_rejects_partition_index_past_the_supplied_ones() {
    let sequence = SwapTickSequence::new(vec![array_with_start(0)]);
    assert_eq!(
        sequence.get_next_initialized_tick_index(40, 8, true, 1),
        Err(ErrorCode::TickArraySequenceInvalidIndex)
    );
}

#[test]
fn sequence_answers_global_minimum_at_the_leftmost_partition() {
    let left_edge = array_with_start(-444224);
    let sequence = SwapTickSequence::new(vec![left_edge]);
    assert_eq!(
        sequence.get_next_initialized_tick_index(-443700, 8, true, 0),
        Ok((0, MIN_TICK_INDEX))
    );
}

#[test]
fn sequence_answers_global_maximum_at_the_rightmost_partition() {
    let right_edge = array_with_start(443520);
    let sequence = SwapTickSequence::new(vec![right_edge]);
    assert_eq!(
        sequence.get_next_initialized_tick_index(443525, 8, false, 0),
        Ok((0, MAX_TICK_INDEX))
    );
}

#[test]
fn sequence_answers_partition_edge_when_no_more_partitions_follow() {
    let only = array_with_start(0);
    let sequence = SwapTickSequence::new(vec![only]);
    // Rightward: the last usable position of the last partition.
    assert_eq!(sequence.get_next_initialized_tick_index(0, 8, false, 0), Ok((0, 703)));
    // Leftward: the first position of the last partition.
    assert_eq!(sequence.get_next_initialized_tick_index(100, 8, true, 0), Ok((0, 0)));
}

#[test]
fn sequence_get_tick_addresses_partitions_by_index() {
    let mut first = array_with_start(0);
    first.ticks[2].initialized = true;
    first.ticks[2].liquidity_net = 5;
    let second = array_with_start(704);

    let sequence = SwapTickSequence::new(vec![first, second]);
    let tick = sequence.get_tick(0, 16, 8).unwrap();
    assert!(tick.initialized);
    assert_eq!(tick.liquidity_net, 5);
    assert_eq!(sequence.get_tick(1, 16, 8), Err(ErrorCode::TickNotFound));
    assert_eq!(sequence.get_tick(2, 16, 8), Err(ErrorCode::TickArraySequenceInvalidIndex));
}

#[test]
fn sequence_get_tick_offset_addresses_partitions_by_index() {
    let first = array_with_start(0);
    let second = array_with_start(704);
    let sequence = SwapTickSequence::new(vec![first, second]);
    assert_eq!(sequence.get_tick_offset(0, 16, 8), Ok(2));
    assert_eq!(sequence.get_tick_offset(1, 704, 8), Ok(0));
    assert_eq!(sequence.get_tick_offset(0, 16, 0), Err(ErrorCode::InvalidTickSpacing));
    assert_eq!(sequence.get_tick_offset(5, 16, 8), Err(ErrorCode::TickArraySequenceInvalidIndex));
}
