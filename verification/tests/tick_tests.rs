use whirlpool::errors::ErrorCode;
use whirlpool::tick::{
    AccountKey, Tick, TickArray, TickUpdate, MAX_TICK_INDEX, MIN_TICK_INDEX, TICK_ARRAY_SIZE_USIZE,
};

fn key(tag: u64) -> AccountKey {
    AccountKey { w0: tag, w1: 0, w2: 0, w3: 0 }
}

fn array_with_start(start: i32) -> TickArray {
    let mut array = TickArray::default();
    array.start_tick_index = start;
    array
}

#[test]
fn default_array_owns_88_uninitialized_ticks() {
    let array = TickArray::default();
    assert_eq!(array.ticks.len(), TICK_ARRAY_SIZE_USIZE);
    assert_eq!(array.start_tick_index, 0);
    for tick in &array.ticks {
        assert!(!tick.initialized);
        assert_eq!(tick.liquidity_net, 0);
        assert_eq!(tick.liquidity_gross, 0);
        assert_eq!(tick.fee_growth_outside_a, 0);
        assert_eq!(tick.fee_growth_outside_b, 0);
        assert_eq!(tick.reward_growths_outside, [0, 0, 0]);
        assert_eq!(*tick, Tick::default());
    }
}

#[test]
fn tick_offset_floors_negative_numerators() {
    let array = array_with_start(0);
    assert_eq!(array.tick_offset(-1, 2), Ok(-1));
    assert_eq!(array.tick_offset(-3, 2), Ok(-2));
}

#[test]
fn tick_offset_positive_and_aligned() {
    let array = array_with_start(0);
    assert_eq!(array.tick_offset(0, 2), Ok(0));
    assert_eq!(array.tick_offset(4, 2), Ok(2));
    assert_eq!(array.tick_offset(5, 2), Ok(2));
    let shifted = array_with_start(-704);
    assert_eq!(shifted.tick_offset(-696, 8), Ok(1));
}

#[test]
fn tick_offset_rejects_zero_spacing() {
    let array = array_with_start(0);
    assert_eq!(array.tick_offset(10, 0), Err(ErrorCode::InvalidTickSpacing));
}

#[test]
fn valid_start_tick_multiples_of_partition_span() {
    // With spacing 8 a partition spans 704 ticks.
    assert!(Tick::check_is_valid_start_tick(0, 8));
    assert!(Tick::check_is_valid_start_tick(704, 8));
    assert!(Tick::check_is_valid_start_tick(-704, 8));
    assert!(!Tick::check_is_valid_start_tick(1, 8));
    assert!(!Tick::check_is_valid_start_tick(352, 8));
}

#[test]
fn valid_start_tick_left_edge_special_case() {
    // The one start below the global minimum: the largest multiple of 704
    // strictly below -443636.
    assert!(Tick::check_is_valid_start_tick(-444224, 8));
    assert!(!Tick::check_is_valid_start_tick(-444225, 8));
    assert!(!Tick::check_is_valid_start_tick(-444223, 8));
    // Above the maximum no start is valid.
    assert!(!Tick::check_is_valid_start_tick(443696, 8));
}

#[test]
fn out_of_bounds_check_matches_global_range() {
    assert!(!Tick::check_is_out_of_bounds(MAX_TICK_INDEX));
    assert!(!Tick::check_is_out_of_bounds(MIN_TICK_INDEX));
    assert!(!Tick::check_is_out_of_bounds(0));
    assert!(Tick::check_is_out_of_bounds(MAX_TICK_INDEX + 1));
    assert!(Tick::check_is_out_of_bounds(MIN_TICK_INDEX - 1));
}

#[test]
fn usable_tick_requires_bounds_and_alignment() {
    assert!(Tick::check_is_usable_tick(16, 8));
    assert!(Tick::check_is_usable_tick(-16, 8));
    assert!(!Tick::check_is_usable_tick(12, 8));
    assert!(!Tick::check_is_usable_tick(443640, 8));
}

#[test]
fn bound_tick_index_clamps_to_global_range() {
    assert_eq!(Tick::bound_tick_index(5), 5);
    assert_eq!(Tick::bound_tick_index(MAX_TICK_INDEX + 10), MAX_TICK_INDEX);
    assert_eq!(Tick::bound_tick_index(MIN_TICK_INDEX - 10), MIN_TICK_INDEX);
}

#[test]
fn tick_update_replaces_all_fields_atomically() {
    let mut tick = Tick::default();
    let update = TickUpdate {
        initialized: true,
        liquidity_net: -77,
        liquidity_gross: 900,
        fee_growth_outside_a: 11,
        fee_growth_outside_b: 22,
        reward_growths_outside: [1, 2, 3],
    };
    tick.update(&update);
    assert!(tick.initialized);
    assert_eq!(tick.liquidity_net, -77);
    assert_eq!(tick.liquidity_gross, 900);
    assert_eq!(tick.fee_growth_outside_a, 11);
    assert_eq!(tick.fee_growth_outside_b, 22);
    assert_eq!(tick.reward_growths_outside, [1, 2, 3]);

    let staged = TickUpdate::from(&tick);
    assert_eq!(staged, update);
}

#[test]
fn initialize_validates_start_tick() {
    let mut array = TickArray::default();
    assert_eq!(array.initialize(key(7), 8, 1408), Ok(()));
    assert_eq!(array.start_tick_index, 1408);
    assert_eq!(array.whirlpool, key(7));

    let mut rejected = TickArray::default();
    rejected.start_tick_index = 99;
    assert_eq!(rejected.initialize(key(7), 8, 5), Err(ErrorCode::InvalidStartTick));
    // A rejected initialization leaves the partition untouched.
    assert_eq!(rejected.start_tick_index, 99);
}

#[test]
fn get_tick_finds_usable_ticks_only() {
    let mut array = array_with_start(0);
    array.ticks[3].initialized = true;
    array.ticks[3].liquidity_net = 42;

    let found = array.get_tick(24, 8).unwrap();
    assert!(found.initialized);
    assert_eq!(found.liquidity_net, 42);

    // Not a multiple of the spacing.
    assert_eq!(array.get_tick(25, 8), Err(ErrorCode::TickNotFound));
    // Outside the partition.
    assert_eq!(array.get_tick(704, 8), Err(ErrorCode::TickNotFound));
    assert_eq!(array.get_tick(-8, 8), Err(ErrorCode::TickNotFound));
    // Zero spacing addresses nothing.
    assert_eq!(array.get_tick(0, 0), Err(ErrorCode::TickNotFound));
}

#[test]
fn search_is_inclusive_leftward_and_exclusive_rightward() {
    let mut array = array_with_start(0);
    array.ticks[10].initialized = true;
    array.ticks[40].initialized = true;

    // Searching leftward from the tick at offset 40 finds that tick itself.
    assert_eq!(array.get_next_init_tick_index(320, 8, true), Ok(Some(320)));
    // Searching rightward from the same tick skips it and finds nothing.
    assert_eq!(array.get_next_init_tick_index(320, 8, false), Ok(None));
}

#[test]
fn search_scans_toward_the_trade_direction() {
    let mut array = array_with_start(0);
    array.ticks[10].initialized = true;
    array.ticks[40].initialized = true;

    // Leftward from offset 39 the next initialized tick is offset 10.
    assert_eq!(array.get_next_init_tick_index(312, 8, true), Ok(Some(80)));
    // Rightward from offset 10 the next initialized tick is offset 40.
    assert_eq!(array.get_next_init_tick_index(80, 8, false), Ok(Some(320)));
    // Leftward from offset 9 there is nothing left.
    assert_eq!(array.get_next_init_tick_index(72, 8, true), Ok(None));
}

#[test]
fn search_rejects_out_of_range_queries() {
    let array = array_with_start(0);
    assert_eq!(
        array.get_next_init_tick_index(704, 8, true),
        Err(ErrorCode::InvalidTickArraySequence)
    );
    assert_eq!(
        array.get_next_init_tick_index(-9, 8, false),
        Err(ErrorCode::InvalidTickArraySequence)
    );
    // The rightward range is shifted one spacing to the left.
    assert_eq!(array.get_next_init_tick_index(-8, 8, false), Ok(None));
    assert_eq!(
        array.get_next_init_tick_index(-8, 8, true),
        Err(ErrorCode::InvalidTickArraySequence)
    );
}

#[test]
fn search_range_shift_matches_direction() {
    let array = array_with_start(0);
    assert!(array.in_search_range(0, 8, false));
    assert!(array.in_search_range(703, 8, false));
    assert!(!array.in_search_range(704, 8, false));
    assert!(!array.in_search_range(-1, 8, false));
    assert!(array.in_search_range(-8, 8, true));
    assert!(array.in_search_range(695, 8, true));
    assert!(!array.in_search_range(696, 8, true));
    assert!(array.check_in_array_bounds(100, 8));
}

#[test]
fn min_and_max_partition_detection() {
    let left_edge = array_with_start(-444224);
    assert!(left_edge.is_min_tick_array());
    assert!(!left_edge.is_max_tick_array(8));

    let right_edge = array_with_start(443520);
    assert!(!right_edge.is_min_tick_array());
    assert!(right_edge.is_max_tick_array(8));

    let middle = array_with_start(0);
    assert!(!middle.is_min_tick_array());
    assert!(!middle.is_max_tick_array(8));
}
