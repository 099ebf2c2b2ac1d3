use init4_bin_base::calc::SlotCalculator;

fn assert_contains(calculator: &SlotCalculator, slot: usize, timestamp: u64) {
    assert_eq!(calculator.slot_containing(timestamp), Some(slot));
    assert!(calculator.slot_window(slot).contains(&timestamp));
}

#[test]
fn test_basic_slot_calculations() {
    let calculator = SlotCalculator::new(12, 0, 12);
    assert_eq!(calculator.slot_ending_at(0), None);
    assert_eq!(calculator.slot_containing(0), None);
    assert_eq!(calculator.slot_containing(1), None);
    assert_eq!(calculator.slot_containing(11), None);

    assert_eq!(calculator.slot_ending_at(11), None);
    assert_eq!(calculator.slot_ending_at(12), Some(0));
    assert_eq!(calculator.slot_starting_at(12), Some(1));
    assert_eq!(calculator.slot_containing(12), Some(1));
    assert_eq!(calculator.slot_containing(13), Some(1));
    assert_eq!(calculator.slot_starting_at(13), None);
    assert_eq!(calculator.slot_containing(23), Some(1));
    assert_eq!(calculator.slot_ending_at(23), None);

    assert_eq!(calculator.slot_ending_at(24), Some(1));
    assert_eq!(calculator.slot_starting_at(24), Some(2));
    assert_eq!(calculator.slot_containing(24), Some(2));
    assert_eq!(calculator.slot_containing(25), Some(2));
    assert_eq!(calculator.slot_containing(35), Some(2));

    assert_eq!(calculator.slot_containing(36), Some(3));
}

#[test]
fn test_holesky_slot_calculations() {
    let calculator = SlotCalculator::holesky();

    // Just before the start timestamp
    let just_before = calculator.start_timestamp - 1;
    assert_eq!(calculator.slot_containing(just_before), None);

    // Timestamp 17
    assert_eq!(calculator.slot_containing(17), None);

    // block 1 == slot 2 == timestamp 1695902424
    // timestamp 1695902424 == slot 3 is in slot 3
    assert_contains(&calculator, 3, 1695902424);

    // the next second, timestamp 1695902425 == slot 3
    assert_contains(&calculator, 3, 1695902425);

    // block 3557085 == slot 3919127 == timestamp 1742931924
    // timestamp 1742931924 == slot 3919127
    assert_contains(&calculator, 3919128, 1742931924);
    // the next second, timestamp 1742931925 == slot 3919128
    assert_contains(&calculator, 3919128, 1742931925);
}

#[test]
fn test_holesky_slot_timepoint_calculations() {
    let calculator = SlotCalculator::holesky();
    // calculate timepoint in slot
    assert_eq!(calculator.point_within_slot(1695902424), Some(0));
    assert_eq!(calculator.point_within_slot(1695902425), Some(1));
    assert_eq!(calculator.point_within_slot(1695902435), Some(11));
    assert_eq!(calculator.point_within_slot(1695902436), Some(0));
}

#[test]
fn test_holesky_slot_window() {
    let calculator = SlotCalculator::holesky();
    // calculate slot window
    assert_eq!(calculator.slot_window(2), 1695902412..1695902424);
    assert_eq!(calculator.slot_window(3), 1695902424..1695902436);
}

#[test]
fn test_mainnet_slot_calculations() {
    let calculator = SlotCalculator::mainnet();

    // Just before the start timestamp
    let just_before = calculator.start_timestamp - 1;
    assert_eq!(calculator.slot_containing(just_before), None);

    // Timestamp 17
    assert_eq!(calculator.slot_containing(17), None);

    // 1663224179 - Sep-15-2022 06:42:59 AM +UTC
    assert_contains(&calculator, 4700014, 1663224179);
    assert_contains(&calculator, 4700014, 1663224180);

    assert_contains(&calculator, 11003252, 1738863035);
    assert_contains(&calculator, 11003519, 1738866239);
    assert_contains(&calculator, 11003518, 1738866227);
}

#[test]
fn test_mainnet_slot_timepoint_calculations() {
    let calculator = SlotCalculator::mainnet();
    // calculate timepoint in slot
    assert_eq!(calculator.point_within_slot(1663224179), Some(0));
    assert_eq!(calculator.point_within_slot(1663224180), Some(1));
    assert_eq!(calculator.point_within_slot(1663224190), Some(11));
    assert_eq!(calculator.point_within_slot(1663224191), Some(0));
}

#[test]
fn test_ethereum_slot_window() {
    let calculator = SlotCalculator::mainnet();
    // calculate slot window
    assert_eq!(calculator.slot_window(4700013), (1663224167..1663224179));
    assert_eq!(calculator.slot_window(4700014), (1663224179..1663224191));
}

#[test]
fn slot_boundaries() {
    let calculator = SlotCalculator::new(0, 0, 2);

    // Check the boundaries of slots
    assert_contains(&calculator, 1, 0);
    assert_contains(&calculator, 1, 1);
    assert_contains(&calculator, 2, 2);
    assert_contains(&calculator, 2, 3);
    assert_contains(&calculator, 3, 4);
    assert_contains(&calculator, 3, 5);
    assert_contains(&calculator, 4, 6);

    let calculator = SlotCalculator::new(12, 0, 12);

    // Check the boundaries of slots
    assert_eq!(calculator.slot_containing(0), None);
    assert_eq!(calculator.slot_containing(11), None);
    assert_contains(&calculator, 1, 12);
    assert_contains(&calculator, 1, 13);
    assert_contains(&calculator, 1, 23);
    assert_contains(&calculator, 2, 24);
    assert_contains(&calculator, 2, 25);
    assert_contains(&calculator, 2, 35);

    let calculator = SlotCalculator::new(12, 1, 12);

    assert_eq!(calculator.slot_containing(0), None);
    assert_eq!(calculator.slot_containing(11), None);
    assert_eq!(calculator.slot_containing(12), Some(2));
    assert_eq!(calculator.slot_containing(13), Some(2));
    assert_eq!(calculator.slot_containing(23), Some(2));
    assert_eq!(calculator.slot_containing(24), Some(3));
    assert_eq!(calculator.slot_containing(25), Some(3));
    assert_eq!(calculator.slot_containing(35), Some(3));
}
