use init4_bin_base::calc::SlotCalculator;

#[test]
fn windows_for_timestamps() {
    let calculator = SlotCalculator::new(12, 0, 12);
    // Before the chain starts there is no window.
    assert_eq!(calculator.slot_window_for_timestamp(11), None);
    assert_eq!(calculator.slot_start_for_timestamp(11), None);
    assert_eq!(calculator.slot_end_for_timestamp(11), None);
    // Every timestamp from the start on lies inside its own slot's window.
    assert_eq!(calculator.slot_window_for_timestamp(13), Some(12..24));
    assert_eq!(calculator.slot_start_for_timestamp(13), Some(12));
    assert_eq!(calculator.slot_end_for_timestamp(13), Some(24));
    assert_eq!(calculator.slot_window_for_timestamp(24), Some(24..36));
}

#[test]
fn adjacent_windows_abut() {
    // No gaps and no overlaps between consecutive slots.
    let calculator = SlotCalculator::new(12, 0, 12);
    for slot in 1..6usize {
        assert_eq!(
            calculator.slot_window(slot).end,
            calculator.slot_window(slot + 1).start
        );
    }
    let mainnet = SlotCalculator::mainnet();
    assert_eq!(
        mainnet.slot_window(4700013).end,
        mainnet.slot_window(4700014).start
    );
}

#[test]
fn points_at_window_edges() {
    // A slot's first instant lies 0 seconds into it; its last instant lies
    // a full slot minus one second into it.
    let calculator = SlotCalculator::holesky();
    for slot in [3usize, 4, 100] {
        let start = calculator.slot_start(slot);
        let end = calculator.slot_end(slot);
        assert_eq!(calculator.point_within_slot(start), Some(0));
        assert_eq!(calculator.point_within_slot(end - 1), Some(11));
    }
}

#[test]
fn checked_points() {
    let calculator = SlotCalculator::new(12, 0, 12);
    // The timestamp lies in slot 1, 1 second in.
    assert_eq!(calculator.checked_point_within_slot(1, 13), Some(1));
    // Wrong slot, or a timestamp before the chain: no point.
    assert_eq!(calculator.checked_point_within_slot(2, 13), None);
    assert_eq!(calculator.checked_point_within_slot(1, 11), None);
}

#[test]
fn slot_header_timestamps() {
    // The timestamp a block's header would carry is the end of its slot.
    let calculator = SlotCalculator::new(12, 0, 12);
    assert_eq!(calculator.slot_timestamp(1), 24);
    assert_eq!(calculator.slot_timestamp(2), 36);
    assert_eq!(calculator.slot_start(1), 12);
    assert_eq!(calculator.slot_end(1), 24);
}

#[test]
fn calculator_accessors() {
    let calculator = SlotCalculator::new(7, 3, 5);
    assert_eq!(calculator.start_timestamp(), 7);
    assert_eq!(calculator.slot_offset(), 3);
    assert_eq!(calculator.slot_duration(), 5);

    let pecorino = SlotCalculator::pecorino_host();
    assert_eq!(pecorino.start_timestamp(), 1754584265);
    assert_eq!(pecorino.slot_offset(), 0);
    assert_eq!(pecorino.slot_duration(), 12);
}
