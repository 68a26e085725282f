use termania::chart::Tempo;
use termania::scroll_clock::offset;
use termania::scroll_clock::OFFSET_UNITS_PER_ROW;

const SECOND: u64 = 1_000_000_000;

fn tempo(beats_per_minute: u32) -> Tempo {
    Tempo::new(beats_per_minute * 1000).unwrap()
}

#[test]
fn zero_tempo_is_refused() {
    assert!(Tempo::new(0).is_none());
}

#[test]
fn tempo_keeps_its_value() {
    assert_eq!(Tempo::new(1).unwrap().millibeats_per_minute(), 1);
    assert_eq!(Tempo::new(174_500).unwrap().millibeats_per_minute(), 174_500);
    assert_eq!(Tempo::new(u32::MAX).unwrap().millibeats_per_minute(), u32::MAX);
}

#[test]
fn offset_is_zero_at_the_start() {
    for gap in [0usize, 1, 2, 7, usize::MAX] {
        for millibeats in [1u32, 120_000, u32::MAX] {
            let position = offset(0, Tempo::new(millibeats).unwrap(), gap);
            assert_eq!(position.whole_rows(), 0);
            assert_eq!(position.units_into_row(), 0);
            assert_eq!(position.round(), 0);
        }
    }
}

#[test]
fn offset_is_seconds_times_beats_per_second_times_gap() {
    // 120 beats a minute are 2 beats a second.
    let position = offset(SECOND, tempo(120), 1);
    assert_eq!((position.whole_rows(), position.units_into_row()), (2, 0));
    let position = offset(SECOND / 2, tempo(120), 2);
    assert_eq!((position.whole_rows(), position.units_into_row()), (2, 0));
    let position = offset(3 * SECOND, tempo(90), 4);
    assert_eq!((position.whole_rows(), position.units_into_row()), (18, 0));
    // 60 beats a minute, 0.3 s, gap 1: three tenths of a row.
    let position = offset(300_000_000, tempo(60), 1);
    assert_eq!(position.whole_rows(), 0);
    assert_eq!(position.units_into_row(), 3 * OFFSET_UNITS_PER_ROW / 10);
}

#[test]
fn offset_keeps_the_fraction_exact() {
    // One nanosecond at a thousandth of a beat a minute is one unit.
    let position = offset(1, Tempo::new(1).unwrap(), 1);
    assert_eq!((position.whole_rows(), position.units_into_row()), (0, 1));
    let position = offset(7, Tempo::new(3).unwrap(), 5);
    assert_eq!((position.whole_rows(), position.units_into_row()), (0, 105));
}

#[test]
fn offset_never_goes_back() {
    let mut last = (0u128, 0u64);
    let mut last_row = 0usize;
    for step in 0..2_000u64 {
        let position = offset(step * 7_919_000, tempo(133), 3);
        let now = (position.whole_rows(), position.units_into_row());
        assert!(now >= last);
        assert!(position.round() >= last_row);
        last = now;
        last_row = position.round();
    }
}

#[test]
fn offset_scales_with_the_gap() {
    for elapsed in [0u64, 1, 999_999_999, 12_345_678_901] {
        let one = offset(elapsed, tempo(147), 1);
        let units_one = one.whole_rows() * OFFSET_UNITS_PER_ROW as u128 + one.units_into_row() as u128;
        for gap in [1usize, 2, 3, 10, 1000] {
            let position = offset(elapsed, tempo(147), gap);
            let units = position.whole_rows() * OFFSET_UNITS_PER_ROW as u128
                + position.units_into_row() as u128;
            assert_eq!(units, units_one * gap as u128);
        }
    }
}

#[test]
fn offset_goes_on_past_any_chart() {
    let position = offset(u64::MAX, Tempo::new(u32::MAX).unwrap(), 1);
    let units = u64::MAX as u128 * u32::MAX as u128;
    assert_eq!(position.whole_rows(), units / OFFSET_UNITS_PER_ROW as u128);
    assert_eq!(position.units_into_row() as u128, units % OFFSET_UNITS_PER_ROW as u128);
}

#[test]
fn round_takes_the_nearest_row() {
    // 60 beats a minute, gap 1: a row a second.
    assert_eq!(offset(0, tempo(60), 1).round(), 0);
    assert_eq!(offset(499_999_999, tempo(60), 1).round(), 0);
    assert_eq!(offset(500_000_000, tempo(60), 1).round(), 1);
    assert_eq!(offset(SECOND, tempo(60), 1).round(), 1);
    assert_eq!(offset(1_499_999_999, tempo(60), 1).round(), 1);
    assert_eq!(offset(1_500_000_000, tempo(60), 1).round(), 2);
}

#[test]
fn round_stops_at_the_largest_index() {
    let position = offset(u64::MAX, Tempo::new(u32::MAX).unwrap(), usize::MAX);
    assert_eq!(position.round(), usize::MAX);
}

#[test]
fn a_reading_is_cut_to_what_a_u64_holds() {
    assert_eq!(termania::clock::cut_to_u64(0), 0);
    assert_eq!(termania::clock::cut_to_u64(1_500_000_000), 1_500_000_000);
    assert_eq!(termania::clock::cut_to_u64(u64::MAX as u128), u64::MAX);
    assert_eq!(termania::clock::cut_to_u64(u64::MAX as u128 + 1), u64::MAX);
    assert_eq!(termania::clock::cut_to_u64(u128::MAX), u64::MAX);
}
