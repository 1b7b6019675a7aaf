use tick_counter::TickCounter;
use tick_counter::TickCounterFrequencyBase;
use tick_counter::TickDuration;

#[test]
fn raw_reads_strictly_increase() {
    for _ in 0..1000 {
        let first: u64 = tick_counter::start();
        let second: u64 = tick_counter::stop();
        assert!(first < second);
    }
}

#[test]
fn tick_counter_helper_measures_elapsed_ticks() {
    let counter = TickCounter::current();
    let elapsed: u64 = counter.elapsed();
    assert!(elapsed > 0);
}

#[test]
fn elapsed_ticks_is_the_unsigned_difference() {
    assert_eq!(tick_counter::elapsed_ticks(10, 25), 15);
    assert_eq!(tick_counter::elapsed_ticks(5, 5), 0);
    assert_eq!(tick_counter::elapsed_ticks(u64::MAX, 0), 1);
    assert_eq!(tick_counter::elapsed_ticks(u64::MAX - 2, 3), 6);
}

#[test]
fn frequency_from_ticks_rounds_to_nearest_hertz() {
    assert_eq!(
        tick_counter::frequency_from_ticks(2_100_000_000, 1_000_000_000),
        2_100_000_000
    );
    assert_eq!(tick_counter::frequency_from_ticks(1, 2_000_000_000), 1);
    assert_eq!(tick_counter::frequency_from_ticks(3, 2_000_000_000), 2);
    assert_eq!(
        tick_counter::frequency_from_ticks(24_000_000, 1_000_000_000),
        24_000_000
    );
}

#[test]
fn frequency_from_ticks_saturates() {
    assert_eq!(tick_counter::frequency_from_ticks(u64::MAX, 1), u64::MAX);
}

#[test]
fn measured_frequency_reports_the_exact_interval() {
    let measure_duration = TickDuration::from_millis(100);
    let (hz, base) = tick_counter::measured_frequency(&measure_duration);
    assert!(hz > 0);
    assert_eq!(base, TickCounterFrequencyBase::Measured(measure_duration));
}

#[test]
fn hardware_frequency_is_the_register_value() {
    let (hz, base) = tick_counter::hardware_frequency(1_000_000_000);
    assert_eq!(hz, 1_000_000_000);
    assert_eq!(base, TickCounterFrequencyBase::Hardware);
}

#[test]
fn precision_of_zero_frequency_is_degenerate_not_an_error() {
    assert_eq!(tick_counter::precision_nanoseconds_truncated(0), None);
}

#[test]
fn precision_of_one_gigahertz_is_one_nanosecond() {
    assert_eq!(
        tick_counter::precision_nanoseconds_truncated(1_000_000_000),
        Some(1)
    );
}

#[test]
fn durations_convert_consistently() {
    assert_eq!(TickDuration::from_secs(1), TickDuration::from_millis(1000));
    assert_eq!(
        TickDuration::from_millis(1),
        TickDuration::from_nanos(1_000_000)
    );
    assert_eq!(TickDuration::from_secs(2).nanos, 2_000_000_000);
}
