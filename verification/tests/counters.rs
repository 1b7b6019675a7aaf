use tick_counter::TickCounterFrequencyBase;
use tick_counter::TickDuration;

/// Blocks for `millis` milliseconds of wall-clock time.
fn busy_wait_millis(millis: u64) {
    let begin = std::time::Instant::now();
    let target = std::time::Duration::from_millis(millis);
    while begin.elapsed() < target {}
}

#[test]
fn basic_usage() {
    let start: u64 = tick_counter::start();
    busy_wait_millis(20);
    let elapsed_ticks: u64 = tick_counter::stop() - start;
    assert!(elapsed_ticks > 0);
}

#[test]
fn test_aarch64_tick_counter() {
    let counter_start: u64 = tick_counter::start();
    busy_wait_millis(1);
    let counter_stop: u64 = tick_counter::stop();
    println!(
        "counter_start: {}. counter_end: {}",
        counter_start, counter_stop
    );
    assert!(counter_start < counter_stop);
}

#[test]
fn test_x86_64_counter_frequency() {
    let (counter_frequency, frequency_base) = tick_counter::frequency();
    assert!(counter_frequency > 0);
    let estimated_duration = match frequency_base {
        TickCounterFrequencyBase::Hardware => None,
        TickCounterFrequencyBase::Measured(duration) => Some(duration),
    };
    assert_eq!(estimated_duration, Some(TickDuration::from_millis(1000)));
}

#[test]
fn test_aarch64_counter_frequency() {
    let (counter_frequency, frequency_base) = tick_counter::hardware_frequency(24_000_000);
    assert!(counter_frequency > 0);
    match frequency_base {
        TickCounterFrequencyBase::Hardware => (),
        _ => panic!("Unexpected frequency base!"),
    }
}

#[test]
fn test_counter_accuracy() {
    let counter_frequency: u64 = 24_000_000;
    let counter_accuracy = tick_counter::precision_nanoseconds_truncated(counter_frequency);
    assert_eq!(counter_accuracy, Some(41));
}
