use mmap_bench::monitor::{
    counter_growth, elapsed_in_hundredths, volume_in_hundredths, work_in_hundredths, Monitor,
    Record, Sample, INTERVAL_SECONDS,
};
use mmap_bench::units::GB;

fn sample(touches: u64, shootdowns: Option<u64>, io_bytes: Option<u64>) -> Sample {
    Sample { elapsed_secs: 1, elapsed_nanos: 0, touches, batches: 0, shootdowns, io_bytes }
}

#[test]
fn interval_is_one_second() {
    assert_eq!(INTERVAL_SECONDS, 1);
}

#[test]
fn volume_rounds_to_nearest_hundredth() {
    assert_eq!(volume_in_hundredths(0), 0);
    assert_eq!(volume_in_hundredths(GB), 100);
    assert_eq!(volume_in_hundredths(5 * GB / 2), 250);
    assert_eq!(volume_in_hundredths(5368709), 0);
    assert_eq!(volume_in_hundredths(5368710), 1);
    assert_eq!(volume_in_hundredths(u64::MAX), 1717986918400);
}

#[test]
fn volume_halves_round_to_even() {
    assert_eq!(volume_in_hundredths(GB / 8), 12);
    assert_eq!(volume_in_hundredths(3 * GB / 8), 38);
    assert_eq!(volume_in_hundredths(5 * GB / 8), 62);
    assert_eq!(volume_in_hundredths(GB / 8 + 1), 13);
    assert_eq!(volume_in_hundredths(3 * GB / 8 - 1), 37);
}

#[test]
fn work_is_touches_times_page_size() {
    assert_eq!(work_in_hundredths(0), 0);
    assert_eq!(work_in_hundredths(262144), 100);
    assert_eq!(work_in_hundredths(32768), 12);
    assert_eq!(work_in_hundredths(65536), 25);
    assert_eq!(work_in_hundredths(1310), 0);
    assert_eq!(work_in_hundredths(1311), 1);
    assert_eq!(work_in_hundredths(u64::MAX), 7036874417766400);
}

#[test]
fn elapsed_rounds_to_nearest_hundredth() {
    assert_eq!(elapsed_in_hundredths(0, 0), 0);
    assert_eq!(elapsed_in_hundredths(1, 0), 100);
    assert_eq!(elapsed_in_hundredths(3, 456000000), 346);
    assert_eq!(elapsed_in_hundredths(0, 4999999), 0);
    assert_eq!(elapsed_in_hundredths(0, 5000001), 1);
    assert_eq!(elapsed_in_hundredths(59, 995000001), 6000);
    assert_eq!(elapsed_in_hundredths(1, 5000000), 100);
    assert_eq!(elapsed_in_hundredths(1, 15000000), 102);
    assert_eq!(elapsed_in_hundredths(u64::MAX, 999999999), 1844674407370955161600);
}

#[test]
fn growth_is_reading_less_baseline() {
    assert_eq!(counter_growth(Some(1500), 1000), 500);
    assert_eq!(counter_growth(Some(1000), 1000), 0);
    assert_eq!(counter_growth(Some(u64::MAX), 0), u64::MAX);
}

#[test]
fn growth_is_zero_for_missing_or_lower_reading() {
    assert_eq!(counter_growth(None, 1000), 0);
    assert_eq!(counter_growth(None, 0), 0);
    assert_eq!(counter_growth(Some(0), 1000), 0);
    assert_eq!(counter_growth(Some(999), 1000), 0);
}

#[test]
fn prime_takes_first_readings_as_baselines() {
    assert_eq!(Monitor::prime(Some(7), Some(9)), Monitor { last_shootdowns: 7, last_io_bytes: 9 });
    assert_eq!(Monitor::prime(None, Some(9)), Monitor { last_shootdowns: 0, last_io_bytes: 9 });
    assert_eq!(Monitor::prime(Some(7), None), Monitor { last_shootdowns: 7, last_io_bytes: 0 });
}

#[test]
fn tick_reports_the_interval() {
    let mut monitor = Monitor::prime(Some(1000), Some(51200));
    let record = monitor.tick(Sample {
        elapsed_secs: 1,
        elapsed_nanos: 4000000,
        touches: 262144,
        batches: 42,
        shootdowns: Some(1500),
        io_bytes: Some(51200 + 5 * GB / 2),
    });
    assert_eq!(record, Record { elapsed: 100, work: 100, shootdowns: 500, read: 250, batches: 42 });
    assert_eq!(monitor, Monitor { last_shootdowns: 1500, last_io_bytes: 51200 + 5 * GB / 2 });
}

#[test]
fn tick_compares_against_the_previous_interval() {
    let mut monitor = Monitor::prime(Some(10), Some(0));
    assert_eq!(monitor.tick(sample(0, Some(15), Some(GB))).shootdowns, 5);
    let second = monitor.tick(sample(0, Some(35), Some(3 * GB)));
    assert_eq!(second.shootdowns, 20);
    assert_eq!(second.read, 200);
    let third = monitor.tick(sample(0, Some(35), Some(3 * GB)));
    assert_eq!(third.shootdowns, 0);
    assert_eq!(third.read, 0);
}

#[test]
fn missing_reading_reports_zero() {
    let mut monitor = Monitor::prime(Some(1000), Some(4 * GB));
    let record = monitor.tick(sample(5, None, None));
    assert_eq!(record.shootdowns, 0);
    assert_eq!(record.read, 0);
    let again = monitor.tick(sample(5, None, None));
    assert_eq!(again.shootdowns, 0);
    assert_eq!(again.read, 0);
}

#[test]
fn feed_without_marker_reports_zero() {
    let mut monitor = Monitor::prime(Some(1000), Some(4 * GB));
    let record = monitor.tick(sample(5, Some(0), Some(0)));
    assert_eq!(record.shootdowns, 0);
    assert_eq!(record.read, 0);
}

#[test]
fn missing_reading_resets_the_baseline() {
    let mut monitor = Monitor::prime(Some(1000), Some(GB));
    monitor.tick(sample(0, None, None));
    assert_eq!(monitor, Monitor { last_shootdowns: 0, last_io_bytes: 0 });
    let record = monitor.tick(sample(0, Some(1200), Some(2 * GB)));
    assert_eq!(record.shootdowns, 1200);
    assert_eq!(record.read, 200);
}

#[test]
fn one_reading_may_be_missing_alone() {
    let mut monitor = Monitor::prime(Some(1000), Some(GB));
    let record = monitor.tick(sample(0, Some(1001), None));
    assert_eq!(record.shootdowns, 1);
    assert_eq!(record.read, 0);
    assert_eq!(monitor, Monitor { last_shootdowns: 1001, last_io_bytes: 0 });
}
