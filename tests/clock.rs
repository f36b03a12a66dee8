use rapid::time_source::{
    latest_duration, set_elapsed_time, ElapsedTestTimeSource, ElapsedTimeSource,
    MonotonicTimeSource,
};
use rapid::gnss::{used_satellites, GnssInformation, GnssStatus};

#[test]
fn test_clock_reads_latest_sent_duration() {
    let mut clock = ElapsedTestTimeSource::new();
    assert_eq!(clock.elapsed_time(), 0);
    let tx = clock.sender();
    assert!(set_elapsed_time(&tx, 10_120_000_000));
    clock.start();
    assert_eq!(clock.elapsed_time(), 10_120_000_000);
    assert_eq!(clock.elapsed_time(), 10_120_000_000);
}

#[test]
fn monotonic_clock_reads_zero_before_start() {
    let mut clock = MonotonicTimeSource::new();
    assert_eq!(clock.elapsed_time(), 0);
    clock.start();
    let a = clock.elapsed_time();
    let b = clock.elapsed_time();
    assert!(b >= a);
}

#[test]
fn gnss_information_counts_used_satellites() {
    let info = GnssInformation::new(&GnssStatus::Fix3d, used_satellites(&vec![true, false, true]));
    assert_eq!(info.satellites, 2);
    assert_eq!(info.status, GnssStatus::Fix3d);
}

#[test]
fn latest_duration_prefers_what_arrived() {
    assert_eq!(latest_duration(5, Some(9)), 9);
    assert_eq!(latest_duration(5, None), 5);
}
