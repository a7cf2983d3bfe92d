use transfer_protocol::progress::format_size;
use transfer_protocol::progress::percent_hundredths;
use transfer_protocol::progress::speed_bytes_per_sec;
use transfer_protocol::progress::throughput_string;
use transfer_protocol::progress::u64_to_decimal;
use transfer_protocol::progress::ProgressTracker;
use transfer_protocol::progress::SAMPLE_INTERVAL_MS;

#[test]
fn percentage_formula() {
    assert_eq!(percent_hundredths(0, 100), 0);
    assert_eq!(percent_hundredths(50, 100), 5000);
    assert_eq!(percent_hundredths(1, 2), 5000);
    assert_eq!(percent_hundredths(1, 3), 3333);
    assert_eq!(percent_hundredths(2, 3), 6666);
}

#[test]
fn complete_transfer_is_one_hundred_percent() {
    // After all of a positive total has been counted, the final sample says
    // one hundred percent exactly.
    for total in [1u64, 3, 1024, u64::MAX] {
        assert_eq!(percent_hundredths(total, total), 10000);
    }
}

#[test]
fn zero_total_is_always_zero_percent() {
    // An empty transfer reports zero percent in every sample; the division
    // by the total is never taken.
    for bytes in [0u64, 1, 1000, u64::MAX] {
        assert_eq!(percent_hundredths(bytes, 0), 0);
    }
}

#[test]
fn percentage_is_capped() {
    assert_eq!(percent_hundredths(7, 3), 10000);
}

#[test]
fn decimal_rendering() {
    assert_eq!(u64_to_decimal(0), b"0".to_vec());
    assert_eq!(u64_to_decimal(7), b"7".to_vec());
    assert_eq!(u64_to_decimal(10), b"10".to_vec());
    assert_eq!(u64_to_decimal(12345), b"12345".to_vec());
    assert_eq!(
        u64_to_decimal(u64::MAX),
        b"18446744073709551615".to_vec()
    );
}

#[test]
fn size_formatting_units() {
    assert_eq!(format_size(0), b"0.00B".to_vec());
    assert_eq!(format_size(512), b"512.00B".to_vec());
    assert_eq!(format_size(1023), b"1023.00B".to_vec());
    assert_eq!(format_size(1024), b"1.00KB".to_vec());
    assert_eq!(format_size(1536), b"1.50KB".to_vec());
    assert_eq!(format_size(1024 * 1024), b"1.00MB".to_vec());
    assert_eq!(format_size(1024 * 1024 * 1024), b"1.00GB".to_vec());
    assert_eq!(format_size(1024u64.pow(4)), b"1.00TB".to_vec());
    // Values past the largest unit stay in TB.
    assert_eq!(format_size(1024u64.pow(4) * 2048), b"2048.00TB".to_vec());
}

#[test]
fn size_formatting_truncates_the_third_decimal() {
    // 1587 bytes is 1.549805..KB: the display keeps two places, truncated.
    assert_eq!(format_size(1587), b"1.54KB".to_vec());
}

#[test]
fn speed_formula() {
    assert_eq!(speed_bytes_per_sec(1000, 1000), 1000);
    assert_eq!(speed_bytes_per_sec(2048, 2000), 1024);
    // Before any time has passed the speed reads zero.
    assert_eq!(speed_bytes_per_sec(12345, 0), 0);
    // The rate saturates instead of overflowing.
    assert_eq!(speed_bytes_per_sec(u64::MAX, 1), u64::MAX);
}

#[test]
fn throughput_line() {
    assert_eq!(throughput_string(2048, 1000), "2.00KB/s");
    assert_eq!(throughput_string(0, 1000), "0.00B/s");
    assert_eq!(throughput_string(3 * 1024 * 1024, 2000), "1.50MB/s");
}

#[test]
fn tracker_counts_only_while_monitoring() {
    let mut t = ProgressTracker::new(100, 0);
    assert!(!t.record_write(10, 0));
    assert_eq!(t.bytes_sent, 0);
    t.start_monitor();
    t.record_write(10, 0);
    assert_eq!(t.bytes_sent, 10);
    t.stop_monitor();
    t.record_write(10, 0);
    assert_eq!(t.bytes_sent, 10);
}

#[test]
fn tracker_samples_once_per_interval() {
    let mut t = ProgressTracker::new(100, 0);
    t.start_monitor();
    assert!(!t.record_write(1, SAMPLE_INTERVAL_MS - 1));
    assert!(t.record_write(1, SAMPLE_INTERVAL_MS));
    // The sampling clock was reset; the next sample is due one interval on.
    assert!(!t.record_write(1, 2 * SAMPLE_INTERVAL_MS - 1));
    assert!(t.record_write(1, 2 * SAMPLE_INTERVAL_MS));
}

#[test]
fn tracker_byte_count_saturates() {
    let mut t = ProgressTracker::new(u64::MAX, 0);
    t.start_monitor();
    t.record_write(u64::MAX, 0);
    t.record_write(1, 0);
    assert_eq!(t.bytes_sent, u64::MAX);
}

#[test]
fn final_sample_of_a_complete_transfer() {
    let mut t = ProgressTracker::new(3, 0);
    t.start_monitor();
    t.record_write(3, 10);
    let sample = t.sample(1000);
    assert_eq!(sample.percent_hundredths, 10000);
    assert_eq!(sample.throughput, "3.00B/s");
}

#[test]
fn every_sample_of_an_empty_transfer_is_zero_percent() {
    let mut t = ProgressTracker::new(0, 0);
    t.start_monitor();
    let first = t.sample(100);
    assert_eq!(first.percent_hundredths, 0);
    t.record_write(5, 600);
    let second = t.sample(1000);
    assert_eq!(second.percent_hundredths, 0);
}

#[test]
fn total_time_is_measured_from_construction() {
    let t = ProgressTracker::new(10, 2000);
    assert_eq!(t.total_time_ms(2500), 500);
    // A clock that appears to run backwards reads as no time passed.
    assert_eq!(t.total_time_ms(1500), 0);
}
