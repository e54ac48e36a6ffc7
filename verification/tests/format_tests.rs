use nviwatch::formatting::format_memory_size;
use nviwatch::formatting::power_percentage;
use nviwatch::formatting::utilization_percentage;
use nviwatch::process::cpu_usage_tenths;
use nviwatch::process::resident_bytes;
use nviwatch::process::total_ticks;

const MB: u64 = 1024 * 1024;
const GB: u64 = 1024 * 1024 * 1024;

#[test]
fn megabytes_below_ten_gigabytes() {
    assert_eq!(format_memory_size(0), "0MB");
    assert_eq!(format_memory_size(MB - 1), "0MB");
    assert_eq!(format_memory_size(500 * MB), "500MB");
    assert_eq!(format_memory_size(10 * GB - 1), "10239MB");
}

#[test]
fn gigabytes_with_two_decimals() {
    assert_eq!(format_memory_size(10 * GB), "10.00GB");
    assert_eq!(format_memory_size(10 * GB + GB / 2), "10.50GB");
    assert_eq!(format_memory_size(10 * GB + 3 * GB / 4), "10.75GB");
    assert_eq!(format_memory_size(24 * GB), "24.00GB");
}

#[test]
fn gigabytes_round_half_up() {
    // 5 MB over 10 GB is less than half a hundredth of a gigabyte.
    assert_eq!(format_memory_size(10 * GB + 5 * MB), "10.00GB");
    // 6 MB over is more than half a hundredth, so it rounds up.
    assert_eq!(format_memory_size(10 * GB + 6 * MB), "10.01GB");
}

#[test]
fn cpu_tenths_is_lifetime_average() {
    // 100 ticks at 100 ticks per second over 10 s of uptime: 10.0 percent.
    assert_eq!(cpu_usage_tenths(100, 100, 10), 100);
    // 50 ticks at 100 ticks per second over 200 s: 0.25 percent, truncated
    // to 0.2.
    assert_eq!(cpu_usage_tenths(50, 100, 200), 2);
}

#[test]
fn cpu_tenths_zero_denominator_is_zero() {
    assert_eq!(cpu_usage_tenths(1000, 0, 10), 0);
    assert_eq!(cpu_usage_tenths(1000, 100, 0), 0);
}

#[test]
fn resident_bytes_uses_page_size() {
    assert_eq!(resident_bytes(0), 0);
    assert_eq!(resident_bytes(10), 40960);
    assert_eq!(resident_bytes(u64::MAX), u64::MAX);
}

#[test]
fn total_ticks_saturates() {
    assert_eq!(total_ticks(3, 4), 7);
    assert_eq!(total_ticks(u64::MAX, 1), u64::MAX);
}

#[test]
fn power_gauge_share() {
    assert_eq!(power_percentage(50, 100), 50);
    assert_eq!(power_percentage(100, 100), 100);
    assert_eq!(power_percentage(200, 100), 100);
    assert_eq!(power_percentage(1, 3), 33);
    assert_eq!(power_percentage(1, 0), 100);
}

#[test]
fn utilization_gauge_share() {
    assert_eq!(utilization_percentage(0), 0);
    assert_eq!(utilization_percentage(42), 42);
    assert_eq!(utilization_percentage(100), 100);
    assert_eq!(utilization_percentage(150), 100);
}
