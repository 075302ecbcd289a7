use sysmon::text::create_bar_chart;
use sysmon::text::format_bytes;
use sysmon::text::format_uptime;
use sysmon::text::one_decimal;
use sysmon::text::u64_to_dec;

#[test]
fn bytes_zero() {
    assert_eq!(format_bytes(0), "0 B");
}

#[test]
fn bytes_below_one_kb() {
    assert_eq!(format_bytes(1023), "1023 B");
    assert_eq!(format_bytes(512), "512 B");
}

#[test]
fn bytes_kb_boundary() {
    assert_eq!(format_bytes(1024), "1.0 KB");
}

#[test]
fn bytes_one_and_a_half_kb() {
    assert_eq!(format_bytes(1536), "1.5 KB");
}

#[test]
fn bytes_rounds_to_nearest_tenth() {
    assert_eq!(format_bytes(2047), "2.0 KB");
    assert_eq!(format_bytes(1999999), "1.9 MB");
}

#[test]
fn bytes_mb_boundary() {
    assert_eq!(format_bytes(1048576), "1.0 MB");
}

#[test]
fn bytes_one_gb() {
    assert_eq!(format_bytes(1_073_741_824), "1.0 GB");
}

#[test]
fn bytes_five_and_a_half_gb() {
    assert_eq!(format_bytes(5905580032), "5.5 GB");
}

#[test]
fn bytes_largest_value() {
    assert_eq!(format_bytes(u64::MAX), "17179869184.0 GB");
}

#[test]
fn uptime_under_a_minute_rounds_down() {
    // Seconds round down to whole minutes, so the first minute shows as 0m.
    assert_eq!(format_uptime(0), "0m");
    assert_eq!(format_uptime(59), "0m");
    assert_eq!(format_uptime(60), "1m");
}

#[test]
fn uptime_hour_and_minute() {
    assert_eq!(format_uptime(3661), "1h 1m");
    assert_eq!(format_uptime(3600), "1h 0m");
}

#[test]
fn uptime_day_hour_minute() {
    assert_eq!(format_uptime(90000), "1d 1h 0m");
    assert_eq!(format_uptime(86400), "1d 0h 0m");
}

#[test]
fn uptime_omits_leading_zero_units() {
    assert_eq!(format_uptime(59 * 60), "59m");
    assert_eq!(format_uptime(23 * 3600 + 59 * 60), "23h 59m");
}

#[test]
fn decimal_rendering() {
    assert_eq!(u64_to_dec(0), "0");
    assert_eq!(u64_to_dec(7), "7");
    assert_eq!(u64_to_dec(10), "10");
    assert_eq!(u64_to_dec(90210), "90210");
    assert_eq!(u64_to_dec(u64::MAX), "18446744073709551615");
}

#[test]
fn one_decimal_rendering() {
    assert_eq!(one_decimal(1536, 1024), "1.5");
    assert_eq!(one_decimal(5905580032, 1024 * 1024 * 1024), "5.5");
}

#[test]
fn bar_chart_empty() {
    assert_eq!(
        create_bar_chart(0, 100, 40),
        "\u{1f7e2} [----------------------------------------]"
    );
}

#[test]
fn bar_chart_half_yellow() {
    assert_eq!(create_bar_chart(50, 100, 10), "\u{1f7e1} [|||||-----]");
}

#[test]
fn bar_chart_full_red() {
    assert_eq!(create_bar_chart(100, 100, 4), "\u{1f534} [||||]");
}

#[test]
fn bar_chart_threshold_is_absolute() {
    // The marker color keys on the value itself, not the ratio.
    assert_eq!(create_bar_chart(40, 100, 5), "\u{1f7e2} [||---]");
    assert_eq!(create_bar_chart(79, 100, 0), "\u{1f7e1} []");
    assert_eq!(create_bar_chart(80, 100, 1), "\u{1f534} [-]");
}
