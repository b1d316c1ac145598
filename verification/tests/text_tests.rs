use ping_graph::bucket::PingBucket;
use ping_graph::fraction::Fraction;
use ping_graph::record::{
    format_error_line, format_raw_row, format_reply_line, format_summary_row, format_total_stats,
    push_mean, push_rate,
};
use ping_graph::text::{
    decimal_text, digit_text, drop_low_digits, push_decimal, push_fixed_point, push_low_digits,
};

#[test]
fn digits_as_text() {
    let all: Vec<&str> = (0u8..10).map(digit_text).collect();
    assert_eq!(all, vec!["0", "1", "2", "3", "4", "5", "6", "7", "8", "9"]);
}

#[test]
fn decimal_numerals() {
    assert_eq!(decimal_text(0), "0");
    assert_eq!(decimal_text(7), "7");
    assert_eq!(decimal_text(10), "10");
    assert_eq!(decimal_text(4294967295), "4294967295");
    assert_eq!(decimal_text(1002003), "1002003");
    assert_eq!(decimal_text(u128::MAX), "340282366920938463463374607431768211455");
}

#[test]
fn decimal_is_appended() {
    let mut out = String::from("n=");
    push_decimal(&mut out, 120);
    assert_eq!(out, "n=120");
}

#[test]
fn low_digits_are_padded() {
    let mut out = String::new();
    push_low_digits(&mut out, 5, 3);
    assert_eq!(out, "005");
    let mut cut = String::new();
    push_low_digits(&mut cut, 98765, 2);
    assert_eq!(cut, "65");
    let mut none = String::from("x");
    push_low_digits(&mut none, 98765, 0);
    assert_eq!(none, "x");
    assert_eq!(drop_low_digits(98765, 2), 987);
    assert_eq!(drop_low_digits(98765, 0), 98765);
    assert_eq!(drop_low_digits(98765, 9), 0);
}

#[test]
fn fixed_point_numerals() {
    let cases: [(u128, u8, &str); 7] = [
        (0, 2, "0.00"),
        (5, 2, "0.05"),
        (5000, 2, "50.00"),
        (3333, 2, "33.33"),
        (10000, 2, "100.00"),
        (30, 1, "3.0"),
        (42, 0, "42"),
    ];
    for (value, places, expected) in cases {
        let mut out = String::new();
        push_fixed_point(&mut out, value, places);
        assert_eq!(out, expected);
    }
}

#[test]
fn rates_and_means_as_text() {
    let mut third = String::new();
    push_rate(&mut third, &Fraction::new(100, 3));
    assert_eq!(third, "33.33");
    let mut two_thirds = String::new();
    push_rate(&mut two_thirds, &Fraction::new(200, 3));
    assert_eq!(two_thirds, "66.67");
    let mut eighth = String::new();
    push_rate(&mut eighth, &Fraction::new(1, 800));
    assert_eq!(eighth, "0.00");
    let mut half_up = String::new();
    push_rate(&mut half_up, &Fraction::new(1, 8));
    assert_eq!(half_up, "0.13");
    let mut mean = String::new();
    push_mean(&mut mean, &Fraction::new(12, 4));
    assert_eq!(mean, "3.0");
    let mut quarter = String::new();
    push_mean(&mut quarter, &Fraction::new(5, 4));
    assert_eq!(quarter, "1.3");
    let mut empty = String::new();
    push_mean(&mut empty, &Fraction::zero());
    assert_eq!(empty, "0.0");
}

#[test]
fn console_lines() {
    assert_eq!(
        format_reply_line(1, "127.0.0.1", 12),
        "1. Reply from '127.0.0.1' after 12ms"
    );
    assert_eq!(
        format_reply_line(4000000000, "::1", 0),
        "4000000000. Reply from '::1' after 0ms"
    );
    assert_eq!(format_error_line(3, "Request timed out"), "3. Error: Request timed out");
}

#[test]
fn raw_rows() {
    assert_eq!(
        format_raw_row("2021-03-04T05:06:07.089+0100", "127.0.0.1", 17, false),
        "2021-03-04T05:06:07.089+0100, 127.0.0.1, 17, false\n"
    );
    assert_eq!(
        format_raw_row("2021-03-04T05:06:08.089+0100", "10.0.0.7", 0, true),
        "2021-03-04T05:06:08.089+0100, 10.0.0.7, 0, true\n"
    );
}

#[test]
fn summary_rows() {
    let mut window = PingBucket::new();
    window.feed_latency(10);
    window.feed_lost_ping();
    window.feed_latency(15);
    assert_eq!(
        format_summary_row("2021-03-04T05:16:07.089+0100", "127.0.0.1", &window),
        "2021-03-04T05:16:07.089+0100, 127.0.0.1, 3, 1, 33.33, 10, 15, 12.5\n"
    );
    let idle = PingBucket::new();
    assert_eq!(
        format_summary_row("t", "h", &idle),
        "t, h, 0, 0, 0.00, 4294967295, 0, 0.0\n"
    );
}

#[test]
fn closing_statistics() {
    let mut lifetime = PingBucket::new();
    lifetime.feed_latency(4);
    lifetime.feed_latency(9);
    lifetime.feed_lost_ping();
    lifetime.feed_lost_ping();
    assert_eq!(
        format_total_stats("192.168.0.1", &lifetime),
        "\nPing statistics for 192.168.0.1\n    Packets: Sent = 4, Received = 2, Lost = 2 (50.00% loss),\nApproximate round trip times in milli-seconds:\n    Minimum = 4ms, Maximum = 9ms, Average = 6.5ms\n"
    );
}
