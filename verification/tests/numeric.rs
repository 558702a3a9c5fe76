//! Formatting, calendar arithmetic and text parsing on concrete values.

use pi_inky_weather_epd::numfmt::{i64_to_string, two_digit_string, u64_to_string};
use pi_inky_weather_epd::timecalc::{
    civil_timestamp, day_of, hh_mm_string, hour_floor, local_day_end, local_secs,
    parse_utc_timestamp, weekday_abbrev,
};
use pi_inky_weather_epd::geo::{encode_interleaved, interleave, spread};
use pi_inky_weather_epd::netmsg::{find_header_end, format_http_request, parse_ip};

#[test]
fn renders_unsigned_decimals() {
    assert_eq!(u64_to_string(0), "0");
    assert_eq!(u64_to_string(7), "7");
    assert_eq!(u64_to_string(10), "10");
    assert_eq!(u64_to_string(90210), "90210");
    assert_eq!(u64_to_string(u64::MAX), "18446744073709551615");
}

#[test]
fn renders_signed_decimals() {
    assert_eq!(i64_to_string(0), "0");
    assert_eq!(i64_to_string(-1), "-1");
    assert_eq!(i64_to_string(42), "42");
    assert_eq!(i64_to_string(-305), "-305");
    assert_eq!(i64_to_string(i64::MIN), "-9223372036854775808");
}

#[test]
fn pads_two_digit_values() {
    assert_eq!(two_digit_string(0), "00");
    assert_eq!(two_digit_string(7), "07");
    assert_eq!(two_digit_string(59), "59");
}

#[test]
fn truncates_to_the_hour() {
    assert_eq!(hour_floor(1736944200), 1736942400);
    assert_eq!(hour_floor(1736942400), 1736942400);
    assert_eq!(hour_floor(0), 0);
}

#[test]
fn computes_day_numbers() {
    assert_eq!(day_of(1736899200), 20103);
    assert_eq!(day_of(1736944200), 20103);
    assert_eq!(day_of(0), 0);
}

#[test]
fn shifts_to_local_time() {
    assert_eq!(local_secs(1736944200, 39600), 1736983800);
    assert_eq!(local_secs(1736944200, -18000), 1736926200);
    // the clamp acts only within the first day after the epoch
    assert_eq!(local_secs(3600, -7200), 0);
}

#[test]
fn formats_wall_clock_times() {
    assert_eq!(hh_mm_string(1736983800), "23:30");
    assert_eq!(hh_mm_string(1736944200), "12:30");
    assert_eq!(hh_mm_string(0), "00:00");
    assert_eq!(hh_mm_string(6 * 3600 + 5 * 60), "06:05");
}

#[test]
fn names_weekdays() {
    // day 0 (1970-01-01) was a Thursday; 2025-01-15 is day 20103
    assert_eq!(weekday_abbrev(0), "Thu");
    assert_eq!(weekday_abbrev(20103), "Wed");
    assert_eq!(weekday_abbrev(20104), "Thu");
    assert_eq!(weekday_abbrev(20108), "Mon");
}

#[test]
fn computes_civil_timestamps() {
    assert_eq!(civil_timestamp(1970, 1, 1, 0, 0, 0), 0);
    assert_eq!(civil_timestamp(2025, 1, 15, 12, 30, 0), 1736944200);
    assert_eq!(civil_timestamp(1999, 12, 31, 23, 59, 59), 946684799);
    assert_eq!(civil_timestamp(2000, 2, 29, 0, 0, 0), 951782400);
}

#[test]
fn parses_utc_timestamps() {
    assert_eq!(parse_utc_timestamp("2025-01-15T12:30:00Z"), Some(1736944200));
    assert_eq!(parse_utc_timestamp("1970-01-01T00:00:00Z"), Some(0));
    assert_eq!(parse_utc_timestamp("2000-02-29T00:00:00Z"), Some(951782400));
}

#[test]
fn rejects_malformed_timestamps() {
    assert_eq!(parse_utc_timestamp(""), None);
    assert_eq!(parse_utc_timestamp("2025-01-15 12:30:00Z"), None);
    assert_eq!(parse_utc_timestamp("2025-01-15T12:30:00"), None);
    assert_eq!(parse_utc_timestamp("2025-13-15T12:30:00Z"), None);
    assert_eq!(parse_utc_timestamp("2025-02-29T00:00:00Z"), None);
    assert_eq!(parse_utc_timestamp("2025-01-15T24:00:00Z"), None);
    assert_eq!(parse_utc_timestamp("1969-12-31T23:59:59Z"), None);
}

#[test]
fn finds_local_day_end() {
    // noon UTC at +11h is 23:00 local; the local day ends 1h later
    assert_eq!(local_day_end(1736942400, 39600), 1736946000);
    // noon UTC at UTC stays 12h from midnight
    assert_eq!(local_day_end(1736942400, 0), 1736985600);
}

#[test]
fn spreads_bits_to_even_positions() {
    assert_eq!(spread(0), 0);
    assert_eq!(spread(1), 1);
    assert_eq!(spread(0b11), 0b101);
    assert_eq!(spread(0xffffffff), 0x5555555555555555);
}

#[test]
fn interleaves_bit_lanes() {
    assert_eq!(interleave(0, 0), 0);
    assert_eq!(interleave(1, 0), 1);
    assert_eq!(interleave(0, 1), 2);
    assert_eq!(interleave(0xffffffff, 0), 0x5555555555555555);
    assert_eq!(interleave(0, 0xffffffff), 0xaaaaaaaaaaaaaaaa);
}

#[test]
fn encodes_base32_digits() {
    // the top five bits pick the first character
    assert_eq!(encode_interleaved(0, 1), "0");
    assert_eq!(encode_interleaved(31u64 << 59, 1), "z");
    assert_eq!(encode_interleaved(10u64 << 59, 1), "b");
    assert_eq!(encode_interleaved(u64::MAX, 12), "zzzzzzzzzzzz");
}

#[test]
fn finds_header_terminator() {
    assert_eq!(find_header_end(b"HTTP/1.1 200 OK\r\n\r\nbody"), Some(15));
    assert_eq!(find_header_end(b"\r\n\r\n"), Some(0));
    assert_eq!(find_header_end(b"no blank line\r\n"), None);
    assert_eq!(find_header_end(b""), None);
}

#[test]
fn formats_http_requests() {
    assert_eq!(
        format_http_request("192.168.1.5", "/dashboard.raw"),
        "GET /dashboard.raw HTTP/1.1\r\nHost: 192.168.1.5\r\nConnection: close\r\n\r\n"
    );
}

#[test]
fn parses_dotted_quads() {
    assert_eq!(parse_ip("192.168.1.5"), Ok((192, 168, 1, 5)));
    assert_eq!(parse_ip("0.0.0.0"), Ok((0, 0, 0, 0)));
    assert_eq!(parse_ip("255.255.255.255"), Ok((255, 255, 255, 255)));
    assert_eq!(parse_ip("010.002.3.4"), Ok((10, 2, 3, 4)));
}

#[test]
fn rejects_bad_addresses() {
    assert!(parse_ip("").is_err());
    assert!(parse_ip("1.2.3").is_err());
    assert!(parse_ip("1.2.3.4.5").is_err());
    assert!(parse_ip("256.1.1.1").is_err());
    assert!(parse_ip("1..2.3").is_err());
    assert!(parse_ip("a.b.c.d").is_err());
}
