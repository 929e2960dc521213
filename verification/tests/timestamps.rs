use mqtt_logger::decimal::{decimal_len, push_decimal, push_signed_zero_padded, push_zero_padded};
use mqtt_logger::timestamp::{generate_timestamp, push_blue, push_green, push_reset, Timestamp};

fn padded(n: u32, width: usize) -> Vec<u8> {
    let mut out = Vec::new();
    push_zero_padded(&mut out, n, width);
    out
}

fn signed(v: i32, width: usize) -> Vec<u8> {
    let mut out = Vec::new();
    push_signed_zero_padded(&mut out, v, width);
    out
}

fn stamp(year: i32, month: u32, day: u32, hour: u32, minute: u32, second: u32, ms: u32) -> Timestamp {
    Timestamp { year, month, day, hour, minute, second, millisecond: ms }
}

fn reference_colorized(t: &Timestamp) -> String {
    format!(
        "\x1b[0m[\x1b[32m{:04}-{:02}-{:02} {:02}:{:02}:{:02}.{:03}\x1b[0m] ",
        t.year, t.month, t.day, t.hour, t.minute, t.second, t.millisecond
    )
}

fn reference_plain(t: &Timestamp) -> String {
    format!(
        "[{:04}-{:02}-{:02} {:02}:{:02}:{:02}.{:03}] ",
        t.year, t.month, t.day, t.hour, t.minute, t.second, t.millisecond
    )
}

fn is_fixed_width_stamp(bytes: &[u8]) -> bool {
    let shape = b"[dddd-dd-dd dd:dd:dd.ddd] ";
    bytes.len() == shape.len()
        && bytes
            .iter()
            .zip(shape.iter())
            .all(|(b, s)| if *s == b'd' { b.is_ascii_digit() } else { b == s })
}

fn strip_escapes(bytes: &[u8]) -> Vec<u8> {
    let mut out = Vec::new();
    let mut inside = false;
    for b in bytes {
        if inside {
            if *b == b'm' {
                inside = false;
            }
        } else if *b == 0x1b {
            inside = true;
        } else {
            out.push(*b);
        }
    }
    out
}

#[test]
fn decimal_digits_of_small_and_large_numbers() {
    let mut out = Vec::new();
    push_decimal(&mut out, 0);
    assert_eq!(out, b"0".to_vec());
    let mut out = Vec::new();
    push_decimal(&mut out, 9);
    assert_eq!(out, b"9".to_vec());
    let mut out = Vec::new();
    push_decimal(&mut out, 10);
    assert_eq!(out, b"10".to_vec());
    let mut out = b"x".to_vec();
    push_decimal(&mut out, 4294967295);
    assert_eq!(out, b"x4294967295".to_vec());
}

#[test]
fn decimal_len_counts_digits() {
    assert_eq!(decimal_len(0), 1);
    assert_eq!(decimal_len(9), 1);
    assert_eq!(decimal_len(10), 2);
    assert_eq!(decimal_len(999), 3);
    assert_eq!(decimal_len(1000), 4);
    assert_eq!(decimal_len(u32::MAX), 10);
}

#[test]
fn zero_padding_fills_up_to_the_width() {
    assert_eq!(padded(7, 2), b"07".to_vec());
    assert_eq!(padded(0, 2), b"00".to_vec());
    assert_eq!(padded(41, 3), b"041".to_vec());
    assert_eq!(padded(5, 4), b"0005".to_vec());
    assert_eq!(padded(59, 2), b"59".to_vec());
}

#[test]
fn zero_padding_never_cuts_a_number() {
    assert_eq!(padded(100, 2), b"100".to_vec());
    assert_eq!(padded(1500, 3), b"1500".to_vec());
    assert_eq!(padded(12, 0), b"12".to_vec());
    assert_eq!(padded(0, 0), b"0".to_vec());
}

#[test]
fn zero_padding_appends_to_what_is_there() {
    let mut out = b"ab".to_vec();
    push_zero_padded(&mut out, 3, 2);
    assert_eq!(out, b"ab03".to_vec());
}

#[test]
fn zero_padding_agrees_with_the_standard_formatter() {
    for n in [0u32, 1, 9, 10, 11, 99, 100, 101, 999, 1000, 9999, 10000, 65535, 4294967295] {
        assert_eq!(padded(n, 2), format!("{:02}", n).into_bytes());
        assert_eq!(padded(n, 3), format!("{:03}", n).into_bytes());
        assert_eq!(padded(n, 4), format!("{:04}", n).into_bytes());
    }
}

#[test]
fn signed_padding_puts_the_sign_before_the_zeros() {
    assert_eq!(signed(2024, 4), b"2024".to_vec());
    assert_eq!(signed(33, 4), b"0033".to_vec());
    assert_eq!(signed(0, 4), b"0000".to_vec());
    assert_eq!(signed(-5, 4), b"-005".to_vec());
    assert_eq!(signed(-1234, 4), b"-1234".to_vec());
    assert_eq!(signed(-7, 0), b"-7".to_vec());
    assert_eq!(signed(-7, 1), b"-7".to_vec());
    assert_eq!(signed(i32::MIN, 4), b"-2147483648".to_vec());
    assert_eq!(signed(i32::MAX, 4), b"2147483647".to_vec());
}

#[test]
fn signed_padding_agrees_with_the_standard_formatter() {
    for v in [0i32, 1, -1, 9, -9, 10, -10, 99, -99, 100, -100, 999, -999, 1000, -1000, 9999, 10000, 262142, -262143, i32::MIN, i32::MAX] {
        assert_eq!(signed(v, 4), format!("{:04}", v).into_bytes());
    }
}

#[test]
fn colour_codes_are_the_ansi_sequences() {
    let mut out = Vec::new();
    push_reset(&mut out);
    assert_eq!(out, b"\x1b[0m".to_vec());
    let mut out = Vec::new();
    push_green(&mut out);
    assert_eq!(out, b"\x1b[32m".to_vec());
    let mut out = Vec::new();
    push_blue(&mut out);
    assert_eq!(out, b"\x1b[34m".to_vec());
}

#[test]
fn plain_rendering_has_the_exact_text() {
    let r = stamp(2024, 3, 7, 9, 5, 2, 41).render();
    assert_eq!(r.plain().as_slice(), b"[2024-03-07 09:05:02.041] ");
}

#[test]
fn colorized_rendering_has_the_exact_text() {
    let r = stamp(2024, 3, 7, 9, 5, 2, 41).render();
    assert_eq!(
        r.colorized().as_slice(),
        b"\x1b[0m[\x1b[32m2024-03-07 09:05:02.041\x1b[0m] "
    );
}

#[test]
fn rendering_keeps_its_instant() {
    let t = stamp(1999, 12, 31, 23, 59, 59, 999);
    let r = t.render();
    assert_eq!(r.timestamp(), t);
    assert_eq!(r.plain().as_slice(), b"[1999-12-31 23:59:59.999] ");
}

#[test]
fn renderings_agree_with_the_standard_formatter() {
    let cases = [
        stamp(2024, 1, 1, 0, 0, 0, 0),
        stamp(2026, 10, 28, 21, 18, 7, 123),
        stamp(1, 2, 3, 4, 5, 6, 7),
        stamp(0, 12, 31, 23, 59, 59, 999),
        stamp(9999, 12, 31, 23, 59, 59, 999),
        stamp(10000, 1, 1, 0, 0, 0, 0),
        stamp(-44, 3, 15, 12, 0, 0, 0),
        stamp(2016, 12, 31, 23, 59, 59, 1500),
    ];
    for t in cases.iter() {
        let r = t.render();
        assert_eq!(r.plain().clone(), reference_plain(t).into_bytes());
        assert_eq!(r.colorized().clone(), reference_colorized(t).into_bytes());
    }
}

#[test]
fn rendering_of_a_four_digit_year_has_fixed_width() {
    let t = stamp(2024, 3, 7, 9, 5, 2, 41);
    let r = t.render();
    assert_eq!(r.plain().len(), 26);
    assert!(is_fixed_width_stamp(r.plain()));
    assert_eq!(r.colorized().len(), 26 + 13);
}

#[test]
fn rendering_outside_the_fixed_width_is_written_in_full() {
    let leap = stamp(2016, 12, 31, 23, 59, 59, 1500).render();
    assert_eq!(leap.plain().as_slice(), b"[2016-12-31 23:59:59.1500] ");
    let far = stamp(12345, 1, 1, 0, 0, 0, 0).render();
    assert_eq!(far.plain().as_slice(), b"[12345-01-01 00:00:00.000] ");
    let early = stamp(-5, 1, 1, 0, 0, 0, 0).render();
    assert_eq!(early.plain().as_slice(), b"[-005-01-01 00:00:00.000] ");
    assert!(!is_fixed_width_stamp(leap.plain()));
}

#[test]
fn both_renderings_show_the_same_instant() {
    let cases = [
        stamp(2024, 3, 7, 9, 5, 2, 41),
        stamp(-44, 3, 15, 12, 0, 0, 0),
        stamp(2016, 12, 31, 23, 59, 59, 1500),
    ];
    for t in cases.iter() {
        let r = t.render();
        assert_eq!(strip_escapes(r.colorized()), r.plain().clone());
    }
}

#[test]
fn generated_timestamp_is_a_calendar_instant() {
    let r = generate_timestamp();
    let t = r.timestamp();
    assert!((1..=12).contains(&t.month));
    assert!((1..=31).contains(&t.day));
    assert!(t.hour <= 23);
    assert!(t.minute <= 59);
    assert!(t.second <= 59);
    assert!(t.millisecond <= 1999);
    assert!(t.year >= 2024);
}

#[test]
fn generated_timestamp_renders_in_both_forms() {
    let r = generate_timestamp();
    let t = r.timestamp();
    assert_eq!(r.plain().clone(), reference_plain(&t).into_bytes());
    assert_eq!(r.colorized().clone(), reference_colorized(&t).into_bytes());
    assert!(is_fixed_width_stamp(r.plain()));
    assert_eq!(strip_escapes(r.colorized()), r.plain().clone());
}
