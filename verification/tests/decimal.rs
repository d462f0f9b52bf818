use handy::decimal::{parse_i32, push_i32};
use handy::text::chars_of;

fn parse(s: &str) -> Option<i32> {
    parse_i32(&chars_of(s))
}

fn written(n: i32) -> String {
    let mut out = String::from("n=");
    push_i32(&mut out, n);
    out
}

#[test]
fn numbers_are_read_as_the_standard_library_reads_them() {
    for s in [
        "", "-", "+", "0", "-0", "+0", "7", "-7", "+7", "007", "--1", "+-1", "1-", "1 ", " 1",
        "1.0", "1e3", "0x10", "１", "٣", "2147483647", "2147483648", "-2147483648", "-2147483649",
        "+2147483648", "00000000000000000000000000000001", "99999999999999999999999999999999",
        "-99999999999999999999999999999999", "abc", "12a", "1_000",
    ] {
        assert_eq!(parse(s), s.parse::<i32>().ok(), "{s:?}");
    }
    assert_eq!(parse("-99999"), Some(-99999));
    assert_eq!(parse("2147483648"), None);
    assert_eq!(parse("-2147483648"), Some(i32::MIN));
}

#[test]
fn numbers_are_written_as_the_standard_library_writes_them() {
    for n in [0, 1, -1, 9, 10, -10, 99, 100, 1234567890, -99999, i32::MAX, i32::MIN] {
        assert_eq!(written(n), format!("n={n}"));
    }
}

#[test]
fn a_written_number_is_read_back() {
    for n in [0, 5, -5, 42, 1920, -1080, i32::MAX, i32::MIN] {
        let mut out = String::new();
        push_i32(&mut out, n);
        assert_eq!(parse(&out), Some(n));
    }
}
