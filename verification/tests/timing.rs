use sitter::format::format_time;
use sitter::time::{Span, Timestamp, NANOS_PER_SEC};

fn secs(n: u64) -> Span {
    Span::from_secs(n)
}

fn millis(n: u128) -> Span {
    Span { nanos: n * 1_000_000 }
}

#[test]
fn span_from_secs_counts_nanoseconds() {
    assert_eq!(NANOS_PER_SEC, 1_000_000_000);
    assert_eq!(secs(0).nanos, 0);
    assert_eq!(secs(1).nanos, 1_000_000_000);
    assert_eq!(secs(1800).nanos, 1_800_000_000_000);
    assert_eq!(secs(u64::MAX).nanos, 18_446_744_073_709_551_615_000_000_000);
}

#[test]
fn span_as_secs_drops_the_rest() {
    assert_eq!(Span { nanos: 0 }.as_secs(), 0);
    assert_eq!(Span { nanos: 999_999_999 }.as_secs(), 0);
    assert_eq!(Span { nanos: 1_000_000_000 }.as_secs(), 1);
    assert_eq!(Span { nanos: 2_500_000_000 }.as_secs(), 2);
    assert_eq!(secs(u64::MAX).as_secs(), u64::MAX as u128);
    assert_eq!(Span { nanos: u128::MAX }.as_secs(), 340_282_366_920_938_463_463_374_607_431);
}

#[test]
fn span_is_zero_only_when_empty() {
    assert!(Span { nanos: 0 }.is_zero());
    assert!(secs(0).is_zero());
    assert!(!Span { nanos: 1 }.is_zero());
    assert!(!secs(1).is_zero());
}

#[test]
fn span_left_after_stops_at_zero() {
    assert_eq!(secs(5).left_after(secs(2)), secs(3));
    assert_eq!(secs(5).left_after(secs(0)), secs(5));
    assert_eq!(secs(5).left_after(secs(5)), secs(0));
    assert_eq!(secs(5).left_after(secs(6)), secs(0));
    assert_eq!(secs(1).left_after(millis(500)), millis(500));
    assert_eq!(Span { nanos: 0 }.left_after(Span { nanos: u128::MAX }), Span { nanos: 0 });
    assert_eq!(Span { nanos: u128::MAX }.left_after(Span { nanos: 1 }).nanos, u128::MAX - 1);
}

#[test]
fn timestamp_since_stops_at_zero() {
    let early = Timestamp { nanos: 1_000 };
    let late = Timestamp { nanos: 4_500 };
    assert_eq!(late.since(early), Span { nanos: 3_500 });
    assert_eq!(early.since(late), Span { nanos: 0 });
    assert_eq!(early.since(early), Span { nanos: 0 });
    assert_eq!(Timestamp { nanos: u128::MAX }.since(Timestamp { nanos: 0 }).nanos, u128::MAX);
}

#[test]
fn clock_reads_a_time_after_the_epoch() {
    let year_2020 = 1_577_836_800u128 * 1_000_000_000;
    let first = Timestamp::now();
    let second = Timestamp::now();
    assert!(first.nanos > year_2020);
    assert!(second.nanos > year_2020);
    assert!(second.since(first).as_secs() < 60);
    assert!(first.since(second).as_secs() < 60);
}

#[test]
fn clock_agrees_with_std() {
    let before = std::time::SystemTime::now()
        .duration_since(std::time::UNIX_EPOCH)
        .unwrap()
        .as_nanos();
    let now = Timestamp::now();
    let after = std::time::SystemTime::now()
        .duration_since(std::time::UNIX_EPOCH)
        .unwrap()
        .as_nanos();
    assert!(before <= now.nanos);
    assert!(now.nanos <= after);
}

#[test]
fn format_time_under_a_minute() {
    assert_eq!(format_time(secs(0)), "0 seconds");
    assert_eq!(format_time(secs(1)), "1 seconds");
    assert_eq!(format_time(secs(9)), "9 seconds");
    assert_eq!(format_time(secs(10)), "10 seconds");
    assert_eq!(format_time(secs(45)), "45 seconds");
    assert_eq!(format_time(secs(59)), "59 seconds");
}

#[test]
fn format_time_drops_parts_of_a_second() {
    assert_eq!(format_time(Span { nanos: 999_999_999 }), "0 seconds");
    assert_eq!(format_time(millis(59_999)), "59 seconds");
    assert_eq!(format_time(millis(60_001)), "1:00 minutes");
    assert_eq!(format_time(millis(500)), "0 seconds");
}

#[test]
fn format_time_from_a_minute_on() {
    assert_eq!(format_time(secs(60)), "1:00 minutes");
    assert_eq!(format_time(secs(61)), "1:01 minutes");
    assert_eq!(format_time(secs(69)), "1:09 minutes");
    assert_eq!(format_time(secs(70)), "1:10 minutes");
    assert_eq!(format_time(secs(125)), "2:05 minutes");
    assert_eq!(format_time(secs(5 * 60)), "5:00 minutes");
    assert_eq!(format_time(secs(30 * 60)), "30:00 minutes");
    assert_eq!(format_time(secs(3599)), "59:59 minutes");
    assert_eq!(format_time(secs(3600)), "60:00 minutes");
    assert_eq!(format_time(secs(100 * 60 + 7)), "100:07 minutes");
}

#[test]
fn format_time_of_the_longest_spans() {
    assert_eq!(format_time(secs(u64::MAX)), "307445734561825860:15 minutes");
    assert_eq!(
        format_time(Span { nanos: u128::MAX }),
        "5671372782015641057722910123:51 minutes"
    );
}

#[test]
fn format_time_agrees_with_std_formatting() {
    for n in (0u64..20_000).chain([86_399, 86_400, 1_000_000, 4_294_967_295]) {
        let expected = if n < 60 {
            format!("{} seconds", n)
        } else {
            format!("{}:{:02} minutes", n / 60, n % 60)
        };
        assert_eq!(format_time(secs(n)), expected);
    }
}

#[test]
fn reading_before_the_epoch_counts_as_the_epoch() {
    assert_eq!(Timestamp::from_reading(None), Timestamp { nanos: 0 });
    assert_eq!(Timestamp::from_reading(Some(0)), Timestamp { nanos: 0 });
    assert_eq!(Timestamp::from_reading(Some(1_234)), Timestamp { nanos: 1_234 });
    assert_eq!(Timestamp::from_reading(Some(u128::MAX)).nanos, u128::MAX);
}
