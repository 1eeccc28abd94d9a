use time_tracker::duration_text::{chars_of, format_duration, parse_duration};

#[test]
fn negative_duration_parses_to_negative_seconds() {
    assert_eq!(parse_duration("-2:15:00"), Some(-8100));
}

#[test]
fn duration_parses_hours_minutes_seconds() {
    assert_eq!(parse_duration("1:02:03"), Some(3723));
    assert_eq!(parse_duration("0:00:00"), Some(0));
    assert_eq!(parse_duration("100:00:01"), Some(360_001));
}

#[test]
fn duration_fields_need_not_be_padded_or_below_sixty() {
    assert_eq!(parse_duration("1:2:3"), Some(3723));
    assert_eq!(parse_duration("0:90:75"), Some(5475));
    assert_eq!(parse_duration("+1:+2:+3"), Some(3723));
    assert_eq!(parse_duration("1:-30:00"), Some(1800));
    assert_eq!(parse_duration("-0:00:01"), Some(-1));
}

#[test]
fn fields_after_the_third_are_ignored() {
    assert_eq!(parse_duration("1:02:03:04"), Some(3723));
    assert_eq!(parse_duration("1:02:03:"), Some(3723));
    assert_eq!(parse_duration("1:02:03:x"), Some(3723));
}

#[test]
fn duration_with_too_few_fields_is_refused() {
    assert_eq!(parse_duration(""), None);
    assert_eq!(parse_duration("-"), None);
    assert_eq!(parse_duration("12"), None);
    assert_eq!(parse_duration("12:3"), None);
    assert_eq!(parse_duration("12:"), None);
}

#[test]
fn duration_with_unreadable_field_is_refused() {
    assert_eq!(parse_duration("a:00:00"), None);
    assert_eq!(parse_duration("1:0x:00"), None);
    assert_eq!(parse_duration("1:00: 0"), None);
    assert_eq!(parse_duration("1::00"), None);
    assert_eq!(parse_duration("1:+:00"), None);
    assert_eq!(parse_duration("1.5:00:00"), None);
}

#[test]
fn second_minus_sign_belongs_to_the_hours() {
    assert_eq!(parse_duration("--1:00:00"), Some(3600));
    assert_eq!(parse_duration("-+1:00:00"), Some(-3600));
}

#[test]
fn duration_beyond_64_bits_is_refused() {
    assert_eq!(parse_duration("9223372036854775807:00:00"), None);
    assert_eq!(parse_duration("9223372036854775808:00:00"), None);
    assert_eq!(parse_duration("0:00:9223372036854775807"), Some(i64::MAX));
    assert_eq!(parse_duration("-0:00:9223372036854775807"), Some(-i64::MAX));
    assert_eq!(parse_duration("0:01:9223372036854775807"), None);
    assert_eq!(parse_duration("0:00:-9223372036854775808"), None);
}

#[test]
fn many_leading_zeros_are_read() {
    assert_eq!(parse_duration("0000000000000000000000000001:00:00"), Some(3600));
}

#[test]
fn duration_is_written_with_padded_minutes_and_seconds() {
    assert_eq!(format_duration(0), "0:00:00");
    assert_eq!(format_duration(3723), "1:02:03");
    assert_eq!(format_duration(59), "0:00:59");
    assert_eq!(format_duration(360_000), "100:00:00");
    assert_eq!(format_duration(-8100), "-2:15:00");
    assert_eq!(format_duration(-1), "-0:00:01");
}

#[test]
fn extreme_durations_are_written() {
    assert_eq!(format_duration(i64::MAX as i128), "2562047788015215:30:07");
    assert_eq!(
        format_duration(i128::MIN),
        "-47261439850130342147690917698856696:02:08"
    );
}

#[test]
fn written_duration_reads_back() {
    let samples: [i64; 12] = [
        0,
        1,
        -1,
        59,
        60,
        3599,
        3600,
        -3600,
        86_399,
        -8100,
        i64::MAX,
        -i64::MAX,
    ];
    for seconds in samples {
        let text = format_duration(seconds as i128);
        assert_eq!(parse_duration(&text), Some(seconds), "{}", text);
    }
    for seconds in -4000..4000i64 {
        assert_eq!(parse_duration(&format_duration(seconds as i128)), Some(seconds));
    }
}

#[test]
fn chars_of_gives_the_characters() {
    assert_eq!(chars_of("1:0é"), vec!['1', ':', '0', 'é']);
    assert_eq!(chars_of(""), Vec::<char>::new());
}
