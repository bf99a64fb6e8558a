use countdown::entry::{
    apply_adjustment, arrow_adjustment, change_countdown, digit_key_minutes, parse_field,
    read_setting, wheel_adjustment, Adjustment, Setting, EXPANDED_WINDOW_HEIGHT,
    MIDDLE_OF_WINDOW, WINDOW_HEIGHT, WINDOW_WIDTH,
};

#[test]
fn a_field_reads_like_a_32_bit_integer() {
    let texts = [
        "", "0", "5", "05", "005", "59", "60", "99", "100", "+5", "-5", "+", "-", "+-5", "--5",
        "5-", "5 ", " 5", "5.0", "1e3", "0x10", "१२", "５", "1_000", "2147483647", "2147483648",
        "-2147483648", "-2147483649", "+2147483647", "00000000000000000000012",
        "99999999999999999999", "-0", "+0", "٣", "12a", "a12", "1 2", "\u{2212}5", "é",
    ];
    for text in texts {
        assert_eq!(parse_field(text), text.parse::<i32>().ok(), "text {:?}", text);
    }
}

#[test]
fn a_field_has_exact_values() {
    assert_eq!(parse_field("42"), Some(42));
    assert_eq!(parse_field("-42"), Some(-42));
    assert_eq!(parse_field("+42"), Some(42));
    assert_eq!(parse_field("2147483647"), Some(i32::MAX));
    assert_eq!(parse_field("-2147483648"), Some(i32::MIN));
    assert_eq!(parse_field("2147483648"), None);
    assert_eq!(parse_field("forty"), None);
    assert_eq!(parse_field(""), None);
}

#[test]
fn a_setting_needs_both_fields_in_range() {
    assert_eq!(read_setting("0", "5"), Some(Setting { minutes: 0, seconds: 5 }));
    assert_eq!(read_setting("99", "59"), Some(Setting { minutes: 99, seconds: 59 }));
    assert_eq!(read_setting("0", "0"), Some(Setting { minutes: 0, seconds: 0 }));
    assert_eq!(read_setting("+7", "08"), Some(Setting { minutes: 7, seconds: 8 }));
    assert_eq!(read_setting("100", "0"), None);
    assert_eq!(read_setting("0", "60"), None);
    assert_eq!(read_setting("-1", "0"), None);
    assert_eq!(read_setting("0", "-1"), None);
    assert_eq!(read_setting("", "0"), None);
    assert_eq!(read_setting("0", ""), None);
    assert_eq!(read_setting("one", "2"), None);
    assert_eq!(read_setting("1", "two"), None);
    assert_eq!(read_setting("99999999999", "0"), None);
}

#[test]
fn a_setting_is_a_duration_in_milliseconds() {
    assert_eq!(Setting { minutes: 0, seconds: 5 }.duration_millis(), 5_000);
    assert_eq!(Setting { minutes: 1, seconds: 5 }.duration_millis(), 65_000);
    assert_eq!(Setting { minutes: 99, seconds: 59 }.duration_millis(), 5_999_000);
    assert_eq!(Setting { minutes: 0, seconds: 0 }.duration_millis(), 0);
    assert_eq!(
        Setting { minutes: u32::MAX, seconds: u32::MAX }.duration_millis(),
        (u32::MAX as u64 * 60 + u32::MAX as u64) * 1000
    );
}

#[test]
fn changes_stay_in_the_range_of_the_field() {
    let setting = |minutes, seconds| Some(Setting { minutes, seconds });
    assert_eq!(change_countdown("0", "5", 1, 0), setting(1, 5));
    assert_eq!(change_countdown("0", "5", -1, 0), setting(0, 5));
    assert_eq!(change_countdown("99", "5", 1, 0), setting(99, 5));
    assert_eq!(change_countdown("98", "5", 5, 0), setting(99, 5));
    assert_eq!(change_countdown("3", "5", -5, 0), setting(0, 5));
    assert_eq!(change_countdown("0", "59", 0, 1), setting(0, 59));
    assert_eq!(change_countdown("0", "58", 0, 1), setting(0, 59));
    assert_eq!(change_countdown("0", "0", 0, -1), setting(0, 0));
    assert_eq!(change_countdown("0", "57", 0, 5), setting(0, 59));
    assert_eq!(change_countdown("500", "70", 0, 0), setting(99, 59));
    assert_eq!(change_countdown("-3", "-4", 0, 0), setting(0, 0));
    assert_eq!(change_countdown("2147483647", "2147483647", 1, 1), setting(99, 59));
    assert_eq!(
        change_countdown("-2147483648", "-2147483648", i32::MIN, i32::MIN),
        setting(0, 0)
    );
    assert_eq!(change_countdown("", "5", 1, 0), None);
    assert_eq!(change_countdown("5", "x", 1, 0), None);
}

#[test]
fn an_adjustment_changes_one_field() {
    let setting = |minutes, seconds| Some(Setting { minutes, seconds });
    assert_eq!(apply_adjustment("10", "20", Adjustment::Minutes(5)), setting(15, 20));
    assert_eq!(apply_adjustment("10", "20", Adjustment::Seconds(-5)), setting(10, 15));
    assert_eq!(apply_adjustment("10", "99", Adjustment::Minutes(1)), setting(11, 59));
    assert_eq!(apply_adjustment("ten", "20", Adjustment::Seconds(1)), None);
}

#[test]
fn the_wheel_turns_minutes_on_the_left_and_seconds_on_the_right() {
    assert_eq!(wheel_adjustment(true, 0), Adjustment::Minutes(-1));
    assert_eq!(wheel_adjustment(false, 0), Adjustment::Minutes(1));
    assert_eq!(wheel_adjustment(true, 149), Adjustment::Minutes(-1));
    assert_eq!(wheel_adjustment(true, 150), Adjustment::Seconds(-1));
    assert_eq!(wheel_adjustment(false, 150), Adjustment::Seconds(1));
    assert_eq!(wheel_adjustment(false, 299), Adjustment::Seconds(1));
    assert_eq!(wheel_adjustment(false, -20), Adjustment::Minutes(1));
}

#[test]
fn the_arrows_step_by_one_or_by_five() {
    assert_eq!(arrow_adjustment(false, false, true), Adjustment::Minutes(1));
    assert_eq!(arrow_adjustment(false, false, false), Adjustment::Minutes(-1));
    assert_eq!(arrow_adjustment(true, false, true), Adjustment::Minutes(5));
    assert_eq!(arrow_adjustment(true, false, false), Adjustment::Minutes(-5));
    assert_eq!(arrow_adjustment(false, true, true), Adjustment::Seconds(1));
    assert_eq!(arrow_adjustment(false, true, false), Adjustment::Seconds(-1));
    assert_eq!(arrow_adjustment(true, true, true), Adjustment::Seconds(5));
    assert_eq!(arrow_adjustment(true, true, false), Adjustment::Seconds(-5));
}

#[test]
fn digit_keys_set_the_minutes_of_a_collapsed_window() {
    for digit in 1..=9u32 {
        assert_eq!(digit_key_minutes(digit, WINDOW_HEIGHT), Some(digit));
    }
    assert_eq!(digit_key_minutes(0, WINDOW_HEIGHT), Some(10));
    assert_eq!(digit_key_minutes(10, WINDOW_HEIGHT), None);
    assert_eq!(digit_key_minutes(3, EXPANDED_WINDOW_HEIGHT), None);
    assert_eq!(digit_key_minutes(3, EXPANDED_WINDOW_HEIGHT - 1), None);
    assert_eq!(digit_key_minutes(3, EXPANDED_WINDOW_HEIGHT - 2), Some(3));
}

#[test]
fn the_window_has_its_sizes() {
    assert_eq!(WINDOW_WIDTH, 300);
    assert_eq!(WINDOW_HEIGHT, 140);
    assert_eq!(EXPANDED_WINDOW_HEIGHT, 190);
    assert_eq!(MIDDLE_OF_WINDOW, WINDOW_WIDTH / 2);
}
