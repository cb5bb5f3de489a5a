use statement_layout::amount::{
    format_amount, format_integer, format_magnitude, format_plain, magnitude,
};

#[test]
fn money_rounds_half_up_at_the_boundary() {
    assert_eq!(format_amount(1_234_567_005), "1,234,567.01");
    assert_eq!(format_amount(1_234_567_004), "1,234,567.00");
}

#[test]
fn zero_is_shown_with_two_decimals() {
    assert_eq!(format_amount(0), "0.00");
}

#[test]
fn negative_money_keeps_its_sign_and_magnitude_drops_it() {
    assert_eq!(format_amount(-42_100), "-42.10");
    assert_eq!(format_magnitude(-42_100), "42.10");
    assert_eq!(format_magnitude(42_100), "42.10");
}

#[test]
fn money_rounds_half_away_from_zero() {
    assert_eq!(format_amount(4), "0.00");
    assert_eq!(format_amount(5), "0.01");
    assert_eq!(format_amount(-4), "0.00");
    assert_eq!(format_amount(-5), "-0.01");
    assert_eq!(format_amount(995), "1.00");
    assert_eq!(format_amount(999_995), "1,000.00");
    assert_eq!(format_amount(-999_995), "-1,000.00");
}

#[test]
fn money_groups_by_thousands() {
    assert_eq!(format_amount(999_000), "999.00");
    assert_eq!(format_amount(1_000_000), "1,000.00");
    assert_eq!(format_amount(1_000_001_000), "1,000,001.00");
    assert_eq!(format_amount(12_345_678_900_120), "12,345,678,900.12");
    assert_eq!(format_amount(100_050), "100.05");
}

#[test]
fn money_of_the_extremes() {
    assert_eq!(
        format_amount(i128::MAX),
        "170,141,183,460,469,231,731,687,303,715,884,105.73"
    );
    assert_eq!(
        format_amount(i128::MIN),
        "-170,141,183,460,469,231,731,687,303,715,884,105.73"
    );
    assert_eq!(
        format_magnitude(i128::MIN),
        "170,141,183,460,469,231,731,687,303,715,884,105.73"
    );
}

#[test]
fn quantities_show_the_decimals_they_need() {
    assert_eq!(format_plain(0), "0");
    assert_eq!(format_plain(3_000), "3");
    assert_eq!(format_plain(12_500), "12.5");
    assert_eq!(format_plain(-1_250), "-1.25");
    assert_eq!(format_plain(1), "0.001");
    assert_eq!(format_plain(10), "0.01");
    assert_eq!(format_plain(100), "0.1");
    assert_eq!(format_plain(1_234_567_891), "1234567.891");
    assert_eq!(format_plain(-7), "-0.007");
    assert_eq!(format_plain(100_010), "100.01");
}

#[test]
fn whole_numbers_are_written_in_decimal() {
    assert_eq!(format_integer(0), "0");
    assert_eq!(format_integer(7), "7");
    assert_eq!(format_integer(-17), "-17");
    assert_eq!(format_integer(1_000_000), "1000000");
    assert_eq!(format_integer(i64::MAX), i64::MAX.to_string());
    assert_eq!(format_integer(i64::MIN), i64::MIN.to_string());
}

#[test]
fn magnitude_is_the_absolute_value() {
    assert_eq!(magnitude(0), 0);
    assert_eq!(magnitude(-5), 5);
    assert_eq!(magnitude(5), 5);
    assert_eq!(magnitude(i128::MIN), 1u128 << 127);
    assert_eq!(magnitude(i128::MAX), (1u128 << 127) - 1);
}
