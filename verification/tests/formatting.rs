use jdonmysnore::breakdown::Breakdown;
use jdonmysnore::decimal::u64_to_decimal;
use jdonmysnore::phrase::{format_elapsed, format_total_seconds, pluralize};

#[test]
fn bare_seconds_phrase() {
    assert_eq!(format_total_seconds(45), "45 seconds");
}

#[test]
fn one_higher_unit_phrase() {
    assert_eq!(format_total_seconds(90), "1 minute and 30 seconds");
}

#[test]
fn oxford_comma_phrase() {
    assert_eq!(format_total_seconds(90061), "1 day, 1 hour, 1 minute, and 1 second");
}

#[test]
fn day_boundary_phrase() {
    assert_eq!(format_total_seconds(86400), "1 day and 0 seconds");
}

#[test]
fn zero_seconds_phrase() {
    assert_eq!(format_total_seconds(0), "0 seconds");
}

#[test]
fn two_higher_units_phrase() {
    assert_eq!(format_total_seconds(2 * 3600 + 5 * 60), "2 hours, 5 minutes, and 0 seconds");
}

#[test]
fn minutes_skipped_when_zero() {
    assert_eq!(format_total_seconds(3 * 86400 + 7), "3 days and 7 seconds");
}

#[test]
fn format_elapsed_subtracts_epoch() {
    assert_eq!(format_elapsed(100, 145), "45 seconds");
}

#[test]
fn format_elapsed_clamps_negative_elapsed() {
    assert_eq!(format_elapsed(1000, 0), "0 seconds");
}

#[test]
fn format_elapsed_is_idempotent() {
    let first = format_elapsed(0, 987_654);
    let second = format_elapsed(0, 987_654);
    assert_eq!(first, second);
}

#[test]
fn pluralize_one_has_no_suffix() {
    assert_eq!(pluralize(1, "day"), "1 day");
}

#[test]
fn pluralize_zero_has_suffix() {
    assert_eq!(pluralize(0, "second"), "0 seconds");
}

#[test]
fn pluralize_many_has_suffix() {
    assert_eq!(pluralize(23, "hour"), "23 hours");
}

#[test]
fn decompose_recombines_to_total() {
    let totals: [u64; 6] = [0, 45, 90, 86400, 90061, 123_456_789];
    for &t in totals.iter() {
        let b = Breakdown::decompose(t);
        assert_eq!(b.days * 86400 + b.hours * 3600 + b.minutes * 60 + b.seconds, t);
        assert!(b.hours < 24 && b.minutes < 60 && b.seconds < 60);
    }
}

#[test]
fn decompose_day_boundary() {
    let b = Breakdown::decompose(86400);
    assert_eq!((b.days, b.hours, b.minutes, b.seconds), (1, 0, 0, 0));
}

#[test]
fn decimal_of_zero() {
    assert_eq!(u64_to_decimal(0), "0");
}

#[test]
fn decimal_of_round_number() {
    assert_eq!(u64_to_decimal(1_000_000), "1000000");
}

#[test]
fn decimal_of_largest_value() {
    assert_eq!(u64_to_decimal(u64::MAX), "18446744073709551615");
}
