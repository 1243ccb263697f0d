// The timing record template, with exact expected text.

use function_timer::format_record;

#[test]
fn record_matches_the_template_exactly() {
    assert_eq!(
        format_record("timed_sync_function", 0),
        "--- Function 'timed_sync_function' executed in 0ms"
    );
}

#[test]
fn record_for_fifty_milliseconds() {
    assert_eq!(format_record("f", 50), "--- Function 'f' executed in 50ms");
}

#[test]
fn record_renders_every_digit_in_decimal() {
    assert_eq!(
        format_record("g", 1023456789),
        "--- Function 'g' executed in 1023456789ms"
    );
}

#[test]
fn record_renders_the_largest_count() {
    assert_eq!(
        format_record("g", 340282366920938463463374607431768211455),
        "--- Function 'g' executed in 340282366920938463463374607431768211455ms"
    );
}
