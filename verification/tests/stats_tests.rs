use image_converter::error::{ConvertError, ErrorKind};
use image_converter::stats::{ConversionOutcome, Ratio, Stats};

fn failure() -> ConversionOutcome {
    ConversionOutcome::Failure(ConvertError::new(ErrorKind::Decode, "x.png", "corrupt"))
}

#[test]
fn empty_batch_has_zero_averages() {
    let result = Stats::new().finish(0);
    assert_eq!(result.files_converted, 0);
    assert_eq!(result.avg_input_bytes.numerator(), 0);
    assert_eq!(result.avg_input_bytes.denominator(), 1);
    assert_eq!(result.avg_output_bytes.numerator(), 0);
    assert_eq!(result.avg_output_bytes.denominator(), 1);
    assert_eq!(result.avg_input_bytes.whole(), 0);
    assert_eq!(result.avg_output_bytes.whole(), 0);
}

#[test]
fn batch_of_failures_has_zero_averages() {
    let mut stats = Stats::new();
    stats.record(1000, &failure());
    stats.record(2000, &failure());
    let result = stats.finish(15);
    assert_eq!(stats.files_attempted(), 2);
    assert_eq!(result.files_converted, 0);
    assert_eq!(result.avg_input_bytes.numerator(), 0);
    assert_eq!(result.avg_output_bytes.numerator(), 0);
    assert_eq!(result.avg_input_bytes.denominator(), 1);
    assert_eq!(result.avg_output_bytes.denominator(), 1);
    let as_float = result.avg_input_bytes.numerator() as f64 / result.avg_input_bytes.denominator() as f64;
    assert_eq!(as_float, 0.0);
}

#[test]
fn averages_are_taken_over_the_converted_files() {
    let mut stats = Stats::new();
    stats.record(1000, &ConversionOutcome::Success(400));
    stats.record(5000, &failure());
    stats.record(2001, &ConversionOutcome::Success(601));
    let result = stats.finish(2500);
    assert_eq!(stats.files_attempted(), 3);
    assert_eq!(result.files_converted, 2);
    assert_eq!(result.avg_input_bytes.numerator(), 3001);
    assert_eq!(result.avg_input_bytes.denominator(), 2);
    assert_eq!(result.avg_output_bytes.numerator(), 1001);
    assert_eq!(result.avg_output_bytes.denominator(), 2);
    assert_eq!(result.avg_input_bytes.whole(), 1500);
    assert_eq!(result.avg_output_bytes.whole(), 500);
    let avg_input = result.avg_input_bytes.numerator() as f64 / result.avg_input_bytes.denominator() as f64;
    assert_eq!(avg_input, 1500.5);
}

#[test]
fn elapsed_time_is_in_thousandths_of_a_second() {
    let result = Stats::new().finish(2500);
    assert_eq!(result.elapsed_seconds.numerator(), 2500);
    assert_eq!(result.elapsed_seconds.denominator(), 1000);
    assert_eq!(result.elapsed_seconds.whole(), 2);
    let seconds = result.elapsed_seconds.numerator() as f64 / result.elapsed_seconds.denominator() as f64;
    assert_eq!(seconds, 2.5);
}

#[test]
fn largest_sizes_do_not_overflow() {
    let mut stats = Stats::new();
    stats.record(u64::MAX, &ConversionOutcome::Success(u64::MAX));
    stats.record(u64::MAX, &ConversionOutcome::Success(u64::MAX));
    stats.record(u64::MAX, &ConversionOutcome::Success(1));
    let result = stats.finish(u128::MAX);
    assert_eq!(result.files_converted, 3);
    assert_eq!(result.avg_input_bytes.numerator(), 3 * (u64::MAX as u128));
    assert_eq!(result.avg_input_bytes.whole(), u64::MAX as u128);
    assert_eq!(result.avg_output_bytes.numerator(), 2 * (u64::MAX as u128) + 1);
    assert_eq!(result.elapsed_seconds.numerator(), u128::MAX);
}

#[test]
fn finish_can_be_asked_again_while_the_batch_runs() {
    let mut stats = Stats::new();
    stats.record(10, &ConversionOutcome::Success(4));
    assert_eq!(stats.finish(1).files_converted, 1);
    stats.record(30, &ConversionOutcome::Success(8));
    let result = stats.finish(2);
    assert_eq!(result.files_converted, 2);
    assert_eq!(result.avg_input_bytes.whole(), 20);
    assert_eq!(result.avg_output_bytes.whole(), 6);
}

#[test]
fn ratio_needs_a_denominator() {
    assert!(Ratio::new(1, 0).is_none());
    let ratio = Ratio::new(7, 2).unwrap();
    assert_eq!(ratio.numerator(), 7);
    assert_eq!(ratio.denominator(), 2);
    assert_eq!(ratio.whole(), 3);
}
