use perceptron::lattice::{ONE, RATE_SCALE};
use perceptron::point::Point;
use perceptron::sample::{Label, Sample};
use perceptron::separator::Separator;
use perceptron::trainer::{advance, is_misclassified, learning_rate, sweep};

fn sample(x: i64, y: i64, label: Label) -> Sample {
    Sample::new(Point::new(x, y), label)
}

#[test]
fn learning_rate_is_one_count_per_microsecond() {
    assert_eq!(learning_rate(0), 0i64);
    assert_eq!(learning_rate(1), 1i64);
    assert_eq!(learning_rate(16_667), 16_667i64);
    assert_eq!(learning_rate(i64::MAX as u64), i64::MAX);
}

#[test]
fn learning_rate_of_one_millisecond_is_a_hundred_thousandth() {
    let rate = learning_rate(1_000);
    assert_eq!(rate as f64 / RATE_SCALE as f64, 1e-5);
}

#[test]
fn learning_rate_is_held_at_the_top_of_the_range() {
    assert_eq!(learning_rate(i64::MAX as u64 + 1), i64::MAX);
    assert_eq!(learning_rate(u64::MAX), i64::MAX);
}

#[test]
fn is_misclassified_compares_the_classes() {
    let s = Separator::new(Point::new(RATE_SCALE, 0), 0);
    assert!(!is_misclassified(&s, &sample(ONE, 0, Label::Positive)));
    assert!(is_misclassified(&s, &sample(ONE, 0, Label::Negative)));
    assert!(is_misclassified(&s, &sample(-ONE, 0, Label::Positive)));
    assert!(!is_misclassified(&s, &sample(-ONE, 0, Label::Negative)));
    assert!(is_misclassified(&s, &sample(0, 0, Label::Positive)));
    assert!(!is_misclassified(&s, &sample(0, 0, Label::Negative)));
}

#[test]
fn sweep_leaves_a_correct_separator_unchanged() {
    let before = Separator::new(Point::new(RATE_SCALE, 0), 0);
    let mut s = before;
    let samples = vec![sample(ONE, 0, Label::Positive)];
    let steps = sweep(&mut s, &samples, 16_667);
    assert_eq!(steps, 0usize);
    assert_eq!(s, before);
    advance(&mut s, &samples, 16_667);
    assert_eq!(s, before);
}

#[test]
fn sweep_steps_on_a_wrong_sample() {
    let mut s = Separator::new(Point::new(0, 0), 0);
    let samples = vec![sample(ONE, 2 * ONE, Label::Positive)];
    let steps = sweep(&mut s, &samples, RATE_SCALE / 2);
    assert_eq!(steps, 1usize);
    assert_eq!(
        s,
        Separator::new(Point::new(419_430_400_000_000, 838_860_800_000_000), 419_430_400_000_000)
    );
}

#[test]
fn sweep_over_no_samples_changes_nothing() {
    let before = Separator::new(Point::new(1, 2), 3);
    let mut s = before;
    let samples: Vec<Sample> = Vec::new();
    assert_eq!(sweep(&mut s, &samples, 1_000), 0usize);
    assert_eq!(s, before);
}

#[test]
fn sweep_meets_each_sample_with_the_separator_as_left_by_those_before() {
    let forward = vec![sample(ONE, 0, Label::Positive), sample(ONE, 0, Label::Negative)];
    let mut s = Separator::new(Point::new(0, 0), 0);
    assert_eq!(sweep(&mut s, &forward, 1_000), 2usize);
    assert_eq!(s, Separator::new(Point::new(0, 0), 0));

    let backward = vec![sample(ONE, 0, Label::Negative), sample(ONE, 0, Label::Positive)];
    let mut t = Separator::new(Point::new(0, 0), 0);
    assert_eq!(sweep(&mut t, &backward, 1_000), 1usize);
    assert_eq!(t, Separator::new(Point::new(8_388_608_000, 0), 8_388_608_000));
}

#[test]
fn sweep_visits_every_sample() {
    let samples = vec![
        sample(ONE, 0, Label::Positive),
        sample(0, ONE, Label::Positive),
        sample(-ONE, 0, Label::Positive),
        sample(0, -ONE, Label::Positive),
    ];
    let mut s = Separator::new(Point::new(0, 0), -1);
    let steps = sweep(&mut s, &samples, 1);
    assert_eq!(steps, 2usize);
    assert_eq!(s, Separator::new(Point::new(0, 0), 2 * ONE - 1));
    let mut t = Separator::new(Point::new(0, 0), -3 * ONE);
    let steps = sweep(&mut t, &samples, 1);
    assert_eq!(steps, 4usize);
    assert_eq!(t, Separator::new(Point::new(0, 0), ONE));
}

#[test]
fn a_clean_sweep_is_a_fixed_point() {
    let samples = vec![
        sample(ONE, 0, Label::Positive),
        sample(-ONE, 0, Label::Negative),
        sample(0, ONE, Label::Positive),
    ];
    let mut s = Separator::new(Point::new(0, 0), 0);
    assert_eq!(sweep(&mut s, &samples, 1_000), 1usize);
    assert_eq!(s, Separator::new(Point::new(8_388_608_000, 0), 8_388_608_000));
    assert_eq!(sweep(&mut s, &samples, 1_000), 0usize);
    let fixed = s;
    assert_eq!(sweep(&mut s, &samples, 1_000), 0usize);
    assert_eq!(s, fixed);
    assert_eq!(sweep(&mut s, &samples, i64::MAX), 0usize);
    assert_eq!(s, fixed);
    advance(&mut s, &samples, 1_000);
    assert_eq!(s, fixed);
}

#[test]
fn advance_is_a_sweep_at_the_rate_of_the_elapsed_time() {
    let samples = vec![
        sample(ONE / 2, ONE / 4, Label::Negative),
        sample(-ONE / 2, ONE / 8, Label::Positive),
        sample(ONE / 3, -ONE, Label::Positive),
    ];
    let start = Separator::from_draws(0xC000_0000, 0x4000_0000, 0x9000_0000);
    let mut advanced = start;
    advance(&mut advanced, &samples, 16_667);
    let mut swept = start;
    let _ = sweep(&mut swept, &samples, 16_667);
    assert_eq!(advanced, swept);
    assert!(advanced != start);
}

#[test]
fn advance_after_no_time_changes_nothing() {
    let samples = vec![sample(ONE, 0, Label::Negative)];
    let start = Separator::new(Point::new(RATE_SCALE, 0), 0);
    let mut s = start;
    advance(&mut s, &samples, 0);
    assert_eq!(s, start);
}

#[test]
fn advance_steps_by_the_elapsed_microseconds() {
    let samples = vec![sample(ONE, -ONE, Label::Negative)];
    let mut s = Separator::new(Point::new(0, 0), 1);
    advance(&mut s, &samples, 20_000);
    assert_eq!(s, Separator::new(Point::new(-20_000 * ONE, 20_000 * ONE), 1 - 20_000 * ONE));
}

#[test]
fn cancelling_steps_can_leave_no_line() {
    let samples = vec![sample(ONE, 0, Label::Positive), sample(ONE, 0, Label::Negative)];
    let mut s = Separator::new(Point::new(0, 0), 0);
    let _ = sweep(&mut s, &samples, 1_000);
    assert!(s.is_degenerate());
    assert_eq!(s.evaluate(&Point::new(ONE, ONE)), 0i128);
}
