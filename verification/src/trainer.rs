//! The online trainer: on every tick, one sweep over the samples, with a
//! training step for each sample that the separator gets wrong.

use vstd::prelude::*;
use crate::sample::Sample;
use crate::separator::Separator;

verus! {

/// Whether the separator gives `sample` another class than its own.
pub open spec fn misclassified(separator: Separator, sample: Sample) -> bool {
    separator.label_of(sample.point) != sample.label
}

/// The separator after it has met `sample`: stepped if it got the sample
/// wrong, unchanged if it got it right.
pub open spec fn visit(separator: Separator, sample: Sample, rate: int) -> Separator {
    if misclassified(separator, sample) {
        separator.stepped(sample.point, sample.label, rate)
    } else {
        separator
    }
}

/// The separator after one sweep: every sample visited once, in order, each
/// by the separator as the samples before it have left it.
pub open spec fn swept(separator: Separator, samples: Seq<Sample>, rate: int) -> Separator
    decreases samples.len(),
{
    if samples.len() == 0 {
        separator
    } else {
        visit(swept(separator, samples.drop_last(), rate), samples.last(), rate)
    }
}

/// The number of training steps that one sweep takes: the samples that the
/// separator got wrong when it met them.
pub open spec fn steps_taken(separator: Separator, samples: Seq<Sample>, rate: int) -> nat
    decreases samples.len(),
{
    if samples.len() == 0 {
        0
    } else {
        let before = swept(separator, samples.drop_last(), rate);
        let here: nat = if misclassified(before, samples.last()) {
            1
        } else {
            0
        };
        steps_taken(separator, samples.drop_last(), rate) + here
    }
}

/// The rate of a tick that comes `elapsed_us` microseconds after the one
/// before: a hundred-thousandth per millisecond, which is one count of
/// `1 / RATE_SCALE` per microsecond, held at the end of the range of `i64`.
pub open spec fn rate_of(elapsed_us: u64) -> int {
    if elapsed_us > i64::MAX {
        i64::MAX as int
    } else {
        elapsed_us as int
    }
}

/// The rate of a tick that comes `elapsed_us` microseconds after the one
/// before.
pub fn learning_rate(elapsed_us: u64) -> (rate: i64)
    ensures
        rate == rate_of(elapsed_us),
{
    if elapsed_us > i64::MAX as u64 {
        i64::MAX
    } else {
        elapsed_us as i64
    }
}

/// Whether the separator gives `sample` another class than its own.
pub fn is_misclassified(separator: &Separator, sample: &Sample) -> (wrong: bool)
    ensures
        wrong == misclassified(*separator, *sample),
{
    separator.classify(&sample.point) != sample.label
}

/// One sweep at `rate`. Every sample is visited, in order; there is no early
/// end. Returns the number of training steps taken.
pub fn sweep(separator: &mut Separator, samples: &Vec<Sample>, rate: i64) -> (steps: usize)
    ensures
        *final(separator) == swept(*old(separator), samples@, rate as int),
        steps == steps_taken(*old(separator), samples@, rate as int),
{
    let ghost start = *separator;
    let mut steps: usize = 0;
    let mut i: usize = 0;
    while i < samples.len()
        invariant
            i <= samples.len(),
            steps <= i,
            *separator == swept(start, samples@.take(i as int), rate as int),
            steps == steps_taken(start, samples@.take(i as int), rate as int),
        decreases samples.len() - i,
    {
        proof {
            assert(samples@.take(i + 1).drop_last() == samples@.take(i as int));
        }
        let sample: &Sample = &samples[i];
        if is_misclassified(separator, sample) {
            separator.update(&sample.point, sample.label, rate);
            steps = steps + 1;
        }
        i = i + 1;
    }
    proof {
        assert(samples@.take(samples.len() as int) == samples@);
    }
    steps
}

/// One tick, `elapsed_us` microseconds after the one before: a sweep at the
/// rate that this time gives.
pub fn advance(separator: &mut Separator, samples: &Vec<Sample>, elapsed_us: u64)
    ensures
        *final(separator) == swept(*old(separator), samples@, rate_of(elapsed_us)),
{
    let rate: i64 = learning_rate(elapsed_us);
    let _ = sweep(separator, samples, rate);
}

/// A sample that the separator gets right when the sweep reaches it adds
/// nothing to the sweep: the separator leaves it as it came.
pub proof fn lemma_correct_sample_adds_nothing(
    separator: Separator,
    samples: Seq<Sample>,
    rate: int,
    i: int,
)
    requires
        0 <= i < samples.len(),
        !misclassified(swept(separator, samples.take(i), rate), samples[i]),
    ensures
        swept(separator, samples.take(i + 1), rate) == swept(separator, samples.take(i), rate),
        steps_taken(separator, samples.take(i + 1), rate) == steps_taken(
            separator,
            samples.take(i),
            rate,
        ),
{
    assert(samples.take(i + 1).drop_last() == samples.take(i));
    assert(samples.take(i + 1).last() == samples[i]);
}

/// A sweep over samples that the separator all gets right takes no step and
/// leaves the separator as it was.
pub proof fn lemma_sweep_of_correct_samples(separator: Separator, samples: Seq<Sample>, rate: int)
    requires
        forall|i: int| 0 <= i < samples.len() ==> !misclassified(separator, #[trigger] samples[i]),
    ensures
        swept(separator, samples, rate) == separator,
        steps_taken(separator, samples, rate) == 0,
    decreases samples.len(),
{
    if samples.len() > 0 {
        let front = samples.drop_last();
        assert forall|i: int| 0 <= i < front.len() implies !misclassified(
            separator,
            #[trigger] front[i],
        ) by {
            assert(front[i] == samples[i]);
        }
        lemma_sweep_of_correct_samples(separator, front, rate);
        assert(samples.last() == samples[samples.len() - 1]);
    }
}

/// A sweep that takes no step met only samples that the separator gets
/// right, and left the separator as it was.
pub proof fn lemma_sweep_without_steps(separator: Separator, samples: Seq<Sample>, rate: int)
    requires
        steps_taken(separator, samples, rate) == 0,
    ensures
        swept(separator, samples, rate) == separator,
        forall|i: int| 0 <= i < samples.len() ==> !misclassified(separator, #[trigger] samples[i]),
    decreases samples.len(),
{
    if samples.len() > 0 {
        let front = samples.drop_last();
        lemma_sweep_without_steps(separator, front, rate);
        assert forall|i: int| 0 <= i < samples.len() implies !misclassified(
            separator,
            #[trigger] samples[i],
        ) by {
            if i < front.len() {
                assert(front[i] == samples[i]);
            } else {
                assert(samples[i] == samples.last());
            }
        }
    }
}

/// Once a sweep has taken no step, the separator is a fixed point: a further
/// sweep over the same samples, at the same rate or at any other, takes no
/// step either and leaves it unchanged.
pub proof fn lemma_clean_sweep_is_fixed_point(
    separator: Separator,
    samples: Seq<Sample>,
    rate: int,
    next_rate: int,
)
    requires
        steps_taken(separator, samples, rate) == 0,
    ensures
        swept(swept(separator, samples, rate), samples, next_rate) == swept(
            separator,
            samples,
            rate,
        ),
        steps_taken(swept(separator, samples, rate), samples, next_rate) == 0,
{
    lemma_sweep_without_steps(separator, samples, rate);
    lemma_sweep_of_correct_samples(separator, samples, next_rate);
}

} // verus!
