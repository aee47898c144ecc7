//! Making a labelled dataset from a separator and random words.

use vstd::prelude::*;
use crate::entropy::random_word;
use crate::lattice::{coordinate_from_draw, coordinate_of, ONE};
use crate::point::Point;
use crate::sample::{Label, Sample};
use crate::separator::Separator;

verus! {

/// The sample that a pair of random words stands for: the first word gives
/// `x`, the second `y`, and the generator gives the class.
pub open spec fn sample_of(generator: Separator, draw: (u32, u32)) -> Sample {
    let point = Point { x: coordinate_of(draw.0) as i64, y: coordinate_of(draw.1) as i64 };
    Sample { point, label: generator.label_of(point) }
}

/// The dataset that a sequence of pairs stands for: one sample for each
/// pair, in order.
pub open spec fn dataset_of(generator: Separator, draws: Seq<(u32, u32)>) -> Seq<Sample> {
    Seq::new(draws.len(), |i: int| sample_of(generator, draws[i]))
}

/// Whether every sample has the class that the generator gives to its
/// point: positive exactly where the score is above zero.
pub open spec fn labelled_by(generator: Separator, samples: Seq<Sample>) -> bool {
    forall|i: int|
        0 <= i < samples.len() ==> ((#[trigger] samples[i]).label == Label::Positive
            <==> generator.score(samples[i].point) > 0)
}

/// Every dataset made from a generator is labelled by it.
pub proof fn lemma_dataset_labelled_by_generator(generator: Separator, draws: Seq<(u32, u32)>)
    ensures
        labelled_by(generator, dataset_of(generator, draws)),
{
}

/// The sample that the pair `(x, y)` of random words stands for.
pub fn sample_from_draw(generator: &Separator, x: u32, y: u32) -> (sample: Sample)
    ensures
        sample == sample_of(*generator, (x, y)),
        -ONE <= sample.point.x < ONE,
        -ONE <= sample.point.y < ONE,
        sample.label == Label::Positive <==> generator.score(sample.point) > 0,
{
    let point = Point::new(coordinate_from_draw(x), coordinate_from_draw(y));
    let label = generator.classify(&point);
    Sample::new(point, label)
}

/// The dataset that `draws` stands for: one sample for each pair, in order.
pub fn generate_from_draws(generator: &Separator, draws: &Vec<(u32, u32)>) -> (samples: Vec<Sample>)
    ensures
        samples@ == dataset_of(*generator, draws@),
        labelled_by(*generator, samples@),
{
    let mut samples: Vec<Sample> = Vec::new();
    let mut i: usize = 0;
    while i < draws.len()
        invariant
            i <= draws.len(),
            samples@ == dataset_of(*generator, draws@.take(i as int)),
        decreases draws.len() - i,
    {
        let draw: (u32, u32) = draws[i];
        samples.push(sample_from_draw(generator, draw.0, draw.1));
        proof {
            assert(samples@ =~= dataset_of(*generator, draws@.take(i + 1)));
        }
        i = i + 1;
    }
    proof {
        assert(draws@.take(draws.len() as int) == draws@);
    }
    samples
}

/// A dataset of `count` samples drawn at random: for each sample two words
/// from the generator of random words, `x` before `y`.
pub fn generate(generator: &Separator, count: usize) -> (samples: Vec<Sample>)
    ensures
        samples@.len() == count,
        exists|draws: Seq<(u32, u32)>|
            draws.len() == count && samples@ == #[trigger] dataset_of(*generator, draws),
        labelled_by(*generator, samples@),
{
    let mut draws: Vec<(u32, u32)> = Vec::new();
    while draws.len() < count
        invariant
            draws.len() <= count,
        decreases count - draws.len(),
    {
        let x: u32 = random_word();
        let y: u32 = random_word();
        draws.push((x, y));
    }
    generate_from_draws(generator, &draws)
}

} // verus!
