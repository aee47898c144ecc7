//! The whole state of a training run: the dataset and the separator that is
//! trained on it.

use vstd::prelude::*;
use crate::dataset::{dataset_of, generate, generate_from_draws, labelled_by};
use crate::sample::Sample;
use crate::separator::Separator;

verus! {

/// A dataset, which training reads and never changes, and the separator that
/// the ticks train.
#[derive(Clone, Debug, PartialEq, Eq)]
pub struct Model {
    pub samples: Vec<Sample>,
    pub separator: Separator,
}

/// A model as a value: its samples in order, and its separator.
pub struct ModelView {
    pub samples: Seq<Sample>,
    pub separator: Separator,
}

impl View for Model {
    type V = ModelView;

    open spec fn view(&self) -> ModelView {
        ModelView { samples: self.samples@, separator: self.separator }
    }
}

impl Model {
    /// The model that a run of random words stands for. The first three
    /// words give the separator that labels the dataset and is then dropped,
    /// the pairs give the points, the last three words give the separator
    /// that is to be trained.
    pub open spec fn of_draws(
        generator: (u32, u32, u32),
        points: Seq<(u32, u32)>,
        trainable: (u32, u32, u32),
    ) -> ModelView {
        ModelView {
            samples: dataset_of(
                Separator::of_draws(generator.0, generator.1, generator.2),
                points,
            ),
            separator: Separator::of_draws(trainable.0, trainable.1, trainable.2),
        }
    }

    /// The model that the words stand for. The same words give the same
    /// model.
    pub fn from_draws(
        generator: (u32, u32, u32),
        points: &Vec<(u32, u32)>,
        trainable: (u32, u32, u32),
    ) -> (model: Model)
        ensures
            model@ == Model::of_draws(generator, points@, trainable),
            model@.samples.len() == points@.len(),
    {
        let labeller = Separator::from_draws(generator.0, generator.1, generator.2);
        let samples = generate_from_draws(&labeller, points);
        let separator = Separator::from_draws(trainable.0, trainable.1, trainable.2);
        Model { samples, separator }
    }
}

/// The model is a function of the words alone: two runs that agree word for
/// word give the same dataset and the same separator to train.
pub proof fn lemma_model_determined_by_draws(
    generator: (u32, u32, u32),
    points: Seq<(u32, u32)>,
    trainable: (u32, u32, u32),
    other_generator: (u32, u32, u32),
    other_points: Seq<(u32, u32)>,
    other_trainable: (u32, u32, u32),
)
    requires
        generator == other_generator,
        trainable == other_trainable,
        points.len() == other_points.len(),
        forall|i: int| 0 <= i < points.len() ==> points[i] == other_points[i],
    ensures
        Model::of_draws(generator, points, trainable) == Model::of_draws(
            other_generator,
            other_points,
            other_trainable,
        ),
{
    assert(points =~= other_points);
}

/// A model drawn at random, with `sample_count` samples. The words are drawn
/// in this order: three for the separator that labels the dataset, two for
/// each point, three for the separator that is to be trained.
pub fn build_model(sample_count: usize) -> (model: Model)
    ensures
        model@.samples.len() == sample_count,
        exists|generator: (u32, u32, u32), points: Seq<(u32, u32)>, trainable: (u32, u32, u32)|
            points.len() == sample_count && model@ == #[trigger] Model::of_draws(
                generator,
                points,
                trainable,
            ),
        exists|labeller: Separator| labeller.is_initial() && #[trigger] labelled_by(labeller, model@.samples),
        model@.separator.is_initial(),
{
    let labeller = Separator::initialize();
    let samples = generate(&labeller, sample_count);
    let separator = Separator::initialize();
    let model = Model { samples, separator };
    proof {
        let (gx, gy, gb) = choose|gx: u32, gy: u32, gb: u32|
            labeller == #[trigger] Separator::of_draws(gx, gy, gb);
        let points = choose|points: Seq<(u32, u32)>|
            points.len() == sample_count && samples@ == #[trigger] dataset_of(labeller, points);
        let (tx, ty, tb) = choose|tx: u32, ty: u32, tb: u32|
            separator == #[trigger] Separator::of_draws(tx, ty, tb);
        assert(model@ == Model::of_draws((gx, gy, gb), points, (tx, ty, tb)));
        assert(labelled_by(labeller, model@.samples));
    }
    model
}

} // verus!
