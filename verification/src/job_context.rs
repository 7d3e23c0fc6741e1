//! What every evaluation of a run shares: the target and the strategies.

use std::sync::Arc;
use vstd::prelude::*;

use crate::color_mode::ColorMode;
use crate::fitness::FitnessFunction;
use crate::models::{Image, Pixel};
use crate::mutators::Mutator;
use crate::population::Candidate;

verus! {

/// The target image, the colour mode and the strategies that mutate and
/// score. It is made once for a run, never changed, and cheap to copy: the
/// copies share the image and the strategies.
pub struct JobContext<M: Mutator, F: FitnessFunction> {
    image: Arc<Image>,
    mutator: Arc<M>,
    fitness: Arc<F>,
    color_mode: ColorMode,
}

/// `Arc::clone` of the standard library: another pointer to the same value.
#[verifier::external_body]
fn share<T>(value: &Arc<T>) -> (shared: Arc<T>)
    ensures
        shared == value,
{
    Arc::clone(value)
}

/// Whether the score of every image of as many pixels as `target` fits a
/// machine word.
pub open spec fn scores_fit<F: FitnessFunction>(
    fitness: &F,
    mode: ColorMode,
    target: Seq<Pixel>,
) -> bool {
    forall|candidate: Seq<Pixel>|
        candidate.len() == target.len() ==> #[trigger] fitness.fitness(mode, target, candidate)
            <= usize::MAX
}

impl<M: Mutator, F: FitnessFunction> JobContext<M, F> {
    /// The target image.
    pub closed spec fn target(&self) -> Image {
        *self.image
    }

    /// The strategy that mutates.
    pub closed spec fn mutator(&self) -> M {
        *self.mutator
    }

    /// The strategy that scores.
    pub closed spec fn fitness(&self) -> F {
        *self.fitness
    }

    pub closed spec fn spec_color_mode(&self) -> ColorMode {
        self.color_mode
    }

    /// Whether a run can work with this context: the target is a well-formed
    /// image of a size that the mutator supports, and every score fits a
    /// machine word.
    pub open spec fn well_formed(&self) -> bool {
        &&& self.target().well_formed()
        &&& self.mutator().supports(
            self.target().spec_height() as nat,
            self.target().spec_width() as nat,
        )
        &&& scores_fit(&self.fitness(), self.spec_color_mode(), self.target()@)
    }

    /// The score that the context gives an image.
    pub open spec fn score_of(&self, image: &Image) -> nat {
        self.fitness().fitness(self.spec_color_mode(), self.target()@, image@)
    }

    /// Whether `after` may come out of evaluating `before`: its image is a
    /// mutation of the image of `before` in the context's colour mode, and
    /// its score is that of its image against the target.
    pub open spec fn evaluates(&self, before: &Candidate, after: &Candidate) -> bool {
        &&& after.image.well_formed()
        &&& after.image.same_size(&before.image)
        &&& match self.spec_color_mode() {
            ColorMode::Rgb => self.mutator().mutates_rgb(&before.image, &after.image),
            ColorMode::Grayscale => self.mutator().mutates_grayscale(&before.image, &after.image),
        }
        &&& after.score == self.score_of(&after.image)
    }

    pub fn new(image: Image, mutator: M, fitness: F, color_mode: ColorMode) -> (context: Self)
        ensures
            context.target() == image,
            context.mutator() == mutator,
            context.fitness() == fitness,
            context.spec_color_mode() == color_mode,
    {
        Self {
            image: Arc::new(image),
            mutator: Arc::new(mutator),
            fitness: Arc::new(fitness),
            color_mode,
        }
    }

    pub fn get_image(&self) -> (image: &Arc<Image>)
        ensures
            **image == self.target(),
    {
        &self.image
    }

    pub fn get_mutator(&self) -> (mutator: &Arc<M>)
        ensures
            **mutator == self.mutator(),
    {
        &self.mutator
    }

    pub fn get_fitness(&self) -> (fitness: &Arc<F>)
        ensures
            **fitness == self.fitness(),
    {
        &self.fitness
    }

    #[verifier::when_used_as_spec(spec_color_mode)]
    pub fn get_color_mode(&self) -> (color_mode: ColorMode)
        ensures
            color_mode == self.spec_color_mode(),
    {
        self.color_mode
    }

    /// Mutates a specimen and scores what comes out against the target, both
    /// in the context's colour mode.
    pub fn evaluate(&self, entry: Candidate) -> (evaluated: Candidate)
        requires
            self.well_formed(),
            entry.image.well_formed(),
            entry.image.same_size(&self.target()),
        ensures
            self.evaluates(&entry, &evaluated),
    {
        let mut image: Image = entry.image;
        let score: usize;
        proof {
            self.target().count_fits();
        }
        match self.color_mode {
            ColorMode::Rgb => {
                self.mutator.mutate_rgb(&mut image);
                assert(self.fitness().fitness(ColorMode::Rgb, self.target()@, image@)
                    <= usize::MAX);
                score = self.fitness.calculate_fitness_rgb(&self.image, &image);
            },
            ColorMode::Grayscale => {
                self.mutator.mutate_grayscale(&mut image);
                assert(self.fitness().fitness(ColorMode::Grayscale, self.target()@, image@)
                    <= usize::MAX);
                score = self.fitness.calculate_fitness_grayscale(&self.image, &image);
            },
        }
        Candidate { image, score }
    }
}

impl<M: Mutator, F: FitnessFunction> Clone for JobContext<M, F> {
    /// A copy that shares the target and the strategies with this one.
    fn clone(&self) -> (copy: Self)
        ensures
            copy.target() == self.target(),
            copy.mutator() == self.mutator(),
            copy.fitness() == self.fitness(),
            copy.spec_color_mode() == self.spec_color_mode(),
    {
        Self {
            image: share(&self.image),
            mutator: share(&self.mutator),
            fitness: share(&self.fitness),
            color_mode: self.color_mode,
        }
    }
}

} // verus!
