use vstd::prelude::*;

use crate::color_mode::ColorMode;
use crate::models::{Image, Pixel};

verus! {

/// A way to score how far a specimen is from the target.
///
/// `fitness` is the score as a number without bound: of two pixel sequences
/// of one length, in a colour mode. The two executable methods compute it,
/// one for each colour mode, where it fits the machine's word. A strategy
/// that gives `fitness` no body leaves its score unnamed.
pub trait FitnessFunction: Send + Sync {
    /// The score of `second` against `first`.
    open spec fn fitness(&self, mode: ColorMode, first: Seq<Pixel>, second: Seq<Pixel>) -> nat {
        arbitrary()
    }

    /// The score of `second_image` against `first_image`, all three channels
    /// counted.
    fn calculate_fitness_rgb(&self, first_image: &Image, second_image: &Image) -> (score: usize)
        requires
            first_image@.len() == second_image@.len(),
            self.fitness(ColorMode::Rgb, first_image@, second_image@) <= usize::MAX,
        ensures
            score == self.fitness(ColorMode::Rgb, first_image@, second_image@),
            first_image@ == second_image@ ==> score == 0,
    ;

    /// The score of `second_image` against `first_image`, with the red
    /// channel standing for all three.
    fn calculate_fitness_grayscale(&self, first_image: &Image, second_image: &Image) -> (score:
        usize)
        requires
            first_image@.len() == second_image@.len(),
            self.fitness(ColorMode::Grayscale, first_image@, second_image@) <= usize::MAX,
        ensures
            score == self.fitness(ColorMode::Grayscale, first_image@, second_image@),
            first_image@ == second_image@ ==> score == 0,
    ;
}

/// The sum of `penalty` over the pairs of pixels that stand at one position
/// in `first` and in `second`.
pub open spec fn total_penalty(
    penalty: spec_fn(Pixel, Pixel) -> nat,
    first: Seq<Pixel>,
    second: Seq<Pixel>,
) -> nat
    decreases first.len(),
{
    if first.len() == 0 || second.len() == 0 {
        0
    } else {
        total_penalty(penalty, first.drop_last(), second.drop_last()) + penalty(
            first.last(),
            second.last(),
        )
    }
}

/// The sum over a prefix is no more than the sum over the whole.
pub proof fn total_penalty_grows(
    penalty: spec_fn(Pixel, Pixel) -> nat,
    first: Seq<Pixel>,
    second: Seq<Pixel>,
    count: int,
)
    requires
        first.len() == second.len(),
        0 <= count <= first.len(),
    ensures
        total_penalty(penalty, first.take(count), second.take(count)) <= total_penalty(
            penalty,
            first,
            second,
        ),
    decreases first.len() - count,
{
    if count < first.len() {
        total_penalty_grows(penalty, first, second, count + 1);
        assert(first.take(count + 1).drop_last() =~= first.take(count));
        assert(second.take(count + 1).drop_last() =~= second.take(count));
    } else {
        assert(first.take(count) =~= first);
        assert(second.take(count) =~= second);
    }
}

/// A penalty that is zero on equal pixels sums to zero over equal sequences.
pub proof fn total_penalty_of_identical(penalty: spec_fn(Pixel, Pixel) -> nat, pixels: Seq<Pixel>)
    requires
        forall|pixel: Pixel| #[trigger] penalty(pixel, pixel) == 0,
    ensures
        total_penalty(penalty, pixels, pixels) == 0,
    decreases pixels.len(),
{
    if pixels.len() > 0 {
        total_penalty_of_identical(penalty, pixels.drop_last());
    }
}

/// A penalty of at most `limit` sums to at most `limit` times the length.
pub proof fn total_penalty_bounded(
    penalty: spec_fn(Pixel, Pixel) -> nat,
    limit: nat,
    first: Seq<Pixel>,
    second: Seq<Pixel>,
)
    requires
        first.len() == second.len(),
        forall|p: Pixel, q: Pixel| #[trigger] penalty(p, q) <= limit,
    ensures
        total_penalty(penalty, first, second) <= limit * first.len(),
    decreases first.len(),
{
    if first.len() > 0 {
        total_penalty_bounded(penalty, limit, first.drop_last(), second.drop_last());
        assert(limit * (first.len() - 1) + limit == limit * first.len()) by (nonlinear_arith);
    } else {
        assert(limit * first.len() == 0) by (nonlinear_arith)
            requires
                first.len() == 0,
        ;
    }
}

/// Folds the pairs of pixels of two images of one size into a sum, first
/// pair first: `fold_pixels` takes the sum so far and a pair, and gives the
/// sum with the pair's penalty added.
pub(crate) fn fold_images<F>(
    first_image: &Image,
    second_image: &Image,
    fold_pixels: F,
    Ghost(penalty): Ghost<spec_fn(Pixel, Pixel) -> nat>,
) -> (sum: usize) where F: Fn(usize, (&Pixel, &Pixel)) -> usize
    requires
        first_image@.len() == second_image@.len(),
        total_penalty(penalty, first_image@, second_image@) <= usize::MAX,
        forall|sum: usize, left: &Pixel, right: &Pixel|
            sum + penalty(*left, *right) <= usize::MAX ==> call_requires(fold_pixels, (sum, (left, right))),
        forall|sum: usize, left: &Pixel, right: &Pixel, out: usize|
            call_ensures(fold_pixels, (sum, (left, right)), out) ==> out == sum + penalty(*left, *right),
    ensures
        sum == total_penalty(penalty, first_image@, second_image@),
{
    let first: &Vec<Pixel> = first_image.pixels();
    let second: &Vec<Pixel> = second_image.pixels();
    let mut sum: usize = 0;
    let mut index: usize = 0;
    while index < first.len()
        invariant
            index <= first@.len(),
            first@.len() == second@.len(),
            first@ == first_image@,
            second@ == second_image@,
            sum == total_penalty(penalty, first@.take(index as int), second@.take(index as int)),
            total_penalty(penalty, first@, second@) <= usize::MAX,
            forall|sum: usize, left: &Pixel, right: &Pixel|
                sum + penalty(*left, *right) <= usize::MAX ==> call_requires(
                    fold_pixels,
                    (sum, (left, right)),
                ),
            forall|sum: usize, left: &Pixel, right: &Pixel, out: usize|
                call_ensures(fold_pixels, (sum, (left, right)), out) ==> out == sum + penalty(*left, *right),
        decreases first@.len() - index,
    {
        proof {
            total_penalty_grows(penalty, first@, second@, index + 1);
            assert(first@.take(index + 1).drop_last() =~= first@.take(index as int));
            assert(second@.take(index + 1).drop_last() =~= second@.take(index as int));
        }
        sum = fold_pixels(sum, (&first[index], &second[index]));
        index += 1;
    }
    proof {
        assert(first@.take(index as int) =~= first@);
        assert(second@.take(index as int) =~= second@);
    }
    sum
}

} // verus!
