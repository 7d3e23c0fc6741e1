use vstd::prelude::*;

use crate::color_mode::ColorMode;
use crate::fitness::fitness_function::{
    fold_images, total_penalty, total_penalty_bounded, total_penalty_of_identical, FitnessFunction,
};
use crate::models::{Image, Pixel};

verus! {

/// Scores a specimen by the squares of the differences between the channels
/// of its pixels and those of the target.
#[derive(Debug, Default)]
pub struct SquareDistance;

/// The square of the difference of two channel values.
pub open spec fn channel_square(a: u8, b: u8) -> nat {
    ((a - b) * (a - b)) as nat
}

/// What a pair of pixels adds in RGB mode: the squares of the three channel
/// differences.
pub open spec fn square_rgb_penalty(p: Pixel, q: Pixel) -> nat {
    channel_square(p.r, q.r) + channel_square(p.g, q.g) + channel_square(p.b, q.b)
}

/// What a pair of pixels adds in grayscale mode: the square of three times
/// the difference of the red channels.
pub open spec fn square_grayscale_penalty(p: Pixel, q: Pixel) -> nat {
    9 * channel_square(p.r, q.r)
}

/// The penalty of a colour mode.
pub open spec fn square_penalty(mode: ColorMode) -> spec_fn(Pixel, Pixel) -> nat {
    match mode {
        ColorMode::Rgb => |p: Pixel, q: Pixel| square_rgb_penalty(p, q),
        ColorMode::Grayscale => |p: Pixel, q: Pixel| square_grayscale_penalty(p, q),
    }
}

/// The most that a pair of pixels adds in a colour mode.
pub open spec fn square_penalty_limit(mode: ColorMode) -> nat {
    match mode {
        ColorMode::Rgb => 195075,
        ColorMode::Grayscale => 585225,
    }
}

/// The square of a channel difference is at most 255 squared.
pub proof fn channel_square_bounded(a: u8, b: u8)
    ensures
        channel_square(a, b) <= 65025,
        (a - b) * (a - b) >= 0,
{
    let d: int = a - b;
    assert(-255 <= d <= 255);
    assert(0 <= d * d <= 65025) by (nonlinear_arith)
        requires
            -255 <= d <= 255,
    ;
}

impl SquareDistance {
    /// Whether every score of two images of `pixels` pixels fits a machine
    /// word: whether the mode's limit for one pair, times `pixels`, does.
    pub fn can_score(mode: ColorMode, pixels: usize) -> (fit: bool)
        ensures
            fit == (square_penalty_limit(mode) * pixels <= usize::MAX),
    {
        let limit: usize = match mode {
            ColorMode::Rgb => 195075,
            ColorMode::Grayscale => 585225,
        };
        limit.checked_mul(pixels).is_some()
    }
}

impl FitnessFunction for SquareDistance {
    open spec fn fitness(&self, mode: ColorMode, first: Seq<Pixel>, second: Seq<Pixel>) -> nat {
        total_penalty(square_penalty(mode), first, second)
    }

    fn calculate_fitness_rgb(&self, first_image: &Image, second_image: &Image) -> (score: usize) {
        let fold_rgb_pixels = |sum: usize, pair: (&Pixel, &Pixel)| -> (out: usize)
            requires
                sum + square_rgb_penalty(*pair.0, *pair.1) <= usize::MAX,
            ensures
                out == sum + square_rgb_penalty(*pair.0, *pair.1),
            {
                let (left, right) = pair;
                let diff_r: isize = left.get_r() as isize - right.get_r() as isize;
                let diff_g: isize = left.get_g() as isize - right.get_g() as isize;
                let diff_b: isize = left.get_b() as isize - right.get_b() as isize;
                let mut sum: usize = sum;
                sum += square(diff_r);
                sum += square(diff_g);
                sum += square(diff_b);
                sum
            };
        proof {
            total_penalty_of_identical(square_penalty(ColorMode::Rgb), first_image@);
        }
        fold_images(
            first_image,
            second_image,
            fold_rgb_pixels,
            Ghost(square_penalty(ColorMode::Rgb)),
        )
    }

    fn calculate_fitness_grayscale(&self, first_image: &Image, second_image: &Image) -> (score:
        usize) {
        let fold_grayscale_pixels = |sum: usize, pair: (&Pixel, &Pixel)| -> (out: usize)
            requires
                sum + square_grayscale_penalty(*pair.0, *pair.1) <= usize::MAX,
            ensures
                out == sum + square_grayscale_penalty(*pair.0, *pair.1),
            {
                let (left, right) = pair;
                let diff_red: isize = left.get_r() as isize - right.get_r() as isize;
                let diff_grayscale: isize = diff_red * 3;
                assert((diff_red * 3) * (diff_red * 3) == 9 * (diff_red * diff_red))
                    by (nonlinear_arith);
                let mut sum: usize = sum;
                sum += square(diff_grayscale);
                sum
            };
        proof {
            total_penalty_of_identical(square_penalty(ColorMode::Grayscale), first_image@);
        }
        fold_images(
            first_image,
            second_image,
            fold_grayscale_pixels,
            Ghost(square_penalty(ColorMode::Grayscale)),
        )
    }
}

/// An image is at distance zero from itself.
pub proof fn square_distance_of_identical(mode: ColorMode, pixels: Seq<Pixel>)
    ensures
        SquareDistance.fitness(mode, pixels, pixels) == 0,
{
    total_penalty_of_identical(square_penalty(mode), pixels);
}

/// No score exceeds the mode's limit for one pair times the number of pairs.
pub proof fn square_distance_bounded(mode: ColorMode, first: Seq<Pixel>, second: Seq<Pixel>)
    requires
        first.len() == second.len(),
    ensures
        SquareDistance.fitness(mode, first, second) <= square_penalty_limit(mode) * first.len(),
{
    assert forall|p: Pixel, q: Pixel| #[trigger]
        square_penalty(mode)(p, q) <= square_penalty_limit(mode) by {
        channel_square_bounded(p.r, q.r);
        channel_square_bounded(p.g, q.g);
        channel_square_bounded(p.b, q.b);
    }
    total_penalty_bounded(square_penalty(mode), square_penalty_limit(mode), first, second);
}

/// Every score against a target fits a machine word where the mode's limit
/// for one pair, times the number of the target's pixels, does.
pub proof fn square_distance_scores_fit(mode: ColorMode, target: Seq<Pixel>)
    requires
        square_penalty_limit(mode) * target.len() <= usize::MAX,
    ensures
        crate::job_context::scores_fit(&SquareDistance, mode, target),
{
    assert forall|candidate: Seq<Pixel>| candidate.len() == target.len() implies #[trigger]
        SquareDistance.fitness(mode, target, candidate) <= usize::MAX by {
        square_distance_bounded(mode, target, candidate);
    }
}

/// The square of a difference, as an unsigned number.
fn square(diff: isize) -> (value: usize)
    requires
        -765 <= diff <= 765,
    ensures
        value == diff * diff,
{
    assert(0 <= diff * diff <= 585225) by (nonlinear_arith)
        requires
            -765 <= diff <= 765,
    ;
    (diff * diff) as usize
}

} // verus!
