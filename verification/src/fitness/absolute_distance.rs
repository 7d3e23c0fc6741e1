use vstd::prelude::*;

use crate::color_mode::ColorMode;
use crate::fitness::fitness_function::{
    fold_images, total_penalty, total_penalty_bounded, total_penalty_of_identical, FitnessFunction,
};
use crate::models::{Image, Pixel};

verus! {

/// Scores a specimen by the absolute differences between the channels of its
/// pixels and those of the target.
#[derive(Debug, Default)]
pub struct AbsoluteDistance;

/// The distance between two channel values.
pub open spec fn channel_distance(a: u8, b: u8) -> nat {
    if a >= b {
        (a - b) as nat
    } else {
        (b - a) as nat
    }
}

/// What a pair of pixels adds in RGB mode: the distances of the three
/// channels.
pub open spec fn absolute_rgb_penalty(p: Pixel, q: Pixel) -> nat {
    channel_distance(p.r, q.r) + channel_distance(p.g, q.g) + channel_distance(p.b, q.b)
}

/// What a pair of pixels adds in grayscale mode: three times the distance of
/// the red channels.
pub open spec fn absolute_grayscale_penalty(p: Pixel, q: Pixel) -> nat {
    3 * channel_distance(p.r, q.r)
}

/// The penalty of a colour mode.
pub open spec fn absolute_penalty(mode: ColorMode) -> spec_fn(Pixel, Pixel) -> nat {
    match mode {
        ColorMode::Rgb => |p: Pixel, q: Pixel| absolute_rgb_penalty(p, q),
        ColorMode::Grayscale => |p: Pixel, q: Pixel| absolute_grayscale_penalty(p, q),
    }
}

/// The most that a pair of pixels adds in a colour mode.
pub open spec fn absolute_penalty_limit(mode: ColorMode) -> nat {
    765
}

impl AbsoluteDistance {
    /// Whether every score of two images of `pixels` pixels fits a machine
    /// word: whether the mode's limit for one pair, times `pixels`, does.
    pub fn can_score(mode: ColorMode, pixels: usize) -> (fit: bool)
        ensures
            fit == (absolute_penalty_limit(mode) * pixels <= usize::MAX),
    {
        let limit: usize = 765;
        limit.checked_mul(pixels).is_some()
    }
}

impl FitnessFunction for AbsoluteDistance {
    open spec fn fitness(&self, mode: ColorMode, first: Seq<Pixel>, second: Seq<Pixel>) -> nat {
        total_penalty(absolute_penalty(mode), first, second)
    }

    fn calculate_fitness_rgb(&self, first_image: &Image, second_image: &Image) -> (score: usize) {
        let fold_rgb_pixels = |sum: usize, pair: (&Pixel, &Pixel)| -> (out: usize)
            requires
                sum + absolute_rgb_penalty(*pair.0, *pair.1) <= usize::MAX,
            ensures
                out == sum + absolute_rgb_penalty(*pair.0, *pair.1),
            {
                let (left, right) = pair;
                let diff_r: isize = left.get_r() as isize - right.get_r() as isize;
                let diff_g: isize = left.get_g() as isize - right.get_g() as isize;
                let diff_b: isize = left.get_b() as isize - right.get_b() as isize;
                let mut sum: usize = sum;
                sum += unsigned_abs(diff_r);
                sum += unsigned_abs(diff_g);
                sum += unsigned_abs(diff_b);
                sum
            };
        proof {
            total_penalty_of_identical(absolute_penalty(ColorMode::Rgb), first_image@);
        }
        fold_images(
            first_image,
            second_image,
            fold_rgb_pixels,
            Ghost(absolute_penalty(ColorMode::Rgb)),
        )
    }

    fn calculate_fitness_grayscale(&self, first_image: &Image, second_image: &Image) -> (score:
        usize) {
        let fold_grayscale_pixels = |sum: usize, pair: (&Pixel, &Pixel)| -> (out: usize)
            requires
                sum + absolute_grayscale_penalty(*pair.0, *pair.1) <= usize::MAX,
            ensures
                out == sum + absolute_grayscale_penalty(*pair.0, *pair.1),
            {
                let (left, right) = pair;
                let diff_red: isize = left.get_r() as isize - right.get_r() as isize;
                let diff_grayscale: isize = diff_red * 3;
                let mut sum: usize = sum;
                sum += unsigned_abs(diff_grayscale);
                sum
            };
        proof {
            total_penalty_of_identical(absolute_penalty(ColorMode::Grayscale), first_image@);
        }
        fold_images(
            first_image,
            second_image,
            fold_grayscale_pixels,
            Ghost(absolute_penalty(ColorMode::Grayscale)),
        )
    }
}

/// An image is at distance zero from itself.
pub proof fn absolute_distance_of_identical(mode: ColorMode, pixels: Seq<Pixel>)
    ensures
        AbsoluteDistance.fitness(mode, pixels, pixels) == 0,
{
    total_penalty_of_identical(absolute_penalty(mode), pixels);
}

/// No score exceeds the mode's limit for one pair times the number of pairs.
pub proof fn absolute_distance_bounded(mode: ColorMode, first: Seq<Pixel>, second: Seq<Pixel>)
    requires
        first.len() == second.len(),
    ensures
        AbsoluteDistance.fitness(mode, first, second) <= absolute_penalty_limit(mode) * first.len(),
{
    assert forall|p: Pixel, q: Pixel| #[trigger]
        absolute_penalty(mode)(p, q) <= absolute_penalty_limit(mode) by {
    }
    total_penalty_bounded(absolute_penalty(mode), absolute_penalty_limit(mode), first, second);
}

/// Every score against a target fits a machine word where the mode's limit
/// for one pair, times the number of the target's pixels, does.
pub proof fn absolute_distance_scores_fit(mode: ColorMode, target: Seq<Pixel>)
    requires
        absolute_penalty_limit(mode) * target.len() <= usize::MAX,
    ensures
        crate::job_context::scores_fit(&AbsoluteDistance, mode, target),
{
    assert forall|candidate: Seq<Pixel>| candidate.len() == target.len() implies #[trigger]
        AbsoluteDistance.fitness(mode, target, candidate) <= usize::MAX by {
        absolute_distance_bounded(mode, target, candidate);
    }
}

/// The absolute value of a difference, as an unsigned number.
fn unsigned_abs(diff: isize) -> (value: usize)
    requires
        -1000 <= diff <= 1000,
    ensures
        value == if diff >= 0 {
            diff as int
        } else {
            -diff
        },
{
    if diff >= 0 {
        diff as usize
    } else {
        (-diff) as usize
    }
}

} // verus!
