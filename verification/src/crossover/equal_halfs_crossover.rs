use vstd::prelude::*;

use crate::crossover::crossover_function::CrossoverFunction;
use crate::models::{Image, Pixel};

verus! {

/// Breeds a specimen that takes the leading half of its pixels from the
/// first parent and fills the rest with the leading pixels of the second.
#[derive(Debug, Default)]
pub struct EqualHalfsCrossover;

/// The number of pixels that the first parent gives: half of them, rounded
/// up.
pub open spec fn first_share(len: nat) -> nat {
    if len % 2 == 0 {
        len / 2
    } else {
        len / 2 + 1
    }
}

/// The leading `first_share` pixels of `first`, then the leading pixels of
/// `second` that fill the length up.
pub open spec fn equal_halfs(first: Seq<Pixel>, second: Seq<Pixel>) -> Seq<Pixel> {
    first.take(first_share(first.len()) as int) + second.take((first.len() / 2) as int)
}

impl CrossoverFunction for EqualHalfsCrossover {
    open spec fn breeds(&self, after: &Self, first: &Image, second: &Image, child: &Image) -> bool {
        child@ == equal_halfs(first@, second@)
    }

    fn crossover(&mut self, first_image: &Image, second_image: &Image) -> (child: Image) {
        let first: &Vec<Pixel> = first_image.pixels();
        let second: &Vec<Pixel> = second_image.pixels();
        let size: usize = first.len();

        let number_of_pixels_from_first_image: usize = if size % 2 == 0 {
            size / 2
        } else {
            size / 2 + 1
        };

        let number_of_pixels_from_second_image: usize = size / 2;

        let mut pixels: Vec<Pixel> = Vec::new();
        let mut index: usize = 0;
        while index < number_of_pixels_from_first_image
            invariant
                index <= number_of_pixels_from_first_image <= first@.len(),
                pixels@ == first@.take(index as int),
            decreases number_of_pixels_from_first_image - index,
        {
            pixels.push(first[index]);
            assert(first@.take(index + 1) =~= first@.take(index as int).push(first@[index as int]));
            index += 1;
        }
        let mut index: usize = 0;
        while index < number_of_pixels_from_second_image
            invariant
                index <= number_of_pixels_from_second_image <= second@.len(),
                pixels@ == first@.take(number_of_pixels_from_first_image as int) + second@.take(
                    index as int,
                ),
            decreases number_of_pixels_from_second_image - index,
        {
            pixels.push(second[index]);
            assert(second@.take(index + 1) =~= second@.take(index as int).push(
                second@[index as int],
            ));
            assert(pixels@ =~= first@.take(number_of_pixels_from_first_image as int) + second@.take(
                index + 1,
            ));
            index += 1;
        }
        Image::new(first_image.height(), first_image.width(), pixels)
    }
}

} // verus!
