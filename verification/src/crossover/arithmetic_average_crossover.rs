use vstd::prelude::*;

use crate::crossover::crossover_function::CrossoverFunction;
use crate::models::{Image, Pixel};

verus! {

/// Breeds a specimen whose every pixel lies halfway between the pixels of
/// its parents at that position.
#[derive(Debug, Default)]
pub struct ArithmeticAverageCrossover;

/// The pixel halfway between two pixels: in each channel, half of the one
/// plus half of the other, each half rounded down.
pub open spec fn average_pixel(p: Pixel, q: Pixel) -> Pixel {
    Pixel {
        r: (p.r / 2 + q.r / 2) as u8,
        g: (p.g / 2 + q.g / 2) as u8,
        b: (p.b / 2 + q.b / 2) as u8,
    }
}

/// The averages of the pixels of two sequences of one length, position by
/// position.
pub open spec fn arithmetic_average(first: Seq<Pixel>, second: Seq<Pixel>) -> Seq<Pixel> {
    Seq::new(first.len(), |i: int| average_pixel(first[i], second[i]))
}

impl CrossoverFunction for ArithmeticAverageCrossover {
    open spec fn breeds(&self, after: &Self, first: &Image, second: &Image, child: &Image) -> bool {
        child@ == arithmetic_average(first@, second@)
    }

    fn crossover(&mut self, first_image: &Image, second_image: &Image) -> (child: Image) {
        let first: &Vec<Pixel> = first_image.pixels();
        let second: &Vec<Pixel> = second_image.pixels();
        let mut pixels: Vec<Pixel> = Vec::new();
        let mut index: usize = 0;
        while index < first.len()
            invariant
                index <= first@.len(),
                first@.len() == second@.len(),
                pixels@.len() == index,
                forall|i: int|
                    0 <= i < index ==> pixels@[i] == average_pixel(first@[i], second@[i]),
            decreases first@.len() - index,
        {
            let left: Pixel = first[index];
            let right: Pixel = second[index];
            let red_average: u8 = left.get_r() / 2 + right.get_r() / 2;
            let green_average: u8 = left.get_g() / 2 + right.get_g() / 2;
            let blue_average: u8 = left.get_b() / 2 + right.get_b() / 2;
            pixels.push(Pixel::new(red_average, green_average, blue_average));
            index += 1;
        }
        assert(pixels@ =~= arithmetic_average(first_image@, second_image@));
        Image::new(first_image.height(), first_image.width(), pixels)
    }
}

} // verus!
