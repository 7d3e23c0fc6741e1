use vstd::prelude::*;

use crate::models::{Image, Pixel};
use crate::mutators::mutator::{cell_of_position, drawable, painted, position_of_cell, Mutator};
use crate::util::Random;

verus! {

/// A rectangle of pixels: its left column `x`, its top row `y`, and its
/// extent.
#[derive(Debug, Clone, Copy)]
pub struct RandomRectangle {
    pub x: usize,
    pub y: usize,
    pub width: usize,
    pub height: usize,
}

impl RandomRectangle {
    /// Whether the rectangle is not empty and lies within an image of the
    /// given size.
    pub open spec fn fits(&self, image_height: nat, image_width: nat) -> bool {
        &&& 1 <= self.width
        &&& 1 <= self.height
        &&& self.x + self.width <= image_width
        &&& self.y + self.height <= image_height
    }

    /// Whether the rectangle holds the cell at `row` and `column`.
    pub open spec fn holds(&self, row: int, column: int) -> bool {
        &&& self.x <= column < self.x + self.width
        &&& self.y <= row < self.y + self.height
    }

    /// The positions that the rectangle covers in an image `image_width`
    /// wide.
    pub open spec fn covered(&self, image_width: nat) -> spec_fn(int) -> bool {
        |k: int| self.holds(k / image_width as int, k % image_width as int)
    }

    /// The positions covered once the columns before `column` are done, and
    /// of `column` itself the rows before `row`.
    pub open spec fn covered_until(&self, image_width: nat, column: int, row: int) -> spec_fn(
        int,
    ) -> bool {
        |k: int|
            {
                let r: int = k / image_width as int;
                let c: int = k % image_width as int;
                &&& self.holds(r, c)
                &&& (c < column || (c == column && r < row))
            }
    }
}

/// Mutates a specimen by painting a random rectangle in a random colour.
#[derive(Debug, Default)]
pub struct RectangleMutator;

impl RectangleMutator {
    /// A rectangle drawn at random within the image.
    fn get_random_rectangle(&self, random: &mut Random, image: &Image) -> (rect: RandomRectangle)
        requires
            image.height() >= 1,
            image.width() >= 1,
        ensures
            rect.fits(image.height() as nat, image.width() as nat),
    {
        let image_width: usize = image.width();
        let image_height: usize = image.height();

        let x: usize = random.get_random(0, image_width as u64) as usize;
        let y: usize = random.get_random(0, image_height as u64) as usize;

        let width: usize = random.get_random(0, (image_width - x) as u64) as usize + 1;
        let height: usize = random.get_random(0, (image_height - y) as u64) as usize + 1;

        RandomRectangle { x, y, width, height }
    }

    /// Whether a rectangle can be drawn in an image of the given size: whether
    /// the image has a cell at all.
    pub fn can_mutate(height: usize, width: usize) -> (supported: bool)
        ensures
            supported == RectangleMutator.supports(height as nat, width as nat),
    {
        height >= 1 && width >= 1
    }

    /// Paints the rectangle in the given colour.
    pub fn draw(image: &mut Image, rect: &RandomRectangle, color: Pixel)
        requires
            old(image).well_formed(),
            rect.fits(old(image).height() as nat, old(image).width() as nat),
        ensures
            final(image).well_formed(),
            final(image).same_size(old(image)),
            final(image)@ == painted(old(image)@, rect.covered(old(image).width() as nat), color),
    {
        let image_width: usize = image.width();
        let ghost image_height: int = image.height() as int;
        let ghost before: Seq<Pixel> = image@;
        let ghost wide: nat = image_width as nat;
        proof {
            image.count_fits();
        }

        let mut i: usize = rect.x;
        while i < rect.width + rect.x
            invariant
                rect.x <= i <= rect.x + rect.width,
                rect.fits(image_height as nat, wide),
                image.height() == image_height,
                image.width() == image_width,
                image_width == wide,
                before.len() == image_height * wide,
                before.len() <= usize::MAX,
                image@.len() == before.len(),
                image@ == painted(before, rect.covered_until(wide, i as int, rect.y as int), color),
            decreases rect.x + rect.width - i,
        {
            let mut j: usize = rect.y;
            while j < rect.height + rect.y
                invariant
                    rect.x <= i < rect.x + rect.width,
                    rect.y <= j <= rect.y + rect.height,
                    rect.fits(image_height as nat, wide),
                    image.height() == image_height,
                    image.width() == image_width,
                    image_width == wide,
                    before.len() == image_height * wide,
                before.len() <= usize::MAX,
                image@.len() == before.len(),
                    image@ == painted(before, rect.covered_until(wide, i as int, j as int), color),
                decreases rect.y + rect.height - j,
            {
                proof {
                    position_of_cell(j as int, i as int, image_height, wide as int);
                    assert(0 <= j * image_width) by (nonlinear_arith)
                        requires
                            0 <= j,
                            0 <= image_width,
                    ;
                }
                let ghost so_far: Seq<Pixel> = image@;
                image.set_pixel(j * image_width + i, color);
                proof {
                    let position: int = j * wide + i;
                    assert forall|k: int| 0 <= k < before.len() implies image@[k] == painted(
                        before,
                        rect.covered_until(wide, i as int, j + 1),
                        color,
                    )[k] by {
                        cell_of_position(k, wide as int);
                        if k != position {
                            assert(so_far[k] == image@[k]);
                        }
                    }
                    assert(image@ =~= painted(
                        before,
                        rect.covered_until(wide, i as int, j + 1),
                        color,
                    ));
                }
                j += 1;
            }
            proof {
                assert forall|k: int| 0 <= k < before.len() implies painted(
                    before,
                    rect.covered_until(wide, i as int, j as int),
                    color,
                )[k] == painted(before, rect.covered_until(wide, i + 1, rect.y as int), color)[k] by {
                    cell_of_position(k, wide as int);
                }
                assert(image@ =~= painted(
                    before,
                    rect.covered_until(wide, i + 1, rect.y as int),
                    color,
                ));
            }
            i += 1;
        }
        proof {
            assert forall|k: int| 0 <= k < before.len() implies painted(
                before,
                rect.covered_until(wide, i as int, rect.y as int),
                color,
            )[k] == painted(before, rect.covered(wide), color)[k] by {
                cell_of_position(k, wide as int);
            }
            assert(image@ =~= painted(before, rect.covered(wide), color));
        }
    }
}

impl Mutator for RectangleMutator {
    open spec fn supports(&self, height: nat, width: nat) -> bool {
        height >= 1 && width >= 1
    }

    open spec fn mutates_rgb(&self, before: &Image, after: &Image) -> bool {
        exists|rect: RandomRectangle, color: Pixel|
            {
                &&& rect.fits(before.height() as nat, before.width() as nat)
                &&& drawable(color)
                &&& after@ == #[trigger] painted(before@, rect.covered(before.width() as nat), color)
            }
    }

    open spec fn mutates_grayscale(&self, before: &Image, after: &Image) -> bool {
        exists|rect: RandomRectangle, color: Pixel|
            {
                &&& rect.fits(before.height() as nat, before.width() as nat)
                &&& drawable(color)
                &&& color.is_gray()
                &&& after@ == #[trigger] painted(before@, rect.covered(before.width() as nat), color)
            }
    }

    fn mutate_rgb(&self, image: &mut Image) {
        let mut random: Random = Random::default();

        let rect: RandomRectangle = self.get_random_rectangle(&mut random, image);

        let r: u8 = random.get_random(0, 255) as u8;
        let g: u8 = random.get_random(0, 255) as u8;
        let b: u8 = random.get_random(0, 255) as u8;

        Self::draw(image, &rect, Pixel::new(r, g, b));
    }

    fn mutate_grayscale(&self, image: &mut Image) {
        let mut random: Random = Random::default();

        let rect: RandomRectangle = self.get_random_rectangle(&mut random, image);

        let grayscale: u8 = random.get_random(0, 255) as u8;

        Self::draw(image, &rect, Pixel::grayscale(grayscale));
    }
}

} // verus!
