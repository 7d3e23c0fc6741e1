use num_integer::Roots;
use vstd::prelude::*;

use crate::models::{Image, Pixel};
use crate::mutators::mutator::{cell_of_position, drawable, painted, position_of_cell, Mutator};
use crate::util::Random;

verus! {

/// A disc of pixels: the column `x` and the row `y` of its centre, and its
/// radius `r`.
#[derive(Debug, Clone, Copy)]
pub struct RandomCircle {
    pub x: i64,
    pub y: i64,
    pub r: i64,
}

impl RandomCircle {
    /// Whether the disc has a radius of at least one and lies within an image
    /// of the given size.
    pub open spec fn fits(&self, image_height: nat, image_width: nat) -> bool {
        &&& 1 <= self.r
        &&& self.r <= self.x
        &&& self.r <= self.y
        &&& self.x + self.r <= image_width
        &&& self.y + self.r <= image_height
    }

    /// Whether the disc holds the cell at `row` and `column`. Counted from
    /// the centre, the columns `-r` to `r - 1` take part; in a column the
    /// cell `j` rows below the centre is held where `(j + 1)² + i² <= r²`,
    /// and the cell `j` rows above it where `j² + i² <= r²`.
    pub open spec fn holds(&self, row: int, column: int) -> bool {
        let i: int = column - self.x;
        let j: int = row - self.y;
        &&& -self.r <= i < self.r
        &&& if j >= 0 {
            (j + 1) * (j + 1) + i * i <= self.r * self.r
        } else {
            j * j + i * i <= self.r * self.r
        }
    }

    /// The positions that the disc covers in an image `image_width` wide.
    pub open spec fn covered(&self, image_width: nat) -> spec_fn(int) -> bool {
        |k: int| self.holds(k / image_width as int, k % image_width as int)
    }

    /// The positions covered once the columns left of the offset `i` are
    /// done.
    pub open spec fn covered_before(&self, image_width: nat, i: int) -> spec_fn(int) -> bool {
        |k: int|
            {
                let row: int = k / image_width as int;
                let column: int = k % image_width as int;
                &&& self.holds(row, column)
                &&& column - self.x < i
            }
    }

    /// The positions covered once the columns left of the offset `i` are
    /// done, and of that column itself the rows above the offset `j`.
    pub open spec fn covered_until(&self, image_width: nat, i: int, j: int) -> spec_fn(int) -> bool {
        |k: int|
            {
                let row: int = k / image_width as int;
                let column: int = k % image_width as int;
                &&& self.holds(row, column)
                &&& (column - self.x < i || (column - self.x == i && row - self.y < j))
            }
    }
}

/// Whether `half` is the whole part of the square root of `radius² -
/// offset²`: half the height of the disc's column at `offset`.
pub open spec fn is_half_chord(half: int, radius: int, offset: int) -> bool {
    &&& 0 <= half
    &&& half * half <= radius * radius - offset * offset
    &&& radius * radius - offset * offset < (half + 1) * (half + 1)
}

/// In a column of half height `half`, the disc holds the rows from `-half`
/// to `half - 1`, counted from the centre, and no others.
pub proof fn rows_of_column(circle: RandomCircle, half: int, row: int, column: int)
    requires
        -circle.r <= column - circle.x < circle.r,
        is_half_chord(half, circle.r as int, column - circle.x),
    ensures
        circle.holds(row, column) <==> -half <= row - circle.y < half,
        half <= circle.r,
{
    let i: int = column - circle.x;
    let j: int = row - circle.y;
    let n: int = circle.r * circle.r - i * i;
    let r: int = circle.r as int;
    assert(half <= r) by (nonlinear_arith)
        requires
            0 <= half,
            0 <= r,
            half * half <= r * r - i * i,
    ;
    if j >= 0 {
        assert(((j + 1) * (j + 1) <= n) <==> j < half) by (nonlinear_arith)
            requires
                0 <= j,
                0 <= half,
                half * half <= n,
                n < (half + 1) * (half + 1),
        ;
    } else {
        assert((j * j <= n) <==> -half <= j) by (nonlinear_arith)
            requires
                j < 0,
                0 <= half,
                half * half <= n,
                n < (half + 1) * (half + 1),
        ;
    }
}

/// `num_integer`'s `Roots::sqrt` on a 64-bit integer that is not negative:
/// the whole part of the square root.
#[verifier::external_body]
fn integer_sqrt(x: i64) -> (root: i64)
    requires
        x >= 0,
    ensures
        0 <= root,
        root * root <= x < (root + 1) * (root + 1),
{
    x.sqrt()
}

/// The smallest of four numbers.
fn smallest(a: i64, b: i64, c: i64, d: i64) -> (least: i64)
    ensures
        least <= a && least <= b && least <= c && least <= d,
        least == a || least == b || least == c || least == d,
{
    let mut least: i64 = a;
    if b < least {
        least = b;
    }
    if c < least {
        least = c;
    }
    if d < least {
        least = d;
    }
    least
}

/// An image of at least two rows holds fewer columns than a signed 64-bit
/// number can count, and the other way round.
proof fn sides_fit(image: &Image)
    requires
        image.well_formed(),
        image.height() >= 2,
        image.width() >= 2,
    ensures
        image.height() <= i64::MAX,
        image.width() <= i64::MAX,
        image.height() * image.width() <= usize::MAX,
{
    image.count_fits();
    let h: int = image.height() as int;
    let w: int = image.width() as int;
    assert(2 * w <= h * w && 2 * h <= h * w) by (nonlinear_arith)
        requires
            h >= 2,
            w >= 2,
    ;
}

/// Mutates a specimen by painting a random disc in a random colour.
#[derive(Debug, Default)]
pub struct CircleMutator;

impl CircleMutator {
    /// A disc drawn at random within the image.
    fn get_random_circle(&self, random: &mut Random, image: &Image) -> (circle: RandomCircle)
        requires
            image.well_formed(),
            image.height() >= 2,
            image.width() >= 2,
        ensures
            circle.fits(image.height() as nat, image.width() as nat),
    {
        proof {
            sides_fit(image);
        }
        let image_width: i64 = image.width() as i64;
        let image_height: i64 = image.height() as i64;

        let x: i64 = random.get_random(1, image_width as u64) as i64;
        let y: i64 = random.get_random(1, image_height as u64) as i64;

        let n: i64 = smallest(x, y, image_width - x, image_height - y);

        let r: i64 = random.get_random(1, (n + 1) as u64) as i64;

        RandomCircle { x, y, r }
    }

    /// Whether a disc can be drawn in an image of the given size: whether
    /// the image has two rows and two columns at least.
    pub fn can_mutate(height: usize, width: usize) -> (supported: bool)
        ensures
            supported == CircleMutator.supports(height as nat, width as nat),
    {
        height >= 2 && width >= 2
    }

    /// Paints the disc in the given colour.
    pub fn draw(image: &mut Image, circle: &RandomCircle, color: Pixel)
        requires
            old(image).well_formed(),
            circle.fits(old(image).height() as nat, old(image).width() as nat),
        ensures
            final(image).well_formed(),
            final(image).same_size(old(image)),
            final(image)@ == painted(
                old(image)@,
                circle.covered(old(image).width() as nat),
                color,
            ),
    {
        let image_width: usize = image.width();
        let ghost image_height: int = image.height() as int;
        let ghost before: Seq<Pixel> = image@;
        let ghost wide: nat = image_width as nat;
        let ghost radius: int = circle.r as int;
        let ghost top: int = -radius;
        proof {
            image.count_fits();
            sides_fit(image);
            assert(4 * (radius * radius) <= image_height * wide) by (nonlinear_arith)
                requires
                    1 <= radius,
                    2 * radius <= image_height,
                    2 * radius <= wide,
            ;
            assert forall|k: int| 0 <= k < before.len() implies painted(
                before,
                circle.covered_before(wide, top),
                color,
            )[k] == before[k] by {
                cell_of_position(k, wide as int);
            }
            assert(image@ =~= painted(before, circle.covered_before(wide, top), color));
        }

        let mut i: i64 = -circle.r;
        while i < circle.r
            invariant
                -circle.r <= i <= circle.r,
                radius == circle.r,
                top == -radius,
                circle.fits(image_height as nat, wide),
                image.height() == image_height,
                image.width() == image_width,
                image_width == wide,
                before.len() == image_height * wide,
                before.len() <= usize::MAX,
                image_height <= i64::MAX,
                wide <= i64::MAX,
                image@.len() == before.len(),
                4 * (radius * radius) <= image_height * wide,
                image@ == painted(before, circle.covered_before(wide, i as int), color),
            decreases circle.r - i,
        {
            proof {
                assert(0 <= i * i <= radius * radius) by (nonlinear_arith)
                    requires
                        -radius <= i < radius,
                ;
            }
            let height: i64 = integer_sqrt(circle.r * circle.r - i * i);
            let ghost first_row: int = -height;
            proof {
                rows_of_column(*circle, height as int, 0, i + circle.x);
                assert forall|k: int| 0 <= k < before.len() implies painted(
                    before,
                    circle.covered_before(wide, i as int),
                    color,
                )[k] == painted(before, circle.covered_until(wide, i as int, first_row), color)[k] by {
                    cell_of_position(k, wide as int);
                    let row: int = k / wide as int;
                    let column: int = k % wide as int;
                    if column - circle.x == i {
                        rows_of_column(*circle, height as int, row, column);
                    }
                }
                assert(image@ =~= painted(
                    before,
                    circle.covered_until(wide, i as int, first_row),
                    color,
                ));
            }

            let mut j: i64 = -height;
            while j < height
                invariant
                    -circle.r <= i < circle.r,
                    -height <= j <= height,
                    height <= circle.r,
                    radius == circle.r,
                    is_half_chord(height as int, radius, i as int),
                    circle.fits(image_height as nat, wide),
                    image.height() == image_height,
                    image.width() == image_width,
                    image_width == wide,
                    before.len() == image_height * wide,
                    before.len() <= usize::MAX,
                    image_height <= i64::MAX,
                    wide <= i64::MAX,
                    image@.len() == before.len(),
                    image@ == painted(
                        before,
                        circle.covered_until(wide, i as int, j as int),
                        color,
                    ),
                decreases height - j,
            {
                let row: usize = (j + circle.y) as usize;
                let column: usize = (i + circle.x) as usize;
                proof {
                    position_of_cell(row as int, column as int, image_height, wide as int);
                    assert(0 <= row * image_width) by (nonlinear_arith)
                        requires
                            0 <= row,
                            0 <= image_width,
                    ;
                    rows_of_column(*circle, height as int, row as int, column as int);
                }
                let ghost so_far: Seq<Pixel> = image@;
                image.set_pixel(row * image_width + column, color);
                proof {
                    let position: int = row * wide + column;
                    assert forall|k: int| 0 <= k < before.len() implies image@[k] == painted(
                        before,
                        circle.covered_until(wide, i as int, j + 1),
                        color,
                    )[k] by {
                        cell_of_position(k, wide as int);
                        if k != position {
                            assert(so_far[k] == image@[k]);
                        }
                    }
                    assert(image@ =~= painted(
                        before,
                        circle.covered_until(wide, i as int, j + 1),
                        color,
                    ));
                }
                j += 1;
            }
            proof {
                assert forall|k: int| 0 <= k < before.len() implies painted(
                    before,
                    circle.covered_until(wide, i as int, j as int),
                    color,
                )[k] == painted(before, circle.covered_before(wide, i + 1), color)[k] by {
                    cell_of_position(k, wide as int);
                    let row: int = k / wide as int;
                    let column: int = k % wide as int;
                    if column - circle.x == i {
                        rows_of_column(*circle, height as int, row, column);
                    }
                }
                assert(image@ =~= painted(
                    before,
                    circle.covered_before(wide, i + 1),
                    color,
                ));
            }
            i += 1;
        }
        proof {
            assert forall|k: int| 0 <= k < before.len() implies painted(
                before,
                circle.covered_before(wide, i as int),
                color,
            )[k] == painted(before, circle.covered(wide), color)[k] by {
                cell_of_position(k, wide as int);
            }
            assert(image@ =~= painted(before, circle.covered(wide), color));
        }
    }
}

impl Mutator for CircleMutator {
    open spec fn supports(&self, height: nat, width: nat) -> bool {
        height >= 2 && width >= 2
    }

    open spec fn mutates_rgb(&self, before: &Image, after: &Image) -> bool {
        exists|circle: RandomCircle, color: Pixel|
            {
                &&& circle.fits(before.height() as nat, before.width() as nat)
                &&& drawable(color)
                &&& after@ == #[trigger] painted(
                    before@,
                    circle.covered(before.width() as nat),
                    color,
                )
            }
    }

    open spec fn mutates_grayscale(&self, before: &Image, after: &Image) -> bool {
        exists|circle: RandomCircle, color: Pixel|
            {
                &&& circle.fits(before.height() as nat, before.width() as nat)
                &&& drawable(color)
                &&& color.is_gray()
                &&& after@ == #[trigger] painted(
                    before@,
                    circle.covered(before.width() as nat),
                    color,
                )
            }
    }

    fn mutate_rgb(&self, image: &mut Image) {
        let mut random: Random = Random::default();

        let circle: RandomCircle = self.get_random_circle(&mut random, image);

        let r_channel: u8 = random.get_random(0, 255) as u8;
        let g_channel: u8 = random.get_random(0, 255) as u8;
        let b_channel: u8 = random.get_random(0, 255) as u8;

        Self::draw(image, &circle, Pixel::new(r_channel, g_channel, b_channel));
    }

    fn mutate_grayscale(&self, image: &mut Image) {
        let mut random: Random = Random::default();

        let circle: RandomCircle = self.get_random_circle(&mut random, image);

        let grayscale: u8 = random.get_random(0, 255) as u8;

        Self::draw(image, &circle, Pixel::grayscale(grayscale));
    }
}

} // verus!
