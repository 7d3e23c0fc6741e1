use vstd::prelude::*;

use crate::models::{Image, Pixel};

verus! {

/// A way to change a specimen at random, in place and without changing its
/// size.
///
/// `supports` says which image sizes the strategy can work on; `mutates_rgb`
/// and `mutates_grayscale` say which images may come out of which. A strategy
/// that gives them no body leaves them unnamed, and nothing can then be
/// proved of a run that uses it.
pub trait Mutator: Send + Sync {
    open spec fn supports(&self, height: nat, width: nat) -> bool {
        arbitrary()
    }

    open spec fn mutates_rgb(&self, before: &Image, after: &Image) -> bool {
        arbitrary()
    }

    open spec fn mutates_grayscale(&self, before: &Image, after: &Image) -> bool {
        arbitrary()
    }

    /// Changes the image, each colour channel on its own.
    fn mutate_rgb(&self, image: &mut Image)
        requires
            old(image).well_formed(),
            self.supports(old(image).height() as nat, old(image).width() as nat),
        ensures
            final(image).well_formed(),
            final(image).same_size(old(image)),
            self.mutates_rgb(old(image), final(image)),
    ;

    /// Changes the image, the three colour channels together.
    fn mutate_grayscale(&self, image: &mut Image)
        requires
            old(image).well_formed(),
            self.supports(old(image).height() as nat, old(image).width() as nat),
        ensures
            final(image).well_formed(),
            final(image).same_size(old(image)),
            self.mutates_grayscale(old(image), final(image)),
    ;
}

/// The pixels `before` with `color` in place of each whose position
/// `covered` holds of.
pub open spec fn painted(before: Seq<Pixel>, covered: spec_fn(int) -> bool, color: Pixel) -> Seq<
    Pixel,
> {
    Seq::new(
        before.len(),
        |k: int|
            if covered(k) {
                color
            } else {
                before[k]
            },
    )
}

/// Whether a colour can come out of the draw of a mutation: each channel
/// lies below its maximum.
pub open spec fn drawable(color: Pixel) -> bool {
    color.r < 255 && color.g < 255 && color.b < 255
}

/// A row and a column in range name one position of the image, and the
/// position names them back.
pub proof fn position_of_cell(row: int, column: int, height: int, width: int)
    requires
        0 <= row < height,
        0 <= column < width,
    ensures
        0 <= row * width + column < height * width,
        (row * width + column) / width == row,
        (row * width + column) % width == column,
{
    assert(row * width + column < height * width) by (nonlinear_arith)
        requires
            0 <= row < height,
            0 <= column < width,
    ;
    assert(0 <= row * width) by (nonlinear_arith)
        requires
            0 <= row,
            0 <= width,
    ;
    vstd::arithmetic::div_mod::lemma_fundamental_div_mod_converse(
        row * width + column,
        width,
        row,
        column,
    );
}

/// A position is the one that its row and column name.
pub proof fn cell_of_position(position: int, width: int)
    requires
        0 <= position,
        0 < width,
    ensures
        position == (position / width) * width + position % width,
        0 <= position % width < width,
{
    vstd::arithmetic::div_mod::lemma_fundamental_div_mod(position, width);
    assert(width * (position / width) == (position / width) * width) by (nonlinear_arith);
    vstd::arithmetic::div_mod::lemma_mod_pos_bound(position, width);
}

} // verus!
