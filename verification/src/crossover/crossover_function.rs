use vstd::prelude::*;

use crate::models::Image;

verus! {

/// A way to breed two specimens of one size into a new one of that size.
///
/// `breeds` says which child a function in the state `self` may give for two
/// parents, and in which state `after` that leaves it. A strategy that gives
/// `breeds` no body leaves its children unnamed.
pub trait CrossoverFunction: Send {
    open spec fn breeds(&self, after: &Self, first: &Image, second: &Image, child: &Image) -> bool {
        arbitrary()
    }

    /// A new image bred from two images. A strategy may leave either parent,
    /// or both, out of account.
    fn crossover(&mut self, first_image: &Image, second_image: &Image) -> (child: Image)
        requires
            first_image.well_formed(),
            second_image.well_formed(),
            first_image.same_size(second_image),
        ensures
            child.well_formed(),
            child.same_size(first_image),
            old(self).breeds(final(self), first_image, second_image, &child),
    ;
}

} // verus!
