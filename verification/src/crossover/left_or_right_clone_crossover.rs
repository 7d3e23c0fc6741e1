use vstd::prelude::*;

use crate::crossover::crossover_function::CrossoverFunction;
use crate::models::Image;

verus! {

/// Breeds a specimen that is a copy of one of its parents: of the second at
/// the first call, of the first at the next, and so on in turn.
#[derive(Debug)]
pub struct LeftOrRightCloneCrossover {
    counter: usize,
}

impl LeftOrRightCloneCrossover {
    /// Whether the next child is a copy of the first parent.
    pub closed spec fn copies_first_next(&self) -> bool {
        self.counter % 2 == 1
    }
}

impl Default for LeftOrRightCloneCrossover {
    /// A function whose first child is a copy of the second parent.
    fn default() -> (crossover: Self)
        ensures
            !crossover.copies_first_next(),
    {
        LeftOrRightCloneCrossover { counter: 0 }
    }
}

impl CrossoverFunction for LeftOrRightCloneCrossover {
    open spec fn breeds(&self, after: &Self, first: &Image, second: &Image, child: &Image) -> bool {
        &&& after.copies_first_next() == !self.copies_first_next()
        &&& child@ == if self.copies_first_next() {
            first@
        } else {
            second@
        }
    }

    fn crossover(&mut self, first_image: &Image, second_image: &Image) -> (child: Image) {
        // The count only matters by its parity, which a wrap to zero keeps:
        // the machine's words come in an even number.
        assert(usize::MAX % 2 == 1) by {
            assert(usize::MAX == 0xffff_ffff || usize::MAX == 0xffff_ffff_ffff_ffff);
        }
        self.counter = if self.counter == usize::MAX {
            0
        } else {
            self.counter + 1
        };

        if self.counter % 2 == 0 {
            first_image.clone()
        } else {
            second_image.clone()
        }
    }
}

} // verus!
