use rand::distributions::{Distribution, Uniform};
use rand::seq::SliceRandom;
use rand::SeedableRng;
use vstd::prelude::*;

verus! {

/// `rand`'s `StdRng`: a generator of random numbers, of whose state nothing
/// is known.
#[verifier::external_type_specification]
#[verifier::external_body]
pub struct ExStdRng(rand::rngs::StdRng);

/// The source of the random choices of a run.
pub struct Random {
    rng: rand::rngs::StdRng,
}

/// `rand`'s `StdRng::from_entropy`: a generator seeded by the operating
/// system. Nothing is claimed of the generator; the call panics where the
/// system cannot supply entropy.
#[verifier::external_body]
fn entropy_rng() -> rand::rngs::StdRng {
    rand::rngs::StdRng::from_entropy()
}

/// Whether `indices` names positions of a sequence of length `len`, each at
/// most once.
pub open spec fn distinct_positions(indices: Seq<int>, len: nat) -> bool {
    &&& forall|k: int| 0 <= k < indices.len() ==> 0 <= #[trigger] indices[k] < len
    &&& forall|j: int, k: int|
        0 <= j < k < indices.len() ==> #[trigger] indices[j] != #[trigger] indices[k]
}

/// Whether the items of `chosen` stand in `items` at positions that are all
/// different, the first at one, the second at another, and so on.
pub open spec fn drawn_from<T>(chosen: Seq<&T>, items: Seq<T>) -> bool {
    exists|indices: Seq<int>|
        {
            &&& indices.len() == chosen.len()
            &&& distinct_positions(indices, items.len())
            &&& forall|k: int| 0 <= k < chosen.len() ==> *#[trigger] chosen[k] == items[indices[k]]
        }
}

impl Random {
    /// `rand`'s `Uniform::new(min, max)` sampled once: the range must not be
    /// empty, and the value lies in it, `min` included and `max` excluded.
    #[verifier::external_body]
    pub(crate) fn get_random(&mut self, min: u64, max: u64) -> (value: u64)
        requires
            min < max,
        ensures
            min <= value < max,
    {
        Uniform::new(min, max).sample(&mut self.rng)
    }

    /// `rand`'s `SliceRandom::choose_multiple` on the items of a vector: it
    /// hands out `amount` of them, or all where there are fewer, taken from
    /// positions that are all different, in no promised order.
    #[verifier::external_body]
    pub(crate) fn choose_multiple<'a, T>(&mut self, items: &'a Vec<T>, amount: usize) -> (chosen:
        Vec<&'a T>)
        ensures
            chosen@.len() == if amount <= items@.len() {
                amount as nat
            } else {
                items@.len()
            },
            drawn_from(chosen@, items@),
    {
        items.choose_multiple(&mut self.rng, amount).collect()
    }
}

impl Default for Random {
    /// A source seeded by the operating system.
    fn default() -> Self {
        Random { rng: entropy_rng() }
    }
}

} // verus!
