//! The population of a run: its members, how many of them survive a
//! generation, and how the survivors are picked.

use vstd::prelude::*;

use crate::crossover::CrossoverFunction;
use crate::models::{Image, Pixel};
use crate::util::random::distinct_positions;
use crate::util::Random;

verus! {

/// The score of a specimen that has not been scored yet: the highest there
/// is, so that every scored specimen ranks before it or beside it.
pub const UNEVALUATED: usize = usize::MAX;

/// One member of the population: an image and its score, where a lower score
/// is a better one.
#[derive(Debug)]
pub struct Candidate {
    pub image: Image,
    pub score: usize,
}

/// The number of specimens that survive a generation of the given size: two
/// of fewer than a hundred, else one in fifty.
pub open spec fn best_size(generation_size: nat) -> nat {
    if generation_size >= 100 {
        generation_size / 50
    } else {
        2
    }
}

/// The number of specimens that survive a generation of the given size.
pub fn get_best_size(generation_size: usize) -> (survivors: usize)
    requires
        generation_size > 2,
    ensures
        survivors == best_size(generation_size as nat),
        2 <= survivors < generation_size,
{
    if generation_size >= 100 {
        generation_size / 50
    } else {
        2
    }
}

/// Whether every specimen is a well-formed image of the given size.
pub open spec fn all_sized(generation: Seq<Candidate>, height: usize, width: usize) -> bool {
    forall|i: int|
        0 <= i < generation.len() ==> {
            &&& (#[trigger] generation[i]).image.well_formed()
            &&& generation[i].image.spec_height() == height
            &&& generation[i].image.spec_width() == width
        }
}

/// Whether every specimen is a well-formed image of the size of the first.
pub open spec fn same_sized(generation: Seq<Candidate>) -> bool {
    all_sized(generation, generation[0].image.spec_height(), generation[0].image.spec_width())
}

/// Whether the specimen is an unscored white image of the given size.
pub open spec fn is_blank(candidate: Candidate, height: usize, width: usize) -> bool {
    &&& candidate.score == UNEVALUATED
    &&& candidate.image.well_formed()
    &&& candidate.image.spec_height() == height
    &&& candidate.image.spec_width() == width
    &&& candidate.image@ == Seq::new(
        (height * width) as nat,
        |i: int| Pixel { r: 255, g: 255, b: 255 },
    )
}

/// The population a run starts from: `vec_len` white images of the given
/// size, none of them scored.
pub fn get_first_generation(vec_len: usize, image_height: usize, image_width: usize) -> (generation:
    Vec<Candidate>)
    requires
        image_height * image_width <= usize::MAX,
    ensures
        generation@.len() == vec_len,
        forall|i: int|
            0 <= i < vec_len ==> is_blank(#[trigger] generation@[i], image_height, image_width),
{
    let mut vec: Vec<Candidate> = Vec::new();

    let pixel: Pixel = Pixel::white();

    let mut count: usize = 0;
    while count < vec_len
        invariant
            count <= vec_len,
            vec@.len() == count,
            image_height * image_width <= usize::MAX,
            pixel == (Pixel { r: 255, g: 255, b: 255 }),
            forall|i: int| 0 <= i < count ==> is_blank(#[trigger] vec@[i], image_height, image_width),
        decreases vec_len - count,
    {
        let image: Image = Image::blank(image_height, image_width, &pixel);
        assert(image@ =~= Seq::new(
            (image_height * image_width) as nat,
            |i: int| Pixel { r: 255, g: 255, b: 255 },
        ));
        vec.push(Candidate { image, score: UNEVALUATED });
        count += 1;
    }

    vec
}

/// Whether `order` and `place` rearrange `len` positions: `order` says which
/// old position each new one takes its item from, `place` says where each old
/// position's item goes, and each undoes the other.
pub open spec fn is_rearrangement(order: Seq<int>, place: Seq<int>, len: nat) -> bool {
    &&& order.len() == len
    &&& place.len() == len
    &&& forall|i: int|
        0 <= i < len ==> 0 <= #[trigger] order[i] < len && place[order[i]] == i
    &&& forall|k: int|
        0 <= k < len ==> 0 <= #[trigger] place[k] < len && order[place[k]] == k
}

/// Whether the specimen at the old position `a` ranks before the one at the
/// old position `b`: by its lower score, or at equal scores by standing
/// first.
pub open spec fn ranks_before(before: Seq<Candidate>, a: int, b: int) -> bool {
    before[a].score < before[b].score || (before[a].score == before[b].score && a < b)
}

/// Whether `order` sorts `before` into `after` by ascending score, specimens
/// of equal score keeping their order.
pub open spec fn sorts_stably(
    before: Seq<Candidate>,
    after: Seq<Candidate>,
    order: Seq<int>,
    place: Seq<int>,
) -> bool {
    &&& after.len() == before.len()
    &&& is_rearrangement(order, place, before.len())
    &&& forall|i: int| 0 <= i < after.len() ==> #[trigger] after[i] == before[order[i]]
    &&& forall|i: int, j: int|
        0 <= i < j < after.len() ==> ranks_before(before, #[trigger] order[i], #[trigger] order[j])
}

/// Whether `after` is `before` sorted by ascending score, specimens of equal
/// score keeping their order.
pub open spec fn is_stable_sort_of(before: Seq<Candidate>, after: Seq<Candidate>) -> bool {
    exists|order: Seq<int>, place: Seq<int>| sorts_stably(before, after, order, place)
}

/// Whether the scores never fall from one specimen to the next.
pub open spec fn is_ascending(generation: Seq<Candidate>) -> bool {
    forall|i: int, j: int|
        0 <= i <= j < generation.len() ==> (#[trigger] generation[i]).score <= (
        #[trigger] generation[j]).score
}

/// Whether no specimen has a lower score than the first.
pub open spec fn first_is_best(generation: Seq<Candidate>) -> bool {
    forall|i: int|
        0 <= i < generation.len() ==> generation[0].score <= (#[trigger] generation[i]).score
}

/// The lowest score in the population; the score of an unscored specimen
/// where the population is empty.
pub open spec fn lowest_score(generation: Seq<Candidate>) -> int
    decreases generation.len(),
{
    if generation.len() == 0 {
        UNEVALUATED as int
    } else {
        let rest: int = lowest_score(generation.drop_last());
        if generation.last().score < rest {
            generation.last().score as int
        } else {
            rest
        }
    }
}

/// No specimen scores below the lowest score.
pub proof fn lowest_score_is_lowest(generation: Seq<Candidate>, i: int)
    requires
        0 <= i < generation.len(),
    ensures
        lowest_score(generation) <= generation[i].score,
    decreases generation.len(),
{
    if i < generation.len() - 1 {
        lowest_score_is_lowest(generation.drop_last(), i);
    }
}

/// The lowest score of a population that is not empty is the score of one
/// of its specimens.
pub proof fn lowest_score_reached(generation: Seq<Candidate>)
    requires
        generation.len() > 0,
    ensures
        exists|i: int| 0 <= i < generation.len() && lowest_score(generation) == (
        #[trigger] generation[i]).score,
    decreases generation.len(),
{
    let shorter: Seq<Candidate> = generation.drop_last();
    if generation.last().score < lowest_score(shorter) {
        assert(generation[generation.len() - 1].score == lowest_score(generation));
    } else if shorter.len() > 0 {
        lowest_score_reached(shorter);
        let i: int = choose|i: int|
            0 <= i < shorter.len() && lowest_score(shorter) == (#[trigger] shorter[i]).score;
        assert(generation[i] == shorter[i]);
    } else {
        assert(lowest_score(shorter) == UNEVALUATED);
        assert(generation[generation.len() - 1].score == lowest_score(generation));
    }
}

/// Where the first specimen is the best, its score is the lowest.
pub proof fn lowest_score_of_ranked(generation: Seq<Candidate>)
    requires
        generation.len() > 0,
        first_is_best(generation),
    ensures
        lowest_score(generation) == generation[0].score,
    decreases generation.len(),
{
    lowest_score_is_lowest(generation, 0);
    if generation.len() > 1 {
        let shorter: Seq<Candidate> = generation.drop_last();
        assert forall|i: int| 0 <= i < shorter.len() implies shorter[0].score <= (
        #[trigger] shorter[i]).score by {
            assert(shorter[i] == generation[i]);
        }
        lowest_score_of_ranked(shorter);
        assert(shorter[0] == generation[0]);
        assert(generation[0].score <= generation[generation.len() - 1].score);
    } else {
        assert(generation.drop_last().len() == 0);
        assert(lowest_score(generation.drop_last()) == UNEVALUATED);
        assert(generation.last() == generation[0]);
    }
}

/// A stable sort leaves a specimen first that no other comes before: one
/// that stood first and that no other beats.
pub proof fn stable_sort_keeps_unbeaten_first(before: Seq<Candidate>, after: Seq<Candidate>)
    requires
        before.len() > 0,
        is_stable_sort_of(before, after),
        first_is_best(before),
    ensures
        after[0] == before[0],
{
    let (order, place) = choose|order: Seq<int>, place: Seq<int>|
        sorts_stably(before, after, order, place);
    let j: int = place[0];
    assert(order[j] == 0);
    if j > 0 {
        assert(ranks_before(before, order[0], order[j]));
        assert(before[0].score <= before[order[0]].score);
    }
    assert(after[0] == before[order[0]]);
}

/// A stable sort is in ascending order, and its first specimen has the
/// lowest score that there was.
pub proof fn stable_sort_puts_best_first(before: Seq<Candidate>, after: Seq<Candidate>)
    requires
        is_stable_sort_of(before, after),
    ensures
        is_ascending(after),
        forall|k: int|
            0 <= k < before.len() ==> after[0].score <= (#[trigger] before[k]).score,
{
    let (order, place) = choose|order: Seq<int>, place: Seq<int>|
        sorts_stably(before, after, order, place);
    assert forall|i: int, j: int| 0 <= i <= j < after.len() implies (#[trigger] after[i]).score <= (
    #[trigger] after[j]).score by {
        if i < j {
            assert(ranks_before(before, order[i], order[j]));
        }
    }
    assert forall|k: int| 0 <= k < before.len() implies after[0].score <= (
    #[trigger] before[k]).score by {
        let i: int = place[k];
        assert(order[i] == k);
        assert(after[i] == before[order[i]]);
        assert(after[0].score <= after[i].score);
    }
}

/// Sorts the population by ascending score; specimens of equal score keep
/// their order.
pub fn sort_by_score(generation: &mut Vec<Candidate>)
    ensures
        is_stable_sort_of(old(generation)@, final(generation)@),
{
    let ghost before: Seq<Candidate> = generation@;
    let ghost mut order: Seq<int> = Seq::empty();
    let ghost mut place: Seq<int> = Seq::empty();
    let mut sorted: Vec<Candidate> = Vec::new();
    let mut taken: usize = 0;
    let total: usize = generation.len();

    while generation.len() > 0
        invariant
            taken <= total,
            total == before.len(),
            generation@ == before.skip(taken as int),
            sorted@.len() == taken,
            is_rearrangement(order, place, taken as nat),
            forall|i: int| 0 <= i < taken ==> #[trigger] sorted@[i] == before[order[i]],
            forall|i: int, j: int|
                0 <= i < j < taken ==> ranks_before(
                    before,
                    #[trigger] order[i],
                    #[trigger] order[j],
                ),
        decreases generation@.len(),
    {
        let entry: Candidate = generation.remove(0);
        assert(entry == before[taken as int]);
        assert(generation@ =~= before.skip(taken + 1));

        let mut position: usize = sorted.len();
        while position > 0 && sorted[position - 1].score > entry.score
            invariant
                position <= sorted@.len(),
                sorted@.len() == taken,
                taken < before.len(),
                entry == before[taken as int],
                forall|i: int| 0 <= i < taken ==> #[trigger] sorted@[i] == before[order[i]],
                forall|i: int|
                    position <= i < taken ==> (#[trigger] sorted@[i]).score > entry.score,
            decreases position,
        {
            position -= 1;
        }

        let ghost old_order: Seq<int> = order;
        let ghost old_place: Seq<int> = place;
        let ghost old_sorted: Seq<Candidate> = sorted@;
        sorted.insert(position, entry);
        proof {
            order = old_order.insert(position as int, taken as int);
            place = Seq::new(
                (taken + 1) as nat,
                |k: int|
                    if k == taken {
                        position as int
                    } else if old_place[k] < position {
                        old_place[k]
                    } else {
                        old_place[k] + 1
                    },
            );
            assert forall|i: int| 0 <= i < taken + 1 implies 0 <= #[trigger] order[i] < taken + 1
                && place[order[i]] == i by {
                if i < position {
                    assert(order[i] == old_order[i]);
                } else if i > position {
                    assert(order[i] == old_order[i - 1]);
                }
            }
            assert forall|k: int| 0 <= k < taken + 1 implies 0 <= #[trigger] place[k] < taken + 1
                && order[place[k]] == k by {
                if k < taken {
                    assert(0 <= old_place[k] < taken && old_order[old_place[k]] == k);
                }
            }
            assert forall|i: int| 0 <= i < taken + 1 implies #[trigger] sorted@[i] == before[order[i]] by {
                if i < position {
                    assert(sorted@[i] == old_sorted[i]);
                } else if i > position {
                    assert(sorted@[i] == old_sorted[i - 1]);
                }
            }
            assert forall|i: int, j: int| 0 <= i < j < taken + 1 implies ranks_before(
                before,
                #[trigger] order[i],
                #[trigger] order[j],
            ) by {
                if j < position {
                    assert(order[i] == old_order[i] && order[j] == old_order[j]);
                } else if j == position {
                    assert(order[i] == old_order[i]);
                    if position > 0 {
                        assert(old_sorted[position - 1] == before[old_order[position - 1]]);
                        if i < position - 1 {
                            assert(ranks_before(before, old_order[i], old_order[position - 1]));
                        }
                    }
                    assert(old_sorted[i] == before[old_order[i]]);
                } else if i < position {
                    assert(order[i] == old_order[i] && order[j] == old_order[j - 1]);
                } else if i == position {
                    assert(order[j] == old_order[j - 1]);
                    assert(old_sorted[j - 1] == before[old_order[j - 1]]);
                } else {
                    assert(order[i] == old_order[i - 1] && order[j] == old_order[j - 1]);
                }
            }
        }
        taken += 1;
    }
    *generation = sorted;
    proof {
        assert(before.skip(taken as int).len() == 0);
        assert(sorts_stably(before, generation@, order, place));
    }
}

/// Whether `after` holds the best `survivors` specimens of `before`, best
/// first, specimens of equal score in the order they had; all of them where
/// there are no more than `survivors`.
pub open spec fn selects(before: Seq<Candidate>, after: Seq<Candidate>, survivors: nat) -> bool {
    exists|sorted: Seq<Candidate>|
        {
            &&& #[trigger] is_stable_sort_of(before, sorted)
            &&& after == if survivors <= sorted.len() {
                sorted.take(survivors as int)
            } else {
                sorted
            }
        }
}

/// What a selection keeps is in ascending order, begins with the best
/// specimen that there was, and is made of specimens that there were.
pub proof fn selection_keeps_best(before: Seq<Candidate>, after: Seq<Candidate>, survivors: nat)
    requires
        selects(before, after, survivors),
    ensures
        is_ascending(after),
        after.len() == if survivors <= before.len() {
            survivors
        } else {
            before.len()
        },
        after.len() > 0 ==> forall|k: int|
            0 <= k < before.len() ==> after[0].score <= (#[trigger] before[k]).score,
        forall|i: int| 0 <= i < after.len() ==> before.contains(#[trigger] after[i]),
{
    let sorted: Seq<Candidate> = choose|sorted: Seq<Candidate>|
        {
            &&& #[trigger] is_stable_sort_of(before, sorted)
            &&& after == if survivors <= sorted.len() {
                sorted.take(survivors as int)
            } else {
                sorted
            }
        };
    stable_sort_puts_best_first(before, sorted);
    let (order, place) = choose|order: Seq<int>, place: Seq<int>|
        sorts_stably(before, sorted, order, place);
    assert forall|i: int| 0 <= i < after.len() implies before.contains(#[trigger] after[i]) by {
        assert(sorted[i] == before[order[i]]);
    }
    assert forall|i: int, j: int| 0 <= i <= j < after.len() implies (#[trigger] after[i]).score <= (
    #[trigger] after[j]).score by {
        assert(sorted[i].score <= sorted[j].score);
    }
}

/// Sorts the population by ascending score, specimens of equal score keeping
/// their order, and lets only the first `survivors` of them stand.
pub fn select(generation: &mut Vec<Candidate>, survivors: usize)
    ensures
        selects(old(generation)@, final(generation)@, survivors as nat),
{
    sort_by_score(generation);
    let ghost sorted: Seq<Candidate> = generation@;
    generation.truncate(survivors);
    assert(is_stable_sort_of(old(generation)@, sorted));
}

/// Whether `child` is an unscored specimen that a crossover function in the
/// state `state` may breed, ending in the state `next`, from two of the
/// survivors that stand at different positions.
pub open spec fn is_offspring<C: CrossoverFunction>(
    state: &C,
    next: &C,
    survivors: Seq<Candidate>,
    child: &Candidate,
) -> bool {
    &&& child.score == UNEVALUATED
    &&& exists|a: int, b: int|
        {
            &&& 0 <= a < survivors.len()
            &&& 0 <= b < survivors.len()
            &&& a != b
            &&& #[trigger] state.breeds(
                next,
                &survivors[a].image,
                &survivors[b].image,
                &child.image,
            )
        }
}

/// Whether the crossover function, on its way through `states`, may breed
/// each of `children` in turn from the survivors.
pub open spec fn are_offspring<C: CrossoverFunction>(
    states: Seq<C>,
    survivors: Seq<Candidate>,
    children: Seq<Candidate>,
) -> bool {
    &&& states.len() == children.len() + 1
    &&& forall|j: int|
        0 <= j < children.len() ==> is_offspring(
            &states[j],
            &states[j + 1],
            survivors,
            &#[trigger] children[j],
        )
}

/// Whether `after` is the survivors followed by as many children as fill
/// the population up to `size`, bred one after the other by a crossover
/// function that starts in the state `first` and ends in the state `last`.
pub open spec fn breeds_generation<C: CrossoverFunction>(
    first: C,
    last: C,
    survivors: Seq<Candidate>,
    after: Seq<Candidate>,
    size: nat,
) -> bool {
    &&& after.len() == size
    &&& survivors.len() <= size
    &&& after.take(survivors.len() as int) == survivors
    &&& exists|states: Seq<C>|
        {
            &&& #[trigger] are_offspring(states, survivors, after.skip(survivors.len() as int))
            &&& states[0] == first
            &&& states.last() == last
        }
}

/// A population that was bred back to its size begins with the survivors,
/// and what follows them is not scored.
pub proof fn bred_generation_shape<C: CrossoverFunction>(
    first: C,
    last: C,
    survivors: Seq<Candidate>,
    after: Seq<Candidate>,
    size: nat,
)
    requires
        breeds_generation(first, last, survivors, after, size),
    ensures
        after.len() == size,
        forall|i: int| 0 <= i < survivors.len() ==> #[trigger] after[i] == survivors[i],
        forall|i: int| survivors.len() <= i < size ==> (#[trigger] after[i]).score == UNEVALUATED,
{
    let count: int = survivors.len() as int;
    let children: Seq<Candidate> = after.skip(count);
    let states: Seq<C> = choose|states: Seq<C>|
        {
            &&& #[trigger] are_offspring(states, survivors, children)
            &&& states[0] == first
            &&& states.last() == last
        };
    assert forall|i: int| 0 <= i < count implies #[trigger] after[i] == survivors[i] by {
        assert(after.take(count)[i] == after[i]);
    }
    assert forall|i: int| count <= i < size implies (#[trigger] after[i]).score == UNEVALUATED by {
        assert(children[i - count] == after[i]);
        assert(is_offspring(&states[i - count], &states[i - count + 1], survivors, &children[i - count]));
    }
}

/// Whether `after` is what selection and breeding make of `evaluated`: the
/// best `survivors` specimens of it, followed by as many children of theirs
/// as bring the population back to its size.
pub open spec fn settles<C: CrossoverFunction>(
    survivors: nat,
    first: C,
    last: C,
    evaluated: Seq<Candidate>,
    after: Seq<Candidate>,
) -> bool {
    exists|selected: Seq<Candidate>|
        {
            &&& #[trigger] selects(evaluated, selected, survivors)
            &&& breeds_generation(first, last, selected, after, evaluated.len())
        }
}

/// Selection and breeding leave the population at its size, with its best
/// specimen first: no specimen that went in, and none that comes out,
/// scores below the first that comes out.
pub proof fn settled_population_puts_best_first<C: CrossoverFunction>(
    survivors: nat,
    first: C,
    last: C,
    evaluated: Seq<Candidate>,
    after: Seq<Candidate>,
)
    requires
        survivors >= 1,
        evaluated.len() >= 1,
        settles(survivors, first, last, evaluated, after),
    ensures
        after.len() == evaluated.len(),
        first_is_best(after),
        forall|k: int| 0 <= k < evaluated.len() ==> after[0].score <= (#[trigger] evaluated[k]).score,
        lowest_score(after) == after[0].score,
        lowest_score(after) <= lowest_score(evaluated),
        evaluated.contains(after[0]),
{
    let selected: Seq<Candidate> = choose|selected: Seq<Candidate>|
        {
            &&& #[trigger] selects(evaluated, selected, survivors)
            &&& breeds_generation(first, last, selected, after, evaluated.len())
        };
    selection_keeps_best(evaluated, selected, survivors);
    bred_generation_shape(first, last, selected, after, evaluated.len());
    assert(after[0] == selected[0]);
    assert forall|i: int| 0 <= i < after.len() implies after[0].score <= (#[trigger] after[i]).score by {
        if i < selected.len() {
            assert(selected[0].score <= selected[i].score);
        }
    }
    lowest_score_of_ranked(after);
    lowest_score_reached(evaluated);
}

/// Selection and breeding leave a first specimen first that no other beats.
pub proof fn settled_population_keeps_unbeaten_first<C: CrossoverFunction>(
    survivors: nat,
    first: C,
    last: C,
    evaluated: Seq<Candidate>,
    after: Seq<Candidate>,
)
    requires
        survivors >= 1,
        evaluated.len() >= 1,
        first_is_best(evaluated),
        settles(survivors, first, last, evaluated, after),
    ensures
        after[0] == evaluated[0],
{
    let selected: Seq<Candidate> = choose|selected: Seq<Candidate>|
        {
            &&& #[trigger] selects(evaluated, selected, survivors)
            &&& breeds_generation(first, last, selected, after, evaluated.len())
        };
    let sorted: Seq<Candidate> = choose|sorted: Seq<Candidate>|
        {
            &&& #[trigger] is_stable_sort_of(evaluated, sorted)
            &&& selected == if survivors <= sorted.len() {
                sorted.take(survivors as int)
            } else {
                sorted
            }
        };
    stable_sort_keeps_unbeaten_first(evaluated, sorted);
    selection_keeps_best(evaluated, selected, survivors);
    bred_generation_shape(first, last, selected, after, evaluated.len());
    assert(after[0] == selected[0]);
    assert(selected[0] == sorted[0]);
}

/// Fills the population up to `generation_size`: each new specimen is bred
/// from two of the survivors, drawn at random from different positions, and
/// is not scored yet.
pub fn breed<C: CrossoverFunction>(
    generation: &mut Vec<Candidate>,
    crossover: &mut C,
    random: &mut Random,
    generation_size: usize,
)
    requires
        2 <= old(generation)@.len() <= generation_size,
        same_sized(old(generation)@),
    ensures
        breeds_generation(
            *old(crossover),
            *final(crossover),
            old(generation)@,
            final(generation)@,
            generation_size as nat,
        ),
        same_sized(final(generation)@),
{
    let ghost survivors: Seq<Candidate> = generation@;
    let ghost height: usize = survivors[0].image.spec_height();
    let ghost width: usize = survivors[0].image.spec_width();
    let ghost mut states: Seq<C> = seq![*crossover];
    let mut offspring: Vec<Candidate> = Vec::new();
    let missing: usize = generation_size - generation.len();

    let mut count: usize = 0;
    while count < missing
        invariant
            count <= missing,
            missing == generation_size - survivors.len(),
            generation@ == survivors,
            survivors.len() >= 2,
            all_sized(survivors, height, width),
            all_sized(offspring@, height, width),
            offspring@.len() == count,
            are_offspring(states, survivors, offspring@),
            states[0] == *old(crossover),
            states.last() == *crossover,
        decreases missing - count,
    {
        let parents: Vec<&Candidate> = random.choose_multiple(generation, 2);
        let ghost indices: Seq<int> = choose|indices: Seq<int>|
            {
                &&& indices.len() == parents@.len()
                &&& distinct_positions(indices, generation@.len())
                &&& forall|k: int|
                    0 <= k < parents@.len() ==> *#[trigger] parents@[k] == generation@[indices[k]]
            };
        assert(*parents@[0] == survivors[indices[0]]);
        assert(*parents@[1] == survivors[indices[1]]);
        assert(indices[0] != indices[1]);

        let ghost state: C = *crossover;
        let new_image: Image = crossover.crossover(&parents[0].image, &parents[1].image);
        let child: Candidate = Candidate { image: new_image, score: UNEVALUATED };
        proof {
            assert(state.breeds(
                &*crossover,
                &survivors[indices[0]].image,
                &survivors[indices[1]].image,
                &child.image,
            ));
            assert(is_offspring(&state, &*crossover, survivors, &child));
            let ghost old_states: Seq<C> = states;
            states = states.push(*crossover);
            assert forall|j: int| 0 <= j < count + 1 implies is_offspring(
                &states[j],
                &states[j + 1],
                survivors,
                &#[trigger] offspring@.push(child)[j],
            ) by {
                if j < count {
                    assert(states[j] == old_states[j] && states[j + 1] == old_states[j + 1]);
                    assert(is_offspring(
                        &old_states[j],
                        &old_states[j + 1],
                        survivors,
                        &offspring@[j],
                    ));
                }
            }
        }
        offspring.push(child);
        count += 1;
    }

    let ghost children: Seq<Candidate> = offspring@;
    generation.append(&mut offspring);
    proof {
        assert(generation@.take(survivors.len() as int) =~= survivors);
        assert(generation@.skip(survivors.len() as int) =~= children);
        assert(generation@[0] == survivors[0]);
    }
}

} // verus!
