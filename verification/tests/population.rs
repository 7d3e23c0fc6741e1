use franklin::crossover::{ArithmeticAverageCrossover, EqualHalfsCrossover, LeftOrRightCloneCrossover};
use franklin::population::{
    breed, get_best_size, get_first_generation, select, sort_by_score, Candidate, UNEVALUATED,
};
use franklin::util::Random;
use franklin::{Image, Pixel};

fn candidate(tag: u8, score: usize) -> Candidate {
    Candidate { image: Image::blank(1, 2, &Pixel::grayscale(tag)), score }
}

fn tags_and_scores(generation: &Vec<Candidate>) -> Vec<(u8, usize)> {
    generation.iter().map(|c| (c.image.pixel(0).get_r(), c.score)).collect()
}

#[test]
fn best_size_of_three_is_two() {
    assert_eq!(2, get_best_size(3));
}

#[test]
fn best_size_below_a_hundred_is_two() {
    assert_eq!(2, get_best_size(4));
    assert_eq!(2, get_best_size(50));
    assert_eq!(2, get_best_size(99));
}

#[test]
fn best_size_from_a_hundred_on_is_a_fiftieth() {
    assert_eq!(2, get_best_size(100));
    assert_eq!(2, get_best_size(149));
    assert_eq!(3, get_best_size(150));
    assert_eq!(3, get_best_size(199));
    assert_eq!(4, get_best_size(200));
    assert_eq!(100, get_best_size(5000));
}

#[test]
fn first_generation_is_white_and_unscored() {
    let generation = get_first_generation(4, 2, 3);
    assert_eq!(4, generation.len());
    for specimen in &generation {
        assert_eq!(usize::MAX, specimen.score);
        assert_eq!(UNEVALUATED, specimen.score);
        assert_eq!(2, specimen.image.height());
        assert_eq!(3, specimen.image.width());
        assert_eq!(&vec![Pixel::white(); 6], specimen.image.pixels());
    }
}

#[test]
fn first_generation_of_no_specimens_is_empty() {
    assert_eq!(0, get_first_generation(0, 2, 2).len());
}

#[test]
fn sort_by_score_is_ascending_and_stable() {
    let mut generation = vec![
        candidate(1, 7),
        candidate(2, 3),
        candidate(3, 7),
        candidate(4, UNEVALUATED),
        candidate(5, 3),
        candidate(6, 0),
        candidate(7, 7),
    ];
    sort_by_score(&mut generation);
    assert_eq!(
        vec![(6, 0), (2, 3), (5, 3), (1, 7), (3, 7), (7, 7), (4, UNEVALUATED)],
        tags_and_scores(&generation)
    );
}

#[test]
fn sort_by_score_leaves_equal_scores_as_they_stand() {
    let mut generation = vec![candidate(1, 5), candidate(2, 5), candidate(3, 5)];
    sort_by_score(&mut generation);
    assert_eq!(vec![(1, 5), (2, 5), (3, 5)], tags_and_scores(&generation));
    let mut empty: Vec<Candidate> = Vec::new();
    sort_by_score(&mut empty);
    assert!(empty.is_empty());
}

#[test]
fn select_keeps_the_best_in_order() {
    let mut generation =
        vec![candidate(1, 9), candidate(2, 4), candidate(3, 6), candidate(4, 4), candidate(5, 1)];
    select(&mut generation, 3);
    assert_eq!(vec![(5, 1), (2, 4), (4, 4)], tags_and_scores(&generation));
}

#[test]
fn select_of_more_than_there_are_keeps_all() {
    let mut generation = vec![candidate(1, 9), candidate(2, 4)];
    select(&mut generation, 5);
    assert_eq!(vec![(2, 4), (1, 9)], tags_and_scores(&generation));
}

#[test]
fn breed_fills_the_population_behind_the_survivors() {
    let mut generation = vec![candidate(10, 1), candidate(20, 2), candidate(30, 3)];
    let mut crossover = EqualHalfsCrossover;
    let mut random = Random::default();
    breed(&mut generation, &mut crossover, &mut random, 40);
    assert_eq!(40, generation.len());
    assert_eq!(vec![(10, 1), (20, 2), (30, 3)], tags_and_scores(&generation)[..3].to_vec());
    for child in &generation[3..] {
        assert_eq!(UNEVALUATED, child.score);
        assert_eq!(1, child.image.height());
        assert_eq!(2, child.image.width());
        let left = child.image.pixel(0).get_r();
        let right = child.image.pixel(1).get_r();
        assert!([10, 20, 30].contains(&left));
        assert!([10, 20, 30].contains(&right));
        assert_ne!(left, right);
    }
}

#[test]
fn breed_draws_its_parents_from_different_places_each_time() {
    let mut generation = vec![candidate(0, 1), candidate(200, 2)];
    let mut crossover = ArithmeticAverageCrossover;
    let mut random = Random::default();
    breed(&mut generation, &mut crossover, &mut random, 60);
    assert_eq!(60, generation.len());
    for child in &generation[2..] {
        assert_eq!(&vec![Pixel::grayscale(100); 2], child.image.pixels());
    }
}

#[test]
fn breed_draws_different_parents_from_draw_to_draw() {
    let mut generation =
        vec![candidate(1, 1), candidate(2, 2), candidate(3, 3), candidate(4, 4), candidate(5, 5)];
    let mut crossover = LeftOrRightCloneCrossover::default();
    let mut random = Random::default();
    breed(&mut generation, &mut crossover, &mut random, 205);
    let mut seen: Vec<u8> = Vec::new();
    for child in &generation[5..] {
        let tag = child.image.pixel(0).get_r();
        assert!((1..=5).contains(&tag));
        if !seen.contains(&tag) {
            seen.push(tag);
        }
    }
    assert_eq!(5, seen.len());
}

#[test]
fn breed_of_a_full_population_adds_nothing() {
    let mut generation = vec![candidate(1, 1), candidate(2, 2)];
    let mut crossover = EqualHalfsCrossover;
    let mut random = Random::default();
    breed(&mut generation, &mut crossover, &mut random, 2);
    assert_eq!(vec![(1, 1), (2, 2)], tags_and_scores(&generation));
}
