use std::sync::Arc;

use franklin::fitness::{AbsoluteDistance, FitnessFunction, SquareDistance};
use franklin::job_context::JobContext;
use franklin::mutators::{CircleMutator, RectangleMutator};
use franklin::population::{Candidate, UNEVALUATED};
use franklin::{ColorMode, Image, Pixel};

fn target() -> Image {
    Image::new(
        2,
        2,
        vec![Pixel::new(1, 2, 3), Pixel::new(4, 5, 6), Pixel::new(7, 8, 9), Pixel::white()],
    )
}

#[test]
fn a_context_hands_out_what_it_was_made_of() {
    let context = JobContext::new(target(), RectangleMutator, SquareDistance, ColorMode::Grayscale);
    assert_eq!(target().pixels(), context.get_image().pixels());
    assert_eq!(2, context.get_image().height());
    assert_eq!(2, context.get_image().width());
    assert!(matches!(context.get_color_mode(), ColorMode::Grayscale));
    let image = Image::blank(2, 2, &Pixel::white());
    assert_eq!(
        SquareDistance.calculate_fitness_rgb(&target(), &image),
        context.get_fitness().calculate_fitness_rgb(&target(), &image)
    );
    let _mutator: &Arc<RectangleMutator> = context.get_mutator();
}

#[test]
fn a_copy_of_a_context_shares_the_image_and_the_strategies() {
    let context = JobContext::new(target(), CircleMutator, AbsoluteDistance, ColorMode::Rgb);
    let copy = context.clone();
    assert!(Arc::ptr_eq(context.get_image(), copy.get_image()));
    assert!(Arc::ptr_eq(context.get_mutator(), copy.get_mutator()));
    assert!(Arc::ptr_eq(context.get_fitness(), copy.get_fitness()));
    assert!(matches!(copy.get_color_mode(), ColorMode::Rgb));
    assert_eq!(2, Arc::strong_count(context.get_image()));
}

#[test]
fn evaluate_mutates_the_image_and_scores_it_in_rgb() {
    let context = JobContext::new(target(), RectangleMutator, AbsoluteDistance, ColorMode::Rgb);
    for _ in 0..50 {
        let entry =
            Candidate { image: Image::blank(2, 2, &Pixel::white()), score: UNEVALUATED };
        let evaluated = context.evaluate(entry);
        assert_eq!(2, evaluated.image.height());
        assert_eq!(2, evaluated.image.width());
        assert_ne!(&vec![Pixel::white(); 4], evaluated.image.pixels());
        assert_eq!(
            AbsoluteDistance.calculate_fitness_rgb(&target(), &evaluated.image),
            evaluated.score
        );
    }
}

#[test]
fn evaluate_mutates_the_image_and_scores_it_in_grayscale() {
    let context =
        JobContext::new(target(), RectangleMutator, SquareDistance, ColorMode::Grayscale);
    for _ in 0..50 {
        let entry = Candidate { image: Image::blank(2, 2, &Pixel::white()), score: 17 };
        let evaluated = context.evaluate(entry);
        assert!(evaluated.image.pixels().iter().all(|p| p.get_r() == p.get_g() && p.get_g() == p.get_b()));
        assert_eq!(
            SquareDistance.calculate_fitness_grayscale(&target(), &evaluated.image),
            evaluated.score
        );
    }
}
