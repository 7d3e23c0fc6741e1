use franklin::crossover::{EqualHalfsCrossover, LeftOrRightCloneCrossover};
use franklin::environment::Environment;
use franklin::fitness::{AbsoluteDistance, FitnessFunction, SquareDistance};
use franklin::job_context::JobContext;
use franklin::mutators::{CircleMutator, RectangleMutator};
use franklin::population::{Candidate, UNEVALUATED};
use franklin::{ColorMode, DisplayCondition, Image, ImageWriter, Pixel, SaveCondition};

type Run = Environment<RectangleMutator, SquareDistance, EqualHalfsCrossover>;

fn white(height: usize, width: usize) -> Image {
    Image::blank(height, width, &Pixel::white())
}

fn run_on(target: Image, generation_size: usize) -> Run {
    Environment::new(
        JobContext::new(target, RectangleMutator, SquareDistance, ColorMode::Rgb),
        generation_size,
        EqualHalfsCrossover,
        DisplayCondition::Never,
        ImageWriter::new(String::new(), String::from("output_")),
        SaveCondition::Never,
    )
}

fn scores(run: &Run) -> Vec<usize> {
    run.generation().iter().map(|specimen| specimen.score).collect()
}

#[test]
fn a_new_run_holds_unscored_white_specimens() {
    let run = run_on(white(2, 3), 5);
    assert_eq!(0, run.current_generation_number());
    assert_eq!(5, run.generation().len());
    for specimen in run.generation() {
        assert_eq!(UNEVALUATED, specimen.score);
        assert_eq!(&vec![Pixel::white(); 6], specimen.image.pixels());
        assert_eq!(2, specimen.image.height());
        assert_eq!(3, specimen.image.width());
    }
}

#[test]
fn the_population_keeps_its_size_through_every_generation() {
    for size in [3usize, 4, 10, 99, 100, 150] {
        let mut run = run_on(white(3, 3), size);
        for tick in 1..=5u32 {
            run = run.run_single_generation();
            assert_eq!(size, run.generation().len());
            assert_eq!(tick, run.current_generation_number());
        }
    }
}

#[test]
fn a_population_of_three_keeps_two_and_breeds_one() {
    let mut run = run_on(white(2, 2), 3);
    for _ in 0..10 {
        run = run.run_single_generation();
        let scores = scores(&run);
        assert_eq!(3, scores.len());
        assert!(scores[0] <= scores[1]);
        assert!(scores[1] < UNEVALUATED);
        assert_eq!(UNEVALUATED, scores[2]);
    }
}

#[test]
fn a_population_of_a_hundred_and_fifty_keeps_three() {
    let mut run = run_on(white(2, 2), 150);
    run = run.run_single_generation();
    let scores = scores(&run);
    assert!(scores[0] <= scores[1] && scores[1] <= scores[2]);
    assert!(scores[2] < UNEVALUATED);
    assert!(scores[3..].iter().all(|score| *score == UNEVALUATED));
}

#[test]
fn a_population_of_ninety_nine_keeps_two() {
    let mut run = run_on(white(2, 2), 99);
    run = run.run_single_generation();
    let scores = scores(&run);
    assert!(scores[1] < UNEVALUATED);
    assert!(scores[2..].iter().all(|score| *score == UNEVALUATED));
}

#[test]
fn the_best_score_never_rises() {
    let target = Image::new(
        2,
        2,
        vec![Pixel::new(10, 200, 30), Pixel::new(0, 0, 0), Pixel::white(), Pixel::new(90, 90, 90)],
    );
    let mut run = run_on(target, 12);
    let mut best = UNEVALUATED;
    for _ in 0..60 {
        run = run.run_single_generation();
        let scores = scores(&run);
        assert!(scores[0] <= best);
        assert_eq!(scores[0], *scores.iter().min().unwrap());
        best = scores[0];
    }
    assert!(best < UNEVALUATED);
}

#[test]
fn the_first_specimen_carries_the_score_of_its_image() {
    let target = Image::new(1, 2, vec![Pixel::new(10, 20, 30), Pixel::new(40, 50, 60)]);
    let mut run = run_on(target.clone(), 6);
    for _ in 0..20 {
        run = run.run_single_generation();
        let best = run.best_specimen();
        assert_eq!(SquareDistance.calculate_fitness_rgb(&target, &best.image), best.score);
    }
}

#[test]
fn mutate_generation_leaves_the_first_specimen_alone_and_scores_the_rest() {
    let target = white(3, 3);
    let run = run_on(target.clone(), 6).mutate_generation();
    assert_eq!(0, run.current_generation_number());
    let generation = run.generation();
    assert_eq!(6, generation.len());
    assert_eq!(UNEVALUATED, generation[0].score);
    assert_eq!(&vec![Pixel::white(); 9], generation[0].image.pixels());
    for specimen in &generation[1..] {
        assert_ne!(&vec![Pixel::white(); 9], specimen.image.pixels());
        assert_eq!(SquareDistance.calculate_fitness_rgb(&target, &specimen.image), specimen.score);
        assert!(specimen.score > 0);
    }
}

#[test]
fn grayscale_runs_score_by_the_red_channel() {
    let target = white(3, 3);
    let run = Environment::new(
        JobContext::new(target.clone(), CircleMutator, AbsoluteDistance, ColorMode::Grayscale),
        5,
        LeftOrRightCloneCrossover::default(),
        DisplayCondition::Never,
        ImageWriter::new(String::new(), String::new()),
        SaveCondition::Never,
    )
    .mutate_generation();
    for specimen in &run.generation()[1..] {
        assert!(specimen.image.pixels().iter().all(|p| p.get_r() == p.get_g() && p.get_g() == p.get_b()));
        assert_eq!(
            AbsoluteDistance.calculate_fitness_grayscale(&target, &specimen.image),
            specimen.score
        );
    }
}

#[test]
fn white_target_unscored_first_specimen_gives_way_to_scored_ones() {
    let mut run = run_on(white(2, 2), 3);
    run = run.run_single_generation();
    let first = scores(&run);
    assert!(0 < first[0] && first[0] < UNEVALUATED);
    let mut best = first[0];
    for _ in 0..30 {
        run = run.run_single_generation();
        let now = scores(&run)[0];
        assert!(now <= best);
        best = now;
    }
}

#[test]
fn white_target_perfect_first_specimen_stays_first_for_good() {
    let target = white(2, 2);
    let run = run_on(target.clone(), 3);
    let (stage, jobs) = run.begin_evaluation();
    assert_eq!(2, jobs.len());
    let perfect = white(2, 2);
    let perfect_score = SquareDistance.calculate_fitness_rgb(&target, &perfect);
    assert_eq!(0, perfect_score);
    let evaluated: Vec<Candidate> = vec![
        stage.job_context().evaluate(jobs.into_iter().next().unwrap()),
        Candidate { image: perfect, score: perfect_score },
    ];
    let mut run = match stage.complete(evaluated) {
        Ok(run) => run.select_and_breed(),
        Err(failure) => panic!("{:?}", failure),
    };
    for tick in 1..=40u32 {
        assert_eq!(tick, run.current_generation_number());
        assert_eq!(0, run.best_specimen().score);
        assert_eq!(&vec![Pixel::white(); 4], run.best_specimen().image.pixels());
        run = run.run_single_generation();
    }
}

#[test]
fn an_evaluation_stage_takes_the_specimens_back_in_any_order() {
    let run = run_on(white(2, 2), 4);
    let (stage, jobs) = run.begin_evaluation();
    assert_eq!(3, jobs.len());
    let mut evaluated: Vec<Candidate> =
        jobs.into_iter().map(|job| stage.job_context().evaluate(job)).collect();
    evaluated.reverse();
    let expected: Vec<usize> = evaluated.iter().map(|specimen| specimen.score).collect();
    let run = match stage.complete(evaluated) {
        Ok(run) => run,
        Err(failure) => panic!("{:?}", failure),
    };
    assert_eq!(4, run.generation().len());
    assert_eq!(UNEVALUATED, run.generation()[0].score);
    assert_eq!(expected, scores(&run)[1..].to_vec());
    assert_eq!(0, run.current_generation_number());
    let run = run.select_and_breed();
    assert_eq!(1, run.current_generation_number());
    assert_eq!(*expected.iter().min().unwrap(), run.best_specimen().score);
}

#[test]
fn an_evaluation_stage_fails_where_a_specimen_is_lost() {
    let run = run_on(white(2, 2), 4);
    let (stage, mut jobs) = run.begin_evaluation();
    jobs.pop();
    match stage.complete(jobs) {
        Ok(_) => panic!("a lost specimen went unnoticed"),
        Err(failure) => {
            assert_eq!(3, failure.expected);
            assert_eq!(2, failure.received);
        }
    }
}

#[test]
fn an_evaluation_stage_fails_where_a_specimen_has_another_size() {
    let run = run_on(white(2, 2), 4);
    let (stage, mut jobs) = run.begin_evaluation();
    jobs[1] = Candidate { image: white(2, 3), score: 1 };
    match stage.complete(jobs) {
        Ok(_) => panic!("a specimen of another size went unnoticed"),
        Err(failure) => {
            assert_eq!(3, failure.expected);
            assert_eq!(3, failure.received);
        }
    }
}

#[test]
fn the_output_gate_follows_the_conditions() {
    let mut run = Environment::new(
        JobContext::new(white(2, 2), RectangleMutator, SquareDistance, ColorMode::Rgb),
        3,
        EqualHalfsCrossover,
        DisplayCondition::Every(2),
        ImageWriter::new(String::from("out"), String::from("best_")),
        SaveCondition::Each(3),
    );
    assert!(run.needs_window());
    for tick in 1..=12u32 {
        run = run.run_single_generation();
        assert_eq!(tick % 2 == 0, run.should_display());
        assert_eq!(tick % 3 == 0, run.should_save());
        assert_eq!(format!("best_{:0>6}.png", tick), run.best_specimen_file_name());
        assert_eq!(format!("Generation #{}", tick), run.best_specimen_title());
        assert_eq!(
            format!("Current generation: {} ({})", tick, run.best_specimen().score),
            run.report()
        );
    }
    assert_eq!("out", run.image_writer().output_directory());
    assert!(!run_on(white(2, 2), 3).needs_window());
}

struct Darken;

impl franklin::mutators::Mutator for Darken {
    fn mutate_rgb(&self, image: &mut Image) {
        let first = image.pixel(0);
        image.set_pixel(0, Pixel::new(first.get_r() / 2, first.get_g() / 2, first.get_b() / 2));
    }

    fn mutate_grayscale(&self, image: &mut Image) {
        let first = image.pixel(0);
        image.set_pixel(0, Pixel::grayscale(first.get_r() / 2));
    }
}

struct CountBlack;

impl FitnessFunction for CountBlack {
    fn calculate_fitness_rgb(&self, first_image: &Image, second_image: &Image) -> usize {
        first_image.pixels().iter().zip(second_image.pixels()).filter(|(a, b)| a != b).count()
    }

    fn calculate_fitness_grayscale(&self, first_image: &Image, second_image: &Image) -> usize {
        self.calculate_fitness_rgb(first_image, second_image)
    }
}

struct FirstParent;

impl franklin::crossover::CrossoverFunction for FirstParent {
    fn crossover(&mut self, first_image: &Image, _second_image: &Image) -> Image {
        first_image.clone()
    }
}

#[test]
fn a_run_works_with_strategies_written_outside_the_library() {
    let target = Image::new(1, 2, vec![Pixel::new(0, 0, 0), Pixel::white()]);
    let mut run = Environment::new(
        JobContext::new(target, Darken, CountBlack, ColorMode::Rgb),
        5,
        FirstParent,
        DisplayCondition::All,
        ImageWriter::new(String::new(), String::new()),
        SaveCondition::All,
    );
    let mut best = UNEVALUATED;
    for tick in 1..=12u32 {
        run = run.run_single_generation();
        assert_eq!(5, run.generation().len());
        assert_eq!(tick, run.current_generation_number());
        assert!(run.best_specimen().score <= best);
        best = run.best_specimen().score;
        assert!(run.should_display());
        assert!(run.should_save());
    }
    assert_eq!(0, best);
    assert_eq!(&vec![Pixel::new(0, 0, 0), Pixel::white()], run.best_specimen().image.pixels());
}

#[test]
fn a_new_run_is_titled_and_reported_with_its_unscored_first_specimen() {
    let run = run_on(white(2, 2), 3);
    assert_eq!("Generation #0", run.best_specimen_title());
    assert_eq!(format!("Current generation: 0 ({})", usize::MAX), run.report());
}
