use franklin::arg_parser::{
    check_every, check_generation_size, check_threads, validate_every, validate_generation_size,
    validate_threads,
};
use franklin::crossover::EqualHalfsCrossover;
use franklin::display::{ExitWatch, Polled};
use franklin::fitness::SquareDistance;
use franklin::generation_loop::{LoopAction, LoopState};
use franklin::mutators::RectangleMutator;
use franklin::names::{
    get_color_mode_from_name, get_crossover_from_name, get_fitness_from_name,
    get_mutator_from_name, same_text, CrossoverKind, FitnessKind, MutatorKind, UnknownName,
};
use franklin::population::UNEVALUATED;
use franklin::util::decimal::decimal_text;
use franklin::{
    ColorMode, ConfigurationError, DisplayCondition, EnvironmentBuilder, Image, ImageWriter,
    PathKind, Pixel, SaveCondition,
};

type Builder = EnvironmentBuilder<RectangleMutator, SquareDistance, EqualHalfsCrossover>;

fn builder_with_image() -> Builder {
    let mut builder = Builder::default();
    builder.set_image(Image::blank(2, 2, &Pixel::white()));
    builder
}

fn fault_of(builder: Builder) -> Option<ConfigurationError> {
    match builder.build() {
        Ok(_) => None,
        Err(fault) => Some(fault),
    }
}

#[test]
fn display_every_fifty_shows_the_multiples_of_fifty_only() {
    let condition = DisplayCondition::Every(50);
    for tick in 1..=500u32 {
        assert_eq!(tick % 50 == 0, condition.should_display(tick));
    }
    assert!(condition.should_display(50));
    assert!(condition.should_display(100));
    assert!(condition.should_display(150));
    assert!(!condition.should_display(49));
    assert!(!condition.should_display(51));
    assert!(!condition.should_display(149));
}

#[test]
fn display_all_and_never_do_not_count() {
    for tick in [1u32, 2, 50, u32::MAX] {
        assert!(DisplayCondition::All.should_display(tick));
        assert!(!DisplayCondition::Never.should_display(tick));
    }
    assert!(DisplayCondition::All.needs_window());
    assert!(DisplayCondition::Every(7).needs_window());
    assert!(!DisplayCondition::Never.needs_window());
}

#[test]
fn save_conditions_follow_the_generation_number() {
    for tick in 1..=100u32 {
        assert!(SaveCondition::All.should_save(tick));
        assert!(!SaveCondition::Never.should_save(tick));
        assert_eq!(tick % 7 == 0, SaveCondition::Each(7).should_save(tick));
        assert!(SaveCondition::Each(1).should_save(tick));
    }
}

#[test]
fn save_each_zero_is_refused_when_it_is_set() {
    let mut builder = builder_with_image();
    assert_eq!(
        Err(ConfigurationError::ZeroSaveInterval),
        builder.set_output_directory("out", SaveCondition::Each(0), PathKind::Directory)
    );
    assert_eq!(
        Err(ConfigurationError::ZeroSaveInterval),
        builder.set_output_directory("out", SaveCondition::Each(0), PathKind::Unreadable)
    );
    assert_eq!(
        "SaveCondition::Each must be greater than zero.",
        ConfigurationError::ZeroSaveInterval.message()
    );
    let run = builder.build().ok().unwrap();
    assert_eq!("", run.image_writer().output_directory());
}

#[test]
fn the_output_directory_must_be_a_directory_where_anything_is_saved() {
    let mut builder = builder_with_image();
    assert_eq!(
        Err(ConfigurationError::NotADirectory),
        builder.set_output_directory("file.txt", SaveCondition::All, PathKind::NotADirectory)
    );
    assert_eq!(
        Err(ConfigurationError::UnreadablePath),
        builder.set_output_directory("missing", SaveCondition::Each(5), PathKind::Unreadable)
    );
    assert_eq!(
        Ok(()),
        builder.set_output_directory("missing", SaveCondition::Never, PathKind::Unreadable)
    );
    assert_eq!(
        Ok(()),
        builder.set_output_directory("out", SaveCondition::Each(5), PathKind::Directory)
    );
    builder.set_filename_prefix("result_");
    let mut run = builder.build().ok().unwrap();
    assert_eq!("out", run.image_writer().output_directory());
    assert_eq!("result_", run.image_writer().filename_prefix());
    for tick in 1..=10u32 {
        run = run.run_single_generation();
        assert_eq!(tick % 5 == 0, run.should_save());
    }
}

#[test]
fn a_builder_starts_from_the_usual_settings() {
    let builder = builder_with_image();
    assert_eq!(1, builder.threads());
    let run = builder.build().ok().unwrap();
    assert_eq!(100, run.generation().len());
    assert_eq!(0, run.current_generation_number());
    assert!(!run.needs_window());
    assert!(!run.should_save());
    assert_eq!("", run.image_writer().output_directory());
    assert_eq!("", run.image_writer().filename_prefix());
    assert!(run.generation().iter().all(|specimen| specimen.score == UNEVALUATED));
    assert!(matches!(run.job_context().get_color_mode(), ColorMode::Rgb));
}

#[test]
fn a_builder_hands_its_settings_to_the_run() {
    let mut builder = builder_with_image();
    builder.set_color_mode(ColorMode::Grayscale);
    builder.set_mutator(RectangleMutator);
    builder.set_fitness_function(SquareDistance);
    builder.set_crossover_function(EqualHalfsCrossover);
    builder.set_generation_size(150);
    builder.set_threads(5);
    builder.set_display_condition(DisplayCondition::All);
    assert_eq!(5, builder.threads());
    let run = builder.build().ok().unwrap();
    assert_eq!(150, run.generation().len());
    assert!(run.needs_window());
    assert!(matches!(run.job_context().get_color_mode(), ColorMode::Grayscale));
    assert_eq!(2, run.job_context().get_image().height());
}

#[test]
fn no_run_is_built_without_an_image() {
    assert_eq!(Some(ConfigurationError::MissingImage), fault_of(Builder::default()));
    let mut builder = Builder::default();
    builder.set_generation_size(0);
    builder.set_threads(0);
    assert_eq!(Some(ConfigurationError::MissingImage), fault_of(builder));
    assert_eq!("Image must be set.", ConfigurationError::MissingImage.message());
}

#[test]
fn no_run_is_built_of_fewer_than_three_specimens() {
    for size in [0usize, 1, 2] {
        let mut builder = builder_with_image();
        builder.set_generation_size(size);
        assert_eq!(Some(ConfigurationError::GenerationSizeTooSmall), fault_of(builder));
    }
    let mut builder = builder_with_image();
    builder.set_generation_size(3);
    assert_eq!(None, fault_of(builder));
}

#[test]
fn no_run_is_built_without_threads() {
    let mut builder = builder_with_image();
    builder.set_threads(0);
    assert_eq!(Some(ConfigurationError::ZeroThreads), fault_of(builder));
}

#[test]
fn no_run_is_built_that_shows_every_zero_generations() {
    let mut builder = builder_with_image();
    builder.set_display_condition(DisplayCondition::Every(0));
    assert_eq!(Some(ConfigurationError::ZeroDisplayInterval), fault_of(builder));
}

#[test]
fn every_fault_has_its_words() {
    assert_eq!(
        "Generation size cannot be smaller than 3.",
        ConfigurationError::GenerationSizeTooSmall.message()
    );
    assert_eq!("Number of workers cannot be 0.", ConfigurationError::ZeroThreads.message());
    assert_eq!(
        "DisplayCondition::Every must be greater than zero.",
        ConfigurationError::ZeroDisplayInterval.message()
    );
    assert_eq!("The path cannot be read", ConfigurationError::UnreadablePath.message());
    assert_eq!(
        "The path does not point to a directory",
        ConfigurationError::NotADirectory.message()
    );
}

#[test]
fn file_names_count_in_six_digits_at_least() {
    let writer = ImageWriter::new(String::from("dir"), String::from("output_"));
    assert_eq!("output_000000.png", writer.file_name(0));
    assert_eq!("output_000007.png", writer.file_name(7));
    assert_eq!("output_000042.png", writer.file_name(42));
    assert_eq!("output_999999.png", writer.file_name(999_999));
    assert_eq!("output_1000000.png", writer.file_name(1_000_000));
    assert_eq!("output_4294967295.png", writer.file_name(u32::MAX));
    assert_eq!("000120.png", ImageWriter::new(String::new(), String::new()).file_name(120));
    for number in [1u32, 10, 99, 100, 12345, 654321, 7654321] {
        assert_eq!(format!("p{:0>6}.png", number), ImageWriter::new(String::new(), String::from("p")).file_name(number));
    }
}

#[test]
fn generation_sizes_are_read_from_text() {
    assert_eq!(Ok(()), validate_generation_size("3"));
    assert_eq!(Ok(()), validate_generation_size("100"));
    assert_eq!(Ok(()), validate_generation_size("150"));
    assert_eq!(Ok(()), validate_generation_size("200"));
    assert_eq!(Ok(()), validate_generation_size("+150"));
    assert_eq!(Ok(()), validate_generation_size("007"));
    for small in ["0", "1", "2", "+2", "000"] {
        assert_eq!(
            Err(String::from("Generation size cannot be smaller than 3.")),
            validate_generation_size(small)
        );
    }
    for text in ["", "FOO", "-5", "3.5", " 3", "3 ", "+", "99999999999999999999999999"] {
        assert_eq!(
            Err(text.parse::<usize>().unwrap_err().to_string()),
            validate_generation_size(text)
        );
    }
}

#[test]
fn thread_counts_are_read_from_text() {
    assert_eq!(Ok(()), validate_threads("1"));
    assert_eq!(Ok(()), validate_threads("6"));
    assert_eq!(Ok(()), validate_threads("15"));
    assert_eq!(Err(String::from("TNumber of workers cannot be 0.")), validate_threads("0"));
    assert_eq!(Err("FOO".parse::<usize>().unwrap_err().to_string()), validate_threads("FOO"));
    assert_eq!(Err("".parse::<usize>().unwrap_err().to_string()), validate_threads(""));
}

#[test]
fn gaps_are_read_from_text() {
    assert_eq!(Ok(()), validate_every("1"));
    assert_eq!(Ok(()), validate_every("50"));
    assert_eq!(Ok(()), validate_every("4294967295"));
    assert_eq!(
        Err(String::from("Generation gap must be a positive integer.")),
        validate_every("0")
    );
    for text in ["4294967296", "x", "", "-1"] {
        assert_eq!(Err(text.parse::<u32>().unwrap_err().to_string()), validate_every(text));
    }
}

#[test]
fn checks_pass_on_what_was_wrong_with_the_text() {
    assert_eq!(Err(String::from("bad")), check_generation_size(Err(String::from("bad"))));
    assert_eq!(Err(String::from("bad")), check_threads(Err(String::from("bad"))));
    assert_eq!(Err(String::from("bad")), check_every(Err(String::from("bad"))));
    assert_eq!(Ok(()), check_generation_size(Ok(3)));
    assert!(check_generation_size(Ok(2)).is_err());
    assert_eq!(Ok(()), check_threads(Ok(1)));
    assert!(check_threads(Ok(0)).is_err());
    assert_eq!(Ok(()), check_every(Ok(1)));
    assert!(check_every(Ok(0)).is_err());
}

#[test]
fn strategies_are_chosen_by_name() {
    assert!(matches!(get_color_mode_from_name("Rgb"), Ok(ColorMode::Rgb)));
    assert!(matches!(get_color_mode_from_name("Grayscale"), Ok(ColorMode::Grayscale)));
    assert!(matches!(get_color_mode_from_name("rgb"), Err(UnknownName::Mode)));
    assert_eq!(Ok(MutatorKind::Rectangle), get_mutator_from_name("Rectangle"));
    assert_eq!(Ok(MutatorKind::Triangle), get_mutator_from_name("Triangle"));
    assert_eq!(Err(UnknownName::Mutator), get_mutator_from_name("Circle"));
    assert_eq!(Ok(FitnessKind::SquareDistance), get_fitness_from_name("SquareDistance"));
    assert_eq!(Ok(FitnessKind::AbsoluteDistance), get_fitness_from_name("AbsoluteDistance"));
    assert_eq!(Err(UnknownName::Fitness), get_fitness_from_name("FOO"));
    assert_eq!(Ok(CrossoverKind::LeftOrRight), get_crossover_from_name("LeftOrRight"));
    assert_eq!(Ok(CrossoverKind::EqualHalfs), get_crossover_from_name("EqualHalfs"));
    assert_eq!(
        Ok(CrossoverKind::ArithmeticAverage),
        get_crossover_from_name("ArithmeticAverage")
    );
    assert_eq!(Err(UnknownName::Crossover), get_crossover_from_name(""));
    assert_eq!("Unknown mode.", UnknownName::Mode.message());
    assert_eq!("Unknown mutator.", UnknownName::Mutator.message());
    assert_eq!("Unknown fitness function.", UnknownName::Fitness.message());
    assert_eq!("Unknown crossover function.", UnknownName::Crossover.message());
}

#[test]
fn texts_are_compared_character_by_character() {
    assert!(same_text("", ""));
    assert!(same_text("Rgb", "Rgb"));
    assert!(!same_text("Rgb", "Rgx"));
    assert!(!same_text("Rgb", "Rg"));
    assert!(same_text("żółw", "żółw"));
    assert!(!same_text("żółw", "zolw"));
}

#[test]
fn the_exit_watch_remembers_a_request_to_end() {
    let mut watch = ExitWatch::new();
    assert!(!watch.should_exit());
    assert!(watch.handle_event(Polled::Other));
    assert!(watch.handle_event(Polled::Escape { pressed: false }));
    assert!(!watch.should_exit());
    assert!(!watch.handle_event(Polled::Empty));
    assert!(!watch.should_exit());
    assert!(watch.handle_event(Polled::Escape { pressed: true }));
    assert!(watch.should_exit());
    assert!(watch.handle_event(Polled::Other));
    assert!(!watch.handle_event(Polled::Empty));
    assert!(watch.should_exit());
    let mut gone = ExitWatch::new();
    assert!(!gone.handle_event(Polled::Disconnected));
    assert!(gone.should_exit());
}

#[test]
fn a_run_goes_from_set_up_to_running_and_ends_on_request_only() {
    assert_eq!(LoopAction::SetUp, LoopState::Initializing.action());
    assert_eq!(LoopAction::RunGeneration, LoopState::Running.action());
    assert_eq!(LoopAction::Stop, LoopState::Exiting.action());
    for windowed in [false, true] {
        for cancelled in [false, true] {
            assert_eq!(LoopState::Exiting, LoopState::Exiting.next(windowed, cancelled));
        }
    }
    assert_eq!(LoopState::Running, LoopState::Initializing.next(false, false));
    assert_eq!(LoopState::Running, LoopState::Initializing.next(false, true));
    assert_eq!(LoopState::Running, LoopState::Initializing.next(true, false));
    assert_eq!(LoopState::Exiting, LoopState::Initializing.next(true, true));
    assert_eq!(LoopAction::Stop, LoopState::Initializing.next(true, true).action());
    assert_eq!(LoopState::Running, LoopState::Running.next(false, false));
    assert_eq!(LoopState::Running, LoopState::Running.next(false, true));
    assert_eq!(LoopState::Running, LoopState::Running.next(true, false));
    assert_eq!(LoopState::Exiting, LoopState::Running.next(true, true));
}

#[test]
fn numbers_are_written_in_decimal_without_leading_zeros() {
    assert_eq!("0", decimal_text(0));
    assert_eq!("7", decimal_text(7));
    assert_eq!("10", decimal_text(10));
    assert_eq!("4294967295", decimal_text(4_294_967_295));
    assert_eq!("18446744073709551615", decimal_text(u64::MAX));
    for number in [9u64, 99, 100, 101, 1_000_000, 1_234_567_890_123] {
        assert_eq!(number.to_string(), decimal_text(number));
    }
}
